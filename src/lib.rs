//! A tab manager for a window of embedded web views: it reads the list of
//! pages from a JSON configuration, lays out one tab per page in order,
//! decides what a tab's refresh button asks of its view, and keeps the one
//! notification that reports the latest page load of any tab.

pub mod config;
pub mod notify;
pub mod tabs;
pub mod startup;
