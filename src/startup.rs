use vstd::prelude::*;
use crate::config::{ConfigError, parse_config, parse_outcome, config_entries, parse_accepts_well_formed};
use crate::tabs::{Tab, plan_tabs, one_tab_per_entry};

verus! {

/// Why the application cannot start.
#[derive(Debug, Clone, Copy, PartialEq, Eq, Structural)]
pub enum StartupError {
    /// The configuration text was refused.
    Config(ConfigError),
    /// The browser engine gave no context to bind views to.
    EngineUnavailable,
}

/// What starting from a configuration text gives, with or without a browser
/// engine context: the tabs to show, or why startup stops.
pub open spec fn startup_outcome(
    text: Seq<char>,
    engine_ready: bool,
    r: Result<Vec<Tab>, StartupError>,
) -> bool {
    match r {
        Ok(tabs) => engine_ready && (config_entries(text) matches Some(es)
            && one_tab_per_entry(es, tabs@.map_values(|t: Tab| t@))),
        Err(StartupError::Config(e)) => parse_outcome(text, Err(e)),
        Err(StartupError::EngineUnavailable) => !engine_ready && config_entries(text) is Some,
    }
}

/// Reads the configuration and lays out one tab per entry. The configuration
/// is checked first; without an engine context no tab is made.
pub fn setup_interface(config_text: &str, engine_ready: bool) -> (r: Result<Vec<Tab>, StartupError>)
    ensures
        startup_outcome(config_text@, engine_ready, r),
        r is Ok <==> engine_ready && config_entries(config_text@) is Some,
{
    let parsed = parse_config(config_text);
    proof {
        parse_accepts_well_formed(config_text@, parsed);
    }
    match parsed {
        Err(e) => Err(StartupError::Config(e)),
        Ok(config) => {
            if !engine_ready {
                Err(StartupError::EngineUnavailable)
            } else {
                Ok(plan_tabs(&config))
            }
        },
    }
}

/// A configuration that is not well formed (not JSON, no `urls`, `urls` not
/// an array, an entry without string `name` and `url`) stops startup with a
/// configuration error, before any tab or window exists.
pub proof fn malformed_config_stops_startup(
    text: Seq<char>,
    engine_ready: bool,
    r: Result<Vec<Tab>, StartupError>,
)
    requires
        startup_outcome(text, engine_ready, r),
        config_entries(text) is None,
    ensures
        r matches Err(StartupError::Config(e)) && parse_outcome(text, Err(e)),
{
}

/// A well-formed configuration of N entries, with an engine context, gives
/// exactly N tabs in the entries' order.
pub proof fn one_tab_per_configured_entry(text: Seq<char>, r: Result<Vec<Tab>, StartupError>)
    requires
        startup_outcome(text, true, r),
        config_entries(text) is Some,
    ensures
        r matches Ok(tabs) && one_tab_per_entry(
            config_entries(text)->0,
            tabs@.map_values(|t: Tab| t@),
        ),
{
}

/// The process environment to set before the toolkit starts: the display
/// backends to try, the renderer path to turn off, and no client-side
/// decorations.
pub fn startup_environment() -> (r: Vec<(String, String)>)
    ensures
        r@.len() == 3,
        r@[0].0@ == "GDK_BACKEND"@ && r@[0].1@ == "x11,wayland"@,
        r@[1].0@ == "WEBKIT_DISABLE_DMABUF_RENDERER"@ && r@[1].1@ == "1"@,
        r@[2].0@ == "GTK_CSD"@ && r@[2].1@ == "0"@,
{
    let mut r: Vec<(String, String)> = Vec::new();
    r.push(("GDK_BACKEND".to_owned(), "x11,wayland".to_owned()));
    r.push(("WEBKIT_DISABLE_DMABUF_RENDERER".to_owned(), "1".to_owned()));
    r.push(("GTK_CSD".to_owned(), "0".to_owned()));
    r
}

} // verus!
