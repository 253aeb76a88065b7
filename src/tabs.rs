use vstd::prelude::*;
use crate::config::Config;

verus! {

/// Settings handed to the browser engine when it starts.
#[derive(Debug)]
pub struct CefSettings {}

impl CefSettings {
    pub fn default() -> (r: CefSettings) {
        CefSettings {}
    }
}

/// A browser view bound to the address it was created for. The address is
/// fixed for the life of the view; a reload fetches it again.
#[derive(Clone)]
pub struct BrowserView {
    url: String,
}

impl View for BrowserView {
    type V = Seq<char>;

    closed spec fn view(&self) -> Seq<char> {
        self.url@
    }
}

impl BrowserView {
    pub fn new(initial_url: &str) -> (r: BrowserView)
        ensures
            r@ == initial_url@,
    {
        BrowserView { url: initial_url.to_owned() }
    }

    /// The address the view shows.
    pub fn url(&self) -> (r: &str)
        ensures
            r@ == self@,
    {
        self.url.as_str()
    }

    /// The address that a reload requests again: the view's own.
    pub fn reload(&self) -> (r: String)
        ensures
            r@ == self@,
    {
        self.url.clone()
    }
}

/// One page of the tab container: its label and its browser view.
pub struct Tab {
    pub label: String,
    pub view: BrowserView,
}

impl View for Tab {
    type V = (Seq<char>, Seq<char>);

    open spec fn view(&self) -> (Seq<char>, Seq<char>) {
        (self.label@, self.view@)
    }
}

/// `tabs` holds one tab per configured entry, in the entries' order, each
/// labelled with its entry's name and showing its entry's address.
pub open spec fn one_tab_per_entry(
    entries: Seq<(Seq<char>, Seq<char>)>,
    tabs: Seq<(Seq<char>, Seq<char>)>,
) -> bool {
    &&& tabs.len() == entries.len()
    &&& forall|i: int| 0 <= i < tabs.len() ==> #[trigger] tabs[i] == entries[i]
}

/// Builds the tabs for a configuration, one per entry, in order.
pub fn plan_tabs(config: &Config) -> (r: Vec<Tab>)
    ensures
        one_tab_per_entry(config@, r@.map_values(|t: Tab| t@)),
{
    let mut tabs: Vec<Tab> = Vec::new();
    let mut i: usize = 0;
    while i < config.urls.len()
        invariant
            0 <= i <= config.urls@.len(),
            tabs@.len() == i,
            forall|j: int| 0 <= j < i ==> (#[trigger] tabs@[j])@ == config.urls@[j]@,
        decreases config.urls@.len() - i,
    {
        let e = &config.urls[i];
        tabs.push(Tab { label: e.name.clone(), view: BrowserView::new(e.url.as_str()) });
        i = i + 1;
    }
    tabs
}

/// Every configured entry gets its tab, also where two entries repeat a name
/// or an address: the tabs at their positions are both there and alike.
pub proof fn repeated_entries_kept(
    entries: Seq<(Seq<char>, Seq<char>)>,
    tabs: Seq<(Seq<char>, Seq<char>)>,
    i: int,
    j: int,
)
    requires
        one_tab_per_entry(entries, tabs),
        0 <= i < j < entries.len(),
        entries[i].0 == entries[j].0 || entries[i].1 == entries[j].1,
    ensures
        tabs.len() == entries.len(),
        tabs[i] == entries[i],
        tabs[j] == entries[j],
        entries[i].0 == entries[j].0 ==> tabs[i].0 == tabs[j].0,
        entries[i].1 == entries[j].1 ==> tabs[i].1 == tabs[j].1,
{
}

/// What a click on a tab's refresh button asks for.
#[derive(Debug, Clone, PartialEq, Eq)]
pub enum Refresh {
    /// Navigate again to this address, the one the view shows.
    Reload(String),
    /// The view has no address yet: nothing is requested.
    NoAddress,
}

/// The address a refresh navigates to, given the one the view shows.
pub open spec fn refresh_target(current: Option<Seq<char>>) -> Option<Seq<char>> {
    current
}

/// The address a view shows, as a sequence of characters.
pub open spec fn shown_address(current: Option<&str>) -> Option<Seq<char>> {
    match current {
        Some(c) => Some(c@),
        None => None,
    }
}

/// Decides a refresh from the address the view currently shows.
pub fn refresh(current: Option<&str>) -> (r: Refresh)
    ensures
        match r {
            Refresh::Reload(u) => refresh_target(shown_address(current)) == Some(u@),
            Refresh::NoAddress => refresh_target(shown_address(current)) is None,
        },
{
    match current {
        Some(u) => Refresh::Reload(u.to_owned()),
        None => Refresh::NoAddress,
    }
}

/// A refresh re-requests the address the view shows, so the view keeps that
/// address however often it is refreshed.
pub proof fn refresh_keeps_address(u: Seq<char>, n: nat)
    ensures
        refresh_target(Some(u)) == Some(u),
        refresh_target(refresh_target(Some(u))) == Some(u),
        repeat_refresh(Some(u), n) == Some(u),
    decreases n,
{
    if n > 0 {
        refresh_keeps_address(u, (n - 1) as nat);
    }
}

/// The address shown after `n` refreshes in a row.
pub open spec fn repeat_refresh(current: Option<Seq<char>>, n: nat) -> Option<Seq<char>>
    decreases n,
{
    if n == 0 {
        current
    } else {
        refresh_target(repeat_refresh(current, (n - 1) as nat))
    }
}

} // verus!
