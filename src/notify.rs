use vstd::prelude::*;

verus! {

/// Time in milliseconds after which a revealed notification is dismissed by itself.
pub const AUTO_HIDE_MS: u32 = 5000;

/// Visual state of the notification text.
#[derive(Debug, Clone, Copy, PartialEq, Eq, Structural)]
pub enum Tone {
    Plain,
    Success,
    Error,
}

impl Tone {
    /// The style class that marks this tone, if any.
    pub fn css_class(&self) -> (r: Option<String>)
        ensures
            match self {
                Tone::Plain => r is None,
                Tone::Success => r matches Some(c) && c@ == "success"@,
                Tone::Error => r matches Some(c) && c@ == "error"@,
            },
    {
        match self {
            Tone::Plain => None,
            Tone::Success => Some("success".to_owned()),
            Tone::Error => Some("error".to_owned()),
        }
    }
}

/// The outcome of one page load, as the browser engine reports it.
pub enum LoadEvent {
    Succeeded,
    /// The load failed; the engine's description of the failure.
    Failed(String),
}

/// What a notification shows: whether it is revealed, its text and its tone.
pub type NoticeView = (bool, Seq<char>, Tone);

pub open spec fn success_message() -> Seq<char> {
    "Page loaded successfully"@
}

pub open spec fn failure_prefix() -> Seq<char> {
    "Failed to load page: "@
}

pub open spec fn failure_message(description: Seq<char>) -> Seq<char> {
    failure_prefix() + description
}

/// The notification after a load event, whatever it showed before.
pub open spec fn after_load(n: NoticeView, ev: LoadEvent) -> NoticeView {
    match ev {
        LoadEvent::Succeeded => (true, success_message(), Tone::Success),
        LoadEvent::Failed(d) => (true, failure_message(d@), Tone::Error),
    }
}

/// The notification once dismissed: its text and tone stay for the next reveal.
pub open spec fn after_dismiss(n: NoticeView) -> NoticeView {
    (false, n.1, n.2)
}

/// The text shown for a failed load.
pub fn failure_text(description: &str) -> (r: String)
    ensures
        r@ == failure_message(description@),
{
    let mut s = "Failed to load page: ".to_owned();
    s.append(description);
    s
}

/// The single notification shared by every tab.
pub struct Notice {
    pub revealed: bool,
    pub message: String,
    pub tone: Tone,
}

impl View for Notice {
    type V = NoticeView;

    open spec fn view(&self) -> NoticeView {
        (self.revealed, self.message@, self.tone)
    }
}

impl Notice {
    /// A hidden notification with no text.
    pub fn new() -> (r: Notice)
        ensures
            r@ == (false, Seq::<char>::empty(), Tone::Plain),
    {
        Notice { revealed: false, message: String::new(), tone: Tone::Plain }
    }

    /// Shows the outcome of a load in any tab, replacing what was shown.
    /// Returns the delay in milliseconds after which `dismiss` is to be called.
    pub fn on_load(&mut self, ev: &LoadEvent) -> (delay_ms: u32)
        ensures
            final(self)@ == after_load(old(self)@, *ev),
            delay_ms == AUTO_HIDE_MS,
    {
        match ev {
            LoadEvent::Succeeded => {
                self.message = "Page loaded successfully".to_owned();
                self.tone = Tone::Success;
            },
            LoadEvent::Failed(d) => {
                self.message = failure_text(d.as_str());
                self.tone = Tone::Error;
            },
        }
        self.revealed = true;
        AUTO_HIDE_MS
    }

    /// Hides the notification: on its timer, or when the user dismisses it.
    pub fn dismiss(&mut self)
        ensures
            final(self)@ == after_dismiss(old(self)@),
    {
        self.revealed = false;
    }
}

/// The latest load event decides what the notification shows, whichever tab
/// it came from and whatever was shown before; a success shows the success
/// text in the success tone.
pub proof fn latest_load_wins(a: NoticeView, b: NoticeView, ev: LoadEvent)
    ensures
        after_load(a, ev) == after_load(b, ev),
        after_load(a, ev).0,
        ev is Succeeded ==> after_load(a, ev) == (true, success_message(), Tone::Success),
{
}

/// A failed load shows the error tone, and its text ends with the engine's
/// description of the failure.
pub proof fn failure_shows_description(n: NoticeView, description: String)
    ensures
        ({
            let shown = after_load(n, LoadEvent::Failed(description));
            &&& shown.2 == Tone::Error
            &&& shown.1.len() == failure_prefix().len() + description@.len()
            &&& shown.1.subrange(failure_prefix().len() as int, shown.1.len() as int)
                == description@
        }),
{
    let shown = after_load(n, LoadEvent::Failed(description));
    assert(shown.1.subrange(failure_prefix().len() as int, shown.1.len() as int)
        =~= description@);
}

/// A hidden notification stays hidden when its timer fires again, and keeps
/// its text.
pub proof fn dismiss_is_idempotent(n: NoticeView)
    ensures
        after_dismiss(after_dismiss(n)) == after_dismiss(n),
        !after_dismiss(n).0,
        after_dismiss(n).1 == n.1,
{
}

} // verus!
