use vstd::prelude::*;

verus! {

#[verifier::external_type_specification]
#[verifier::external_body]
pub struct ExValue(serde_json::Value);

#[verifier::external_type_specification]
#[verifier::external_body]
pub struct ExJsonError(serde_json::Error);

/// The JSON document that serde_json reads from a text, if the text is JSON.
pub uninterp spec fn json_document(text: Seq<char>) -> Option<serde_json::Value>;

/// The member of a JSON object under a key; none for a missing key or a non-object.
pub uninterp spec fn json_member(v: serde_json::Value, key: Seq<char>) -> Option<serde_json::Value>;

/// The elements of a JSON array; none for any other kind of value.
pub uninterp spec fn json_items(v: serde_json::Value) -> Option<Seq<serde_json::Value>>;

/// The text of a JSON string; none for any other kind of value.
pub uninterp spec fn json_text(v: serde_json::Value) -> Option<Seq<char>>;

/// Relies on serde_json::from_str, read into a serde_json::Value: the
/// document (or the failure) depends on the text alone.
#[verifier::external_body]
fn read_document(text: &str) -> (r: Result<serde_json::Value, serde_json::Error>)
    ensures
        r is Ok <==> json_document(text@) is Some,
        r matches Ok(v) ==> json_document(text@) == Some(v),
{
    serde_json::from_str::<serde_json::Value>(text)
}

/// Relies on serde_json::Value::get with a string key: the object member
/// under that key, cloned.
#[verifier::external_body]
fn member(v: &serde_json::Value, key: &str) -> (r: Option<serde_json::Value>)
    ensures
        r == json_member(*v, key@),
{
    v.get(key).cloned()
}

/// Relies on serde_json::Value::as_array: the elements of an array, cloned.
#[verifier::external_body]
fn items(v: &serde_json::Value) -> (r: Option<Vec<serde_json::Value>>)
    ensures
        match r {
            Some(xs) => json_items(*v) == Some(xs@),
            None => json_items(*v) is None,
        },
{
    v.as_array().cloned()
}

/// Relies on serde_json::Value::as_str: the text of a string, copied.
#[verifier::external_body]
fn text(v: &serde_json::Value) -> (r: Option<String>)
    ensures
        match r {
            Some(s) => json_text(*v) == Some(s@),
            None => json_text(*v) is None,
        },
{
    v.as_str().map(String::from)
}

/// One configured page: the label of its tab and the address it shows.
pub struct UrlEntry {
    pub name: String,
    pub url: String,
}

impl View for UrlEntry {
    type V = (Seq<char>, Seq<char>);

    open spec fn view(&self) -> (Seq<char>, Seq<char>) {
        (self.name@, self.url@)
    }
}

/// The ordered list of configured pages.
pub struct Config {
    pub urls: Vec<UrlEntry>,
}

impl View for Config {
    type V = Seq<(Seq<char>, Seq<char>)>;

    open spec fn view(&self) -> Seq<(Seq<char>, Seq<char>)> {
        self.urls@.map_values(|e: UrlEntry| e@)
    }
}

/// Why a configuration document was not accepted.
#[derive(Debug, Clone, Copy, PartialEq, Eq, Structural)]
pub enum ConfigError {
    /// The text is not a JSON document.
    InvalidJson,
    /// The document has no `urls` member.
    MissingUrls,
    /// The `urls` member is not an array.
    UrlsNotArray,
    /// The element at `index` is not an object with string `name` and `url`.
    InvalidEntry { index: usize },
}

/// The string member of a JSON object under a key.
pub open spec fn text_member(v: serde_json::Value, key: Seq<char>) -> Option<Seq<char>> {
    match json_member(v, key) {
        Some(m) => json_text(m),
        None => None,
    }
}

/// The (name, url) pair that one element of `urls` stands for, if it is well formed.
pub open spec fn entry_of(v: serde_json::Value) -> Option<(Seq<char>, Seq<char>)> {
    match (text_member(v, "name"@), text_member(v, "url"@)) {
        (Some(name), Some(url)) => Some((name, url)),
        _ => None,
    }
}

/// What reading a configuration out of a JSON document gives: the entries in
/// document order, or the first reason for refusing the document.
pub open spec fn config_outcome(v: serde_json::Value, r: Result<Config, ConfigError>) -> bool {
    match json_member(v, "urls"@) {
        None => r == Err::<Config, ConfigError>(ConfigError::MissingUrls),
        Some(u) => match json_items(u) {
            None => r == Err::<Config, ConfigError>(ConfigError::UrlsNotArray),
            Some(xs) => match r {
                Ok(c) => (forall|j: int| 0 <= j < xs.len() ==> (#[trigger] entry_of(xs[j])) is Some)
                    && c@ == xs.map_values(|x: serde_json::Value| entry_of(x)->0),
                Err(ConfigError::InvalidEntry { index }) => index < xs.len()
                    && entry_of(xs[index as int]) is None
                    && forall|j: int| 0 <= j < index ==> (#[trigger] entry_of(xs[j])) is Some,
                Err(_) => false,
            },
        },
    }
}

/// Reads the configuration out of an already parsed JSON document.
pub fn config_from_value(v: &serde_json::Value) -> (r: Result<Config, ConfigError>)
    ensures
        config_outcome(*v, r),
{
    let u = match member(v, "urls") {
        Some(u) => u,
        None => return Err(ConfigError::MissingUrls),
    };
    let xs = match items(&u) {
        Some(xs) => xs,
        None => return Err(ConfigError::UrlsNotArray),
    };
    let mut urls: Vec<UrlEntry> = Vec::new();
    let mut i: usize = 0;
    while i < xs.len()
        invariant
            json_member(*v, "urls"@) == Some(u),
            json_items(u) == Some(xs@),
            0 <= i <= xs@.len(),
            urls@.len() == i,
            forall|j: int| 0 <= j < i ==> (#[trigger] entry_of(xs@[j])) is Some,
            forall|j: int| 0 <= j < i ==> (#[trigger] urls@[j])@ == entry_of(xs@[j])->0,
        decreases xs@.len() - i,
    {
        let x = &xs[i];
        let name = match member(x, "name") {
            Some(m) => text(&m),
            None => None,
        };
        let url = match member(x, "url") {
            Some(m) => text(&m),
            None => None,
        };
        match (name, url) {
            (Some(name), Some(url)) => {
                urls.push(UrlEntry { name, url });
            },
            _ => {
                return Err(ConfigError::InvalidEntry { index: i });
            },
        }
        i = i + 1;
    }
    let c = Config { urls };
    assert(c@ =~= xs@.map_values(|x: serde_json::Value| entry_of(x)->0));
    Ok(c)
}

/// What reading a configuration out of a text gives.
pub open spec fn parse_outcome(text: Seq<char>, r: Result<Config, ConfigError>) -> bool {
    match json_document(text) {
        None => r == Err::<Config, ConfigError>(ConfigError::InvalidJson),
        Some(v) => config_outcome(v, r),
    }
}

/// The entries of a well-formed configuration text: a JSON object whose `urls`
/// member is an array of objects, each with string `name` and `url` members.
pub open spec fn config_entries(text: Seq<char>) -> Option<Seq<(Seq<char>, Seq<char>)>> {
    match json_document(text) {
        None => None,
        Some(v) => match json_member(v, "urls"@) {
            None => None,
            Some(u) => match json_items(u) {
                None => None,
                Some(xs) => if forall|j: int| 0 <= j < xs.len() ==> (#[trigger] entry_of(xs[j])) is Some {
                    Some(xs.map_values(|x: serde_json::Value| entry_of(x)->0))
                } else {
                    None
                },
            },
        },
    }
}

/// A configuration text is accepted exactly when it is well formed, and then
/// gives its entries in document order.
pub proof fn parse_accepts_well_formed(text: Seq<char>, r: Result<Config, ConfigError>)
    requires
        parse_outcome(text, r),
    ensures
        r is Ok <==> config_entries(text) is Some,
        r matches Ok(c) ==> c@ == config_entries(text)->0,
{
    if let Some(v) = json_document(text) {
        if let Some(u) = json_member(v, "urls"@) {
            if let Some(xs) = json_items(u) {
                if let Err(ConfigError::InvalidEntry { index }) = r {
                    assert(entry_of(xs[index as int]) is None);
                }
            }
        }
    }
}

/// Reads the configuration out of the text of a configuration file.
pub fn parse_config(text: &str) -> (r: Result<Config, ConfigError>)
    ensures
        parse_outcome(text@, r),
{
    match read_document(text) {
        Ok(v) => config_from_value(&v),
        Err(_) => Err(ConfigError::InvalidJson),
    }
}

} // verus!
