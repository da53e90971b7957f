use vstd::prelude::*;
use vstd::string::*;

verus! {

/// Why talking to the episode API failed.
#[derive(Debug)]
pub enum SpreakerError {
    RequestError(reqwest::Error),
    JsonError(reqwest::Error),
    Runtime(tokio::task::JoinError),
    IOError(std::io::Error),
}

impl vstd::std_specs::convert::FromSpecImpl<reqwest::Error> for SpreakerError {
    open spec fn obeys_from_spec() -> bool {
        true
    }

    open spec fn from_spec(e: reqwest::Error) -> Self {
        SpreakerError::RequestError(e)
    }
}

impl From<reqwest::Error> for SpreakerError {
    fn from(e: reqwest::Error) -> (r: Self) {
        SpreakerError::RequestError(e)
    }
}

/// `prefix` followed by `detail`.
pub fn prefixed(prefix: &str, detail: String) -> (text: String)
    ensures
        text@ == prefix@ + detail@,
{
    let mut text = String::from_str(prefix);
    text.append(detail.as_str());
    text
}

/// `text` is `label` followed by what `e` writes of itself.
pub open spec fn labelled<E: std::fmt::Display>(label: Seq<char>, e: &E, text: Seq<char>) -> bool {
    exists|detail: String|
        #[trigger] to_string_from_display_ensures::<E>(e, detail) && text == label + detail@
}

/// `label` followed by what `e` writes of itself.
pub fn with_label<E: std::fmt::Display>(label: &str, e: &E) -> (text: String)
    ensures
        labelled(label@, e, text@),
{
    let detail = e.to_string();
    let text = prefixed(label, detail);
    assert(to_string_from_display_ensures::<E>(e, detail) && text@ == label@ + detail@);
    text
}

impl SpreakerError {
    /// The error written out: a label, then the outside error's own words.
    pub fn to_string(&self) -> (text: String)
        ensures
            match self {
                SpreakerError::RequestError(e) => labelled("Request error: "@, e, text@),
                SpreakerError::JsonError(e) => labelled("Json error: "@, e, text@),
                SpreakerError::Runtime(e) => labelled("Runtime error: "@, e, text@),
                SpreakerError::IOError(e) => labelled("IO error: "@, e, text@),
            },
    {
        match self {
            SpreakerError::RequestError(e) => with_label("Request error: ", e),
            SpreakerError::JsonError(e) => with_label("Json error: ", e),
            SpreakerError::Runtime(e) => with_label("Runtime error: ", e),
            SpreakerError::IOError(e) => with_label("IO error: ", e),
        }
    }
}

} // verus!
