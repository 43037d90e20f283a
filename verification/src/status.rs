use vstd::prelude::*;

use crate::browser::opt_text;

verus! {

/// The answer of `status`.
#[derive(Debug, PartialEq, Eq)]
pub struct StatusReport {
    pub status: String,
    pub url: String,
    pub title: String,
}

pub struct StatusModel {
    pub status: Seq<char>,
    pub url: Seq<char>,
    pub title: Seq<char>,
}

impl View for StatusReport {
    type V = StatusModel;

    open spec fn view(&self) -> StatusModel {
        StatusModel { status: self.status@, url: self.url@, title: self.title@ }
    }
}

/// `o`, or "unknown" where the page gave no text.
pub open spec fn text_or_unknown(o: Option<Seq<char>>) -> Seq<char> {
    match o {
        Some(t) => t,
        None => "unknown"@,
    }
}

fn or_unknown(o: Option<String>) -> (s: String)
    ensures
        s@ == text_or_unknown(opt_text(o)),
{
    match o {
        Some(t) => t,
        None => "unknown".to_string(),
    }
}

/// The answer of `status`, from the text values of `LOCATION_HREF` and
/// `DOCUMENT_TITLE` (`None` where the value was not text).
pub fn execute(url: Option<String>, title: Option<String>) -> (r: StatusReport)
    ensures
        r@ == (StatusModel {
            status: "Connected"@,
            url: text_or_unknown(opt_text(url)),
            title: text_or_unknown(opt_text(title)),
        }),
{
    StatusReport { status: "Connected".to_string(), url: or_unknown(url), title: or_unknown(title) }
}

} // verus!
