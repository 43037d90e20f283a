use vstd::prelude::*;

use crate::browser::StatusLine;
use crate::params::{optional_string, present_text, Params};
use crate::text::join2;

verus! {

/// The address that `open` goes to where no `url` is given.
pub const DEFAULT_URL: &'static str = "https://discord.com";

/// The address to open: the parameter `url`, trimmed, where it is present
/// and not blank; Discord's home page otherwise.
pub open spec fn open_url(params: Params) -> Seq<char> {
    match present_text(params, "url"@) {
        Some(u) => u,
        None => DEFAULT_URL@,
    }
}

/// The address to open (see `open_url`).
pub fn target<'a>(params: &'a Params) -> (u: &'a str)
    ensures
        u@ == open_url(*params),
{
    match optional_string(params, "url") {
        Some(u) => u,
        None => DEFAULT_URL,
    }
}

/// The answer of `open`, once the browser opened `url`.
pub fn execute(url: &str) -> (r: StatusLine)
    ensures
        r@ == "opened: "@ + url@,
{
    StatusLine { status: join2("opened: ", url) }
}

} // verus!
