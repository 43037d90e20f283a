use vstd::prelude::*;

use crate::error::{AppError, ErrorModel};
use crate::text::join3;

verus! {

/// What a command parameter holds, as far as the commands read it.
#[derive(Debug, PartialEq, Eq)]
pub enum ParamValue {
    /// A JSON string.
    Text(String),
    /// A JSON number that is a non-negative integer fitting in 64 bits.
    Unsigned(u64),
    /// Any other JSON value.
    Other,
}

/// The parameters of a command: the members of a JSON object, in order.
/// Where a key occurs twice, the later member counts.
pub struct Params {
    pub entries: Vec<(String, ParamValue)>,
}

/// The value bound to `key`: that of the last entry with this key.
pub open spec fn lookup(entries: Seq<(String, ParamValue)>, key: Seq<char>) -> Option<ParamValue>
    decreases entries.len(),
{
    if entries.len() == 0 {
        None
    } else if entries.last().0@ == key {
        Some(entries.last().1)
    } else {
        lookup(entries.drop_last(), key)
    }
}

// ---------------------------------------------------------------------------
// Unicode white space and trimming
// ---------------------------------------------------------------------------

/// The Unicode property White_Space, which `char::is_whitespace` tests.
pub open spec fn is_white_space(c: char) -> bool {
    ||| ('\u{9}' <= c && c <= '\u{d}')
    ||| c == ' '
    ||| c == '\u{85}'
    ||| c == '\u{a0}'
    ||| c == '\u{1680}'
    ||| ('\u{2000}' <= c && c <= '\u{200a}')
    ||| c == '\u{2028}'
    ||| c == '\u{2029}'
    ||| c == '\u{202f}'
    ||| c == '\u{205f}'
    ||| c == '\u{3000}'
}

fn white_space(c: char) -> (b: bool)
    ensures
        b == is_white_space(c),
{
    ('\u{9}' <= c && c <= '\u{d}') || c == ' ' || c == '\u{85}' || c == '\u{a0}' || c == '\u{1680}'
        || ('\u{2000}' <= c && c <= '\u{200a}') || c == '\u{2028}' || c == '\u{2029}' || c
        == '\u{202f}' || c == '\u{205f}' || c == '\u{3000}'
}

/// `s` without its leading white space.
pub open spec fn trim_start(s: Seq<char>) -> Seq<char>
    decreases s.len(),
{
    if s.len() > 0 && is_white_space(s[0]) {
        trim_start(s.drop_first())
    } else {
        s
    }
}

/// `s` without its trailing white space.
pub open spec fn trim_end(s: Seq<char>) -> Seq<char>
    decreases s.len(),
{
    if s.len() > 0 && is_white_space(s.last()) {
        trim_end(s.drop_last())
    } else {
        s
    }
}

/// `s` without leading and trailing white space, as `str::trim` gives it.
pub open spec fn trimmed(s: Seq<char>) -> Seq<char> {
    trim_end(trim_start(s))
}

proof fn lemma_trim_start_skip(s: Seq<char>, a: int)
    requires
        0 <= a <= s.len(),
        forall|i: int| 0 <= i < a ==> is_white_space(#[trigger] s[i]),
    ensures
        trim_start(s) == trim_start(s.subrange(a, s.len() as int)),
    decreases a,
{
    if a == 0 {
        assert(s.subrange(0, s.len() as int) =~= s);
    } else {
        assert(is_white_space(s[0]));
        let t = s.drop_first();
        assert forall|i: int| 0 <= i < a - 1 implies is_white_space(#[trigger] t[i]) by {
            assert(t[i] == s[i + 1]);
        }
        lemma_trim_start_skip(t, a - 1);
        assert(t.subrange(a - 1, t.len() as int) =~= s.subrange(a, s.len() as int));
    }
}

proof fn lemma_trim_end_cut(s: Seq<char>, b: int)
    requires
        0 <= b <= s.len(),
        forall|i: int| b <= i < s.len() ==> is_white_space(#[trigger] s[i]),
    ensures
        trim_end(s) == trim_end(s.subrange(0, b)),
    decreases s.len() - b,
{
    if b == s.len() {
        assert(s.subrange(0, b) =~= s);
    } else {
        assert(is_white_space(s.last()));
        let t = s.drop_last();
        lemma_trim_end_cut(t, b);
        assert(t.subrange(0, b) =~= s.subrange(0, b));
    }
}

/// `s` without leading and trailing white space.
pub fn trim(s: &str) -> (t: &str)
    ensures
        t@ == trimmed(s@),
{
    let n: usize = s.unicode_len();
    let mut a: usize = 0;
    while a < n && white_space(s.get_char(a))
        invariant
            n == s@.len(),
            a <= n,
            forall|i: int| 0 <= i < a ==> is_white_space(#[trigger] s@[i]),
        decreases n - a,
    {
        a = a + 1;
    }
    proof {
        lemma_trim_start_skip(s@, a as int);
    }
    let ghost rest = s@.subrange(a as int, n as int);
    assert(trim_start(rest) == rest);
    let mut b: usize = n;
    while b > a && white_space(s.get_char(b - 1))
        invariant
            n == s@.len(),
            a <= b <= n,
            rest == s@.subrange(a as int, n as int),
            forall|i: int| b <= i < n ==> is_white_space(#[trigger] s@[i]),
        decreases b,
    {
        b = b - 1;
    }
    proof {
        let k: int = b - a;
        assert forall|i: int| k <= i < rest.len() implies is_white_space(#[trigger] rest[i]) by {
            assert(rest[i] == s@[a + i]);
        }
        lemma_trim_end_cut(rest, k);
        assert(rest.subrange(0, k) =~= s@.subrange(a as int, b as int));
    }
    s.substring_char(a, b)
}

// ---------------------------------------------------------------------------
// Reading parameters
// ---------------------------------------------------------------------------

/// The text of the string parameter `key`, if it is one.
pub open spec fn text_param(p: Params, key: Seq<char>) -> Option<Seq<char>> {
    match lookup(p.entries@, key) {
        Some(ParamValue::Text(t)) => Some(t@),
        _ => None,
    }
}

/// The string parameter `key`, trimmed, where it is a string that is not
/// blank.
pub open spec fn present_text(p: Params, key: Seq<char>) -> Option<Seq<char>> {
    match text_param(p, key) {
        Some(t) => if trimmed(t).len() > 0 {
            Some(trimmed(t))
        } else {
            None
        },
        None => None,
    }
}

/// `o`, or the empty text where it is absent.
pub open spec fn text_or_empty(o: Option<Seq<char>>) -> Seq<char> {
    match o {
        Some(t) => t,
        None => Seq::empty(),
    }
}

/// The server or channel that a command switches to first: the trimmed
/// parameter `key`, or none (empty).
pub open spec fn target_param(p: Params, key: Seq<char>) -> Seq<char> {
    text_or_empty(present_text(p, key))
}

/// The error for a missing required parameter.
pub open spec fn missing_param(key: Seq<char>) -> ErrorModel {
    ErrorModel::InvalidParams("`"@ + key + "` is required"@)
}

/// The value bound to `key`, if any.
pub fn find<'a>(params: &'a Params, key: &str) -> (r: Option<&'a ParamValue>)
    ensures
        match r {
            Some(v) => lookup(params.entries@, key@) == Some(*v),
            None => lookup(params.entries@, key@) is None,
        },
{
    let key_s = key.to_string();
    let mut i: usize = params.entries.len();
    assert(params.entries@.take(i as int) =~= params.entries@);
    while i > 0
        invariant
            i <= params.entries@.len(),
            key_s@ == key@,
            lookup(params.entries@, key@) == lookup(params.entries@.take(i as int), key@),
        decreases i,
    {
        let ghost prefix = params.entries@.take(i as int);
        assert(prefix.last() == params.entries@[i - 1]);
        assert(prefix.drop_last() =~= params.entries@.take(i - 1));
        if params.entries[i - 1].0 == key_s {
            return Some(&params.entries[i - 1].1);
        }
        i = i - 1;
    }
    None
}

/// The string parameter `key`, trimmed, unless it is absent, not a string, or
/// blank.
pub fn optional_string<'a>(params: &'a Params, key: &str) -> (r: Option<&'a str>)
    ensures
        match r {
            Some(s) => present_text(*params, key@) == Some(s@),
            None => present_text(*params, key@) is None,
        },
{
    match find(params, key) {
        Some(ParamValue::Text(t)) => {
            let s = trim(t.as_str());
            if s.unicode_len() > 0 {
                Some(s)
            } else {
                None
            }
        },
        _ => None,
    }
}

/// The string parameter `key`, trimmed; an error where it is absent, not a
/// string, or blank.
pub fn required_string<'a>(params: &'a Params, key: &str) -> (r: Result<&'a str, AppError>)
    ensures
        match r {
            Ok(s) => present_text(*params, key@) == Some(s@),
            Err(e) => present_text(*params, key@) is None && e@ == missing_param(key@),
        },
{
    match optional_string(params, key) {
        Some(s) => Ok(s),
        None => Err(AppError::InvalidParams(join3("`", key, "` is required"))),
    }
}

/// The integer parameter `key`, or `default` where it is absent or not a
/// non-negative integer.
pub fn optional_u64(params: &Params, key: &str, default: u64) -> (n: u64)
    ensures
        n == match lookup(params.entries@, key@) {
            Some(ParamValue::Unsigned(v)) => v,
            _ => default,
        },
{
    match find(params, key) {
        Some(ParamValue::Unsigned(v)) => *v,
        _ => default,
    }
}

} // verus!
