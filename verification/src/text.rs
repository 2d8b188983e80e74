//! Text helpers: comparison of string slices and the debug rendering of
//! optional strings.

use vstd::prelude::*;

verus! {

/// The text that `{:?}` formatting produces for a string: the string between
/// double quotes, with the characters that `str`'s `Debug` impl escapes
/// written as escape sequences.
pub uninterp spec fn debug_text(s: Seq<char>) -> Seq<char>;

/// The text that `{:?}` formatting produces for an optional string, given the
/// rendering of the string inside.
pub open spec fn option_text(rendered: Option<Seq<char>>) -> Seq<char> {
    match rendered {
        Some(quoted) => "Some("@ + quoted + ")"@,
        None => "None"@,
    }
}

/// The text that `{:?}` formatting produces for an optional string.
pub open spec fn debug_option_text(value: Option<Seq<char>>) -> Seq<char> {
    match value {
        Some(s) => option_text(Some(debug_text(s))),
        None => option_text(None),
    }
}

/// `<str as PartialEq>::eq` of the standard library: two string slices are
/// equal exactly when they hold the same characters.
pub assume_specification[ <str as PartialEq>::eq ](a: &str, b: &str) -> (r: bool)
    ensures
        r == (a@ == b@),
;

/// `format!("{:?}", s)` of the standard library, for a string slice. The
/// result is named, not described: it depends on `s` alone.
#[verifier::external_body]
fn debug_str(s: &str) -> (r: String)
    ensures
        r@ == debug_text(s@),
{
    format!("{:?}", s)
}

/// Joins `prefix` and `rest` into one owned string.
pub fn joined(prefix: &str, rest: &str) -> (r: String)
    ensures
        r@ == prefix@ + rest@,
{
    let mut out = prefix.to_owned();
    out.append(rest);
    out
}

/// Renders an optional string whose contents have already been rendered:
/// `Some(..)` around the rendering, or `None`.
pub fn render_option(rendered: Option<&str>) -> (r: String)
    ensures
        r@ == option_text(
            match rendered {
                Some(q) => Some(q@),
                None => None,
            },
        ),
{
    match rendered {
        Some(quoted) => {
            let mut out = joined("Some(", quoted);
            out.append(")");
            out
        },
        None => "None".to_owned(),
    }
}

/// Renders an optional string as `{:?}` formatting does.
pub fn debug_option(value: &Option<String>) -> (r: String)
    ensures
        r@ == debug_option_text(value.deep_view()),
{
    match value {
        Some(s) => {
            let quoted = debug_str(s.as_str());
            render_option(Some(quoted.as_str()))
        },
        None => render_option(None),
    }
}

} // verus!
