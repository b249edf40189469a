//! The client's settings that are checked before it starts.
use crate::text::{join_with, joined, same_text, str_views, to_owned_string};
use vstd::prelude::*;

verus! {

/// Where the settings are read from when no path is given.
pub fn default_config_path(debug_build: bool) -> (r: &'static str)
    ensures
        r@ == if debug_build {
            "config/development.yaml"@
        } else {
            "config/production.yaml"@
        },
{
    if debug_build {
        "config/development.yaml"
    } else {
        "config/production.yaml"
    }
}

/// The message for a locale that the client has no translations for.
pub open spec fn unsupported_locale_message(locale: Seq<char>, available: Seq<Seq<char>>) -> Seq<
    char,
> {
    "unsupported TUI locale '"@ + locale + "'; supported locales are: "@ + joined(available, ", "@)
}

/// Accepts a locale that is one of the available ones; otherwise names
/// it and lists them.
pub fn validate_locale(locale: &str, available: &[&str]) -> (r: Result<(), String>)
    ensures
        r is Ok <==> str_views(available@).contains(locale@),
        r matches Err(e) ==> e@ == unsupported_locale_message(locale@, str_views(available@)),
{
    let mut i: usize = 0;
    while i < available.len()
        invariant
            i <= available@.len(),
            forall|j: int| 0 <= j < i ==> available@[j]@ != locale@,
        decreases available.len() - i,
    {
        if same_text(available[i], locale) {
            assert(str_views(available@)[i as int] == locale@);
            return Ok(());
        }
        i = i + 1;
    }
    let list = join_with(available, ", ");
    let head = crate::text::join3("unsupported TUI locale '", locale, "'; supported locales are: ");
    Err(crate::text::join2(head.as_str(), list.as_str()))
}

} // verus!
