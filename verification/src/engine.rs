//! The boundary to the regular-expression engine.
//!
//! Pattern syntax, matching and capture-group expansion are the engine's
//! business. This module gives names to what the engine answers and holds
//! the one call into it; nothing here is proved.

use vstd::prelude::*;

verus! {

/// The message with which `regex::Regex::new` turns `pattern` down, or
/// `None` where it accepts the pattern.
///
/// Compilation reads nothing but the pattern text, so its verdict is a
/// function of that text for a given build of the engine.
pub uninterp spec fn compile_failure(pattern: Seq<char>) -> Option<Seq<char>>;

/// The text that `regex::Regex::replace_all` returns for `text` and
/// `template` when called on the compiled form of `pattern`: `text` with
/// every non-overlapping match replaced by the expansion of `template`.
/// It is only meaningful for a pattern that compiles.
pub uninterp spec fn replace_all(pattern: Seq<char>, text: Seq<char>, template: Seq<char>) -> Seq<
    char,
>;

/// Compiles `pattern` with `regex::Regex::new` and, if that succeeds,
/// substitutes with `regex::Regex::replace_all`.
///
/// Trusted: the result is `Err` exactly when the engine rejects the
/// pattern, and then carries the engine's own message; otherwise it is the
/// engine's substitution result. Both are taken on faith as the named
/// functions of the arguments.
#[verifier::external_body]
pub(crate) fn substitute(pattern: &str, text: &str, template: &str) -> (result: Result<
    String,
    String,
>)
    ensures
        match result {
            Ok(out) => compile_failure(pattern@) is None && out@ == replace_all(
                pattern@,
                text@,
                template@,
            ),
            Err(detail) => compile_failure(pattern@) == Some(detail@),
        },
{
    match regex::Regex::new(pattern) {
        Ok(compiled) => Ok(compiled.replace_all(text, template).into_owned()),
        Err(error) => Err(error.to_string()),
    }
}

} // verus!
