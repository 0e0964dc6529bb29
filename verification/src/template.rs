//! Pre-processing of substitution templates.
//!
//! Before a template is handed to the regular-expression engine, every
//! two-character sequence backslash + `n` in it is turned into a line feed.
//! Nothing else is interpreted here: all other characters, lone backslashes
//! included, pass through untouched.

use vstd::prelude::*;

verus! {

/// Trusted specification of `String::push`, which the standard library
/// documents as appending the given character to the end of the string:
/// afterwards the string holds what it held before, followed by `ch`.
pub assume_specification[ String::push ](s: &mut String, ch: char)
    ensures
        final(s)@ == old(s)@.push(ch),
;

/// The template with every backslash + `n` pair replaced by a line feed,
/// pairs being found from left to right without overlap.
pub open spec fn expand_newlines(template: Seq<char>) -> Seq<char>
    decreases template.len(),
{
    if template.len() == 0 {
        Seq::empty()
    } else if template.len() >= 2 && template[0] == '\\' && template[1] == 'n' {
        seq!['\n'] + expand_newlines(template.skip(2))
    } else {
        seq![template[0]] + expand_newlines(template.skip(1))
    }
}

/// What is still to be expanded after `done` characters of `template` were
/// read, when `held` says that a backslash was read but not yet written.
spec fn pending_input(template: Seq<char>, done: int, held: bool) -> Seq<char> {
    if held {
        seq!['\\'] + template.skip(done)
    } else {
        template.skip(done)
    }
}

/// Turns every backslash + `n` pair of `template` into a line feed.
///
/// The template is read once, character by character. A backslash is held
/// back until the next character shows whether the two form a pair.
pub fn expand_template(template: &str) -> (out: String)
    ensures
        out@ == expand_newlines(template@),
{
    let mut out = String::new();
    let mut held = false;
    assert(template@.skip(0) =~= template@);
    for c in it: template.chars()
        invariant
            it.seq() == template@,
            out@ + expand_newlines(pending_input(template@, it.index(), held)) == expand_newlines(
                template@,
            ),
    {
        let ghost written = out@;
        let ghost before = pending_input(template@, it.index(), held);
        let ghost rest = template@.skip(it.index() + 1);
        assert(template@.skip(it.index()) =~= seq![c] + rest);
        if held {
            if c == 'n' {
                // The held backslash and this `n` are a pair.
                assert(before.skip(2) =~= rest);
                out.push('\n');
                held = false;
            } else if c == '\\' {
                // The held backslash stands alone; the new one is held.
                assert(before.skip(1) =~= seq!['\\'] + rest);
                out.push('\\');
            } else {
                // Neither the held backslash nor this character is special.
                assert(before.skip(1) =~= seq![c] + rest);
                assert((seq![c] + rest).skip(1) =~= rest);
                assert(expand_newlines(seq![c] + rest) == seq![c] + expand_newlines(rest));
                out.push('\\');
                out.push(c);
                held = false;
            }
        } else {
            if c == '\\' {
                held = true;
            } else {
                assert(before.skip(1) =~= rest);
                out.push(c);
            }
        }
        assert(out@ + expand_newlines(pending_input(template@, it.index() + 1, held)) =~= written
            + expand_newlines(before));
    }
    assert(template@.skip(template@.len() as int) =~= Seq::<char>::empty());
    if held {
        // The template ends in a backslash that found no partner.
        assert(seq!['\\'] + Seq::<char>::empty() =~= seq!['\\']);
        assert(expand_newlines(seq!['\\'].skip(1)) =~= Seq::<char>::empty());
        out.push('\\');
    }
    assert(out@ =~= expand_newlines(template@));
    out
}

} // verus!
