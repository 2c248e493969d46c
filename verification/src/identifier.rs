//! ECMAScript identifier rules, as far as names in emitted code need them.
use vstd::prelude::*;
use vstd::string::*;
use crate::text::{chars_of, push_char};

verus! {

/// Whether `c` may begin an ECMAScript identifier.
pub uninterp spec fn js_identifier_start(c: char) -> bool;

/// Whether `c` may stand inside an ECMAScript identifier.
pub uninterp spec fn js_identifier_part(c: char) -> bool;

/// Whether `name` is a reserved word of ECMAScript or one of the value
/// properties of the global object (`undefined`, `NaN`, ...).
pub uninterp spec fn js_reserved_word(name: Seq<char>) -> bool;

/// An identifier name: not empty, a start character, then part characters.
pub open spec fn js_identifier_name(name: Seq<char>) -> bool {
    &&& name.len() > 0
    &&& js_identifier_start(name[0])
    &&& forall|i: int| 1 <= i < name.len() ==> js_identifier_part(#[trigger] name[i])
}

/// A name that may stand bare where a binding or a property is written.
pub open spec fn valid_assignee_name(name: Seq<char>) -> bool {
    js_identifier_name(name) && !js_reserved_word(name)
}

/// Whether the character at place `i` of a name may stay there.
pub open spec fn fits_at(i: int, c: char) -> bool {
    if i == 0 {
        js_identifier_start(c)
    } else {
        js_identifier_part(c)
    }
}

/// `name` with every character that may not stand at its place replaced by `_`.
pub open spec fn legitimized(name: Seq<char>) -> Seq<char> {
    Seq::new(name.len(), |i: int| if fits_at(i, name[i]) { name[i] } else { '_' })
}

/// Calls `oxc::syntax::identifier::is_identifier_start`, which decides from
/// the character alone (a table for ASCII, Unicode's ID_Start beyond it).
#[verifier::external_body]
fn is_identifier_start(c: char) -> (b: bool)
    ensures
        b == js_identifier_start(c),
{
    oxc::syntax::identifier::is_identifier_start(c)
}

/// Calls `oxc::syntax::identifier::is_identifier_part`, which decides from
/// the character alone (a table for ASCII, Unicode's ID_Continue and the two
/// joiners beyond it).
#[verifier::external_body]
fn is_identifier_part(c: char) -> (b: bool)
    ensures
        b == js_identifier_part(c),
{
    oxc::syntax::identifier::is_identifier_part(c)
}

/// Calls `oxc::syntax::identifier::is_identifier_name`. It rejects the empty
/// string, tests the first character as `is_identifier_start` does and every
/// later one as `is_identifier_part` does.
#[verifier::external_body]
fn is_identifier_name(name: &str) -> (b: bool)
    ensures
        b == js_identifier_name(name@),
{
    oxc::syntax::identifier::is_identifier_name(name)
}

/// Calls `oxc::syntax::keyword::is_reserved_keyword_or_global_object`, a
/// lookup of the text in two fixed sets of words.
#[verifier::external_body]
fn is_reserved_keyword_or_global_object(name: &str) -> (b: bool)
    ensures
        b == js_reserved_word(name@),
{
    oxc::syntax::keyword::is_reserved_keyword_or_global_object(name)
}

/// Whether `name` can be written bare as a binding or after a dot.
pub fn is_validate_assignee_identifier_name(name: &str) -> (b: bool)
    ensures
        b == valid_assignee_name(name@),
{
    is_identifier_name(name) && !is_reserved_keyword_or_global_object(name)
}

/// Turns any text into one that is shaped like an identifier, keeping its
/// length: a character that may not stand at its place becomes `_`.
pub fn legitimize_identifier_name(name: &str) -> (out: String)
    ensures
        out@ == legitimized(name@),
{
    let chars = chars_of(name);
    let mut out = String::new();
    let mut i: usize = 0;
    while i < chars.len()
        invariant
            i <= chars.len(),
            chars@ == name@,
            out@ == legitimized(name@).take(i as int),
        decreases chars.len() - i,
    {
        let c = chars[i];
        let keep = if i == 0 {
            is_identifier_start(c)
        } else {
            is_identifier_part(c)
        };
        if keep {
            push_char(&mut out, c);
        } else {
            push_char(&mut out, '_');
        }
        proof {
            assert(legitimized(name@).take(i + 1) =~= legitimized(name@).take(i as int).push(
                legitimized(name@)[i as int],
            ));
        }
        i += 1;
    }
    proof {
        assert(legitimized(name@).take(name@.len() as int) =~= legitimized(name@));
    }
    out
}

/// A legitimized name is as long as the text it was made from; a text that
/// is an identifier name is left as it is; and legitimizing once more
/// changes nothing.
pub proof fn lemma_legitimized_shape(name: Seq<char>)
    ensures
        legitimized(name).len() == name.len(),
        js_identifier_name(name) ==> legitimized(name) == name,
        legitimized(legitimized(name)) == legitimized(name),
{
    if js_identifier_name(name) {
        assert(legitimized(name) =~= name);
    }
    assert(legitimized(legitimized(name)) =~= legitimized(name));
}

} // verus!
