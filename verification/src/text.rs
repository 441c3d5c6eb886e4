//! Permissive decoding of the fixed-size text slots.
//!
//! A slot is read byte by byte. The text ends in front of the first NUL, or
//! with the slot where there is none. A byte below 0x80 is the ASCII
//! character of that code; any other byte is not valid text and is replaced
//! by U+FFFD, one marker per byte. Decoding never fails.

use vstd::prelude::*;

verus! {

/// The marker that stands in for a byte that is not valid text.
pub const REPLACEMENT: char = '\u{FFFD}';

/// The character that one byte of text decodes to.
pub open spec fn unit_char(b: u8) -> char {
    if b < 0x80 {
        b as char
    } else {
        '\u{FFFD}'
    }
}

/// The number of bytes in front of the first NUL of `slot`, or the length of
/// `slot` where it holds no NUL.
pub open spec fn text_len(slot: Seq<u8>) -> nat
    decreases slot.len(),
{
    if slot.len() == 0 || slot[0] == 0 {
        0
    } else {
        1 + text_len(slot.drop_first())
    }
}

/// The text that a slot holds.
pub open spec fn text_of(slot: Seq<u8>) -> Seq<char> {
    slot.take(text_len(slot) as int).map_values(|b: u8| unit_char(b))
}

/// `text_len` is the one index that has no NUL in front of it and either a
/// NUL at it or the end of the slot.
pub proof fn lemma_text_len_is(slot: Seq<u8>, n: int)
    requires
        0 <= n <= slot.len(),
        forall|j: int| 0 <= j < n ==> slot[j] != 0,
        n == slot.len() || slot[n] == 0,
    ensures
        text_len(slot) == n,
    decreases n,
{
    if n > 0 {
        let rest = slot.drop_first();
        assert forall|j: int| 0 <= j < n - 1 implies rest[j] != 0 by {
            assert(rest[j] == slot[j + 1]);
        }
        lemma_text_len_is(rest, n - 1);
    }
}

/// A slot without a NUL decodes to a text as long as the slot, character by
/// character.
pub proof fn lemma_text_without_terminator(slot: Seq<u8>)
    requires
        forall|j: int| 0 <= j < slot.len() ==> slot[j] != 0,
    ensures
        text_of(slot).len() == slot.len(),
        forall|j: int| 0 <= j < slot.len() ==> text_of(slot)[j] == unit_char(slot[j]),
        text_of(slot) == slot.map_values(|b: u8| unit_char(b)),
{
    lemma_text_len_is(slot, slot.len() as int);
    assert(slot.take(slot.len() as int) =~= slot);
}

/// A text never holds a NUL and is never longer than its slot.
pub proof fn lemma_text_bounds(slot: Seq<u8>)
    ensures
        text_len(slot) <= slot.len(),
        text_of(slot).len() == text_len(slot),
        forall|j: int| 0 <= j < text_len(slot) ==> slot[j] != 0,
        text_len(slot) < slot.len() ==> slot[text_len(slot) as int] == 0,
    decreases slot.len(),
{
    if slot.len() == 0 || slot[0] == 0 {
    } else {
        let rest = slot.drop_first();
        lemma_text_bounds(rest);
        assert forall|j: int| 0 <= j < text_len(slot) implies slot[j] != 0 by {
            if j > 0 {
                assert(rest[j - 1] == slot[j]);
            }
        }
    }
}

/// Appends one character to a string. Rests on `String::push` of std, which
/// is documented to append the given character to the end of the string.
#[verifier::external_body]
fn push_char(s: &mut String, c: char)
    ensures
        final(s)@ == old(s)@.push(c),
{
    s.push(c);
}

/// Decodes the text of a slot: the bytes in front of the first NUL, each as
/// `unit_char` has it.
pub fn decode_text(slot: &[u8]) -> (text: String)
    ensures
        text@ == text_of(slot@),
        text@.len() == text_len(slot@) <= slot@.len(),
{
    let mut text = String::new();
    let mut i: usize = 0;
    while i < slot.len() && slot[i] != 0
        invariant
            i <= slot@.len(),
            forall|j: int| 0 <= j < i ==> slot@[j] != 0,
            text@ == slot@.take(i as int).map_values(|b: u8| unit_char(b)),
        decreases slot@.len() - i,
    {
        let b: u8 = slot[i];
        let c: char = if b < 0x80 {
            b as char
        } else {
            REPLACEMENT
        };
        push_char(&mut text, c);
        assert(text@ =~= slot@.take(i + 1).map_values(|b: u8| unit_char(b)));
        i += 1;
    }
    proof {
        lemma_text_len_is(slot@, i as int);
        lemma_text_bounds(slot@);
    }
    text
}

} // verus!
