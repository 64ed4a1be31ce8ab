//! The texts that a run writes: long enough to leave the page that holds
//! their row, and patterned so that a misplaced byte shows.

use vstd::prelude::*;
use crate::text::push_char;

verus! {

/// The number of letters that a cycling text runs through before it starts
/// over.
pub const CYCLE: usize = 24;

/// The letter at `offset` after `A`.
pub open spec fn letter(offset: int) -> char {
    ((0x41 + offset) as u8) as char
}

/// The text of `len` letters that runs through the first `CYCLE` letters of
/// the alphabet again and again.
pub open spec fn cycling(len: nat) -> Seq<char> {
    Seq::new(len, |i: int| letter(i % (CYCLE as int)))
}

/// The text of `len` letters that are all the letter at `offset` after `A`.
pub open spec fn repeated(len: nat, offset: int) -> Seq<char> {
    Seq::new(len, |i: int| letter(offset))
}

/// Builds the text of `len` letters that runs through the first `CYCLE`
/// letters of the alphabet again and again.
pub fn cycling_text(len: usize) -> (text: String)
    ensures
        text@ == cycling(len as nat),
{
    let mut text = String::new();
    let mut i: usize = 0;
    while i < len
        invariant
            i <= len,
            text@ == cycling(i as nat),
        decreases len - i,
    {
        let offset: u8 = (i % CYCLE) as u8;
        let c: char = (0x41u8 + offset) as char;
        push_char(&mut text, c);
        assert(text@ =~= cycling((i + 1) as nat));
        i = i + 1;
    }
    text
}

/// Builds the text of `len` letters that are all the letter at `offset` after
/// `A`. The letter must fit in one byte.
pub fn repeated_text(len: usize, offset: u8) -> (text: String)
    requires
        0x41 + offset <= 0xff,
    ensures
        text@ == repeated(len as nat, offset as int),
{
    let c: char = (0x41u8 + offset) as char;
    let mut text = String::new();
    let mut i: usize = 0;
    while i < len
        invariant
            i <= len,
            c == letter(offset as int),
            text@ == repeated(i as nat, offset as int),
        decreases len - i,
    {
        push_char(&mut text, c);
        assert(text@ =~= repeated((i + 1) as nat, offset as int));
        i = i + 1;
    }
    text
}

} // verus!
