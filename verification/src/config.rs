//! The text forms of configured values: a sequence of matrix codes is
//! written as its numbers, separated by white space, with brackets and commas
//! thrown in as one likes.

use crate::text::{nats, numbers_in, parse_numbers};
use vstd::prelude::*;

verus! {

/// The sequence of codes that a text stands for: its numbers, if every
/// word of it is a number from 0 to 255 once brackets and commas are taken
/// out.
pub open spec fn sequence_of(text: Seq<char>) -> Option<Seq<u8>> {
    match numbers_in(text, true, 255) {
        Some(numbers) => Some(numbers.map_values(|n: nat| n as u8)),
        None => None,
    }
}

/// Reads a sequence of codes from its text. Brackets and commas are passed
/// over, white space parts the numbers. A text with a word in it that is no
/// number from 0 to 255 stands for no sequence.
pub fn parse_sequence(text: &str) -> (sequence: Option<Vec<u8>>)
    ensures
        sequence is Some <==> sequence_of(text@) is Some,
        sequence matches Some(codes) ==> codes@ == sequence_of(text@)->0,
{
    match parse_numbers(text, true, 255) {
        None => None,
        Some(numbers) => {
            let ghost wanted = numbers_in(text@, true, 255)->0;
            // every number is at most 255, as each stands for a word that is one
            assert forall|k: int| 0 <= k < numbers.len() implies numbers[k] <= 255 by {
                assert(nats(numbers@)[k] == wanted[k]);
            }
            let mut codes: Vec<u8> = Vec::new();
            let mut i: usize = 0;
            while i < numbers.len()
                invariant
                    i <= numbers.len(),
                    forall|k: int| 0 <= k < numbers.len() ==> numbers[k] <= 255,
                    codes.len() == i,
                    forall|k: int| 0 <= k < i ==> codes[k] == numbers[k],
                decreases numbers.len() - i,
            {
                codes.push(numbers[i] as u8);
                i = i + 1;
            }
            assert(codes@ =~= wanted.map_values(|n: nat| n as u8)) by {
                assert forall|k: int| 0 <= k < codes.len() implies codes@[k] == wanted.map_values(
                    |n: nat| n as u8,
                )[k] by {
                    assert(nats(numbers@)[k] == wanted[k]);
                }
            }
            Some(codes)
        },
    }
}

} // verus!
