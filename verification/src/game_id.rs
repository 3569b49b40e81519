//! Generation of the random six-character game identifiers.
//!
//! An identifier is drawn character by character, uniformly from the
//! 36-symbol alphabet of ASCII capital letters and digits. No uniqueness
//! check is made against existing rows.

use vstd::prelude::*;

verus! {

/// How many symbols the identifier alphabet has: 26 letters and 10 digits.
pub const ALPHABET_SIZE: usize = 36;

/// Holds of the characters an identifier may contain: an ASCII capital
/// letter or an ASCII digit.
pub open spec fn is_game_id_char(c: char) -> bool {
    ||| 'A' <= c && c <= 'Z'
    ||| '0' <= c && c <= '9'
}

/// Holds of a well-formed game identifier: six characters, each from the
/// identifier alphabet.
pub open spec fn is_game_id(s: Seq<char>) -> bool {
    &&& s.len() == 6
    &&& forall|i: int| 0 <= i < s.len() ==> is_game_id_char(#[trigger] s[i])
}

/// The identifier alphabet, as a map from a position below 36 to its
/// character: first the letters `A` to `Z`, then the digits `0` to `9`.
pub open spec fn alphabet_char(i: int) -> char
    recommends
        0 <= i < 36,
{
    if i < 26 {
        (('A' as u32) + i) as char
    } else {
        (('0' as u32) + (i - 26)) as char
    }
}

/// Every character of the alphabet is a capital letter or a digit.
pub proof fn lemma_alphabet_char_valid(i: int)
    requires
        0 <= i < 36,
    ensures
        is_game_id_char(alphabet_char(i)),
{
}

/// Relies on `rand::rng` and `rand::RngExt::random_range`: the thread-local
/// generator draws uniformly from `0..bound`, a non-empty range, so the draw
/// lies below `bound`. Nothing more can be said of a random value.
#[verifier::external_body]
fn random_index(bound: usize) -> (r: usize)
    requires
        bound > 0,
    ensures
        r < bound,
{
    let mut generator = rand::rng();
    rand::RngExt::random_range(&mut generator, 0..bound)
}

/// Relies on `String::push`: appends exactly the given character.
#[verifier::external_body]
fn push_char(s: &mut String, c: char)
    ensures
        final(s)@ == old(s)@.push(c),
{
    s.push(c);
}

/// The character at a given position of the identifier alphabet.
fn charset_char(idx: usize) -> (c: char)
    requires
        idx < 36,
    ensures
        c == alphabet_char(idx as int),
{
    if idx < 26 {
        ((('A' as u32) + idx as u32) as u8) as char
    } else {
        ((('0' as u32) + (idx as u32 - 26)) as u8) as char
    }
}

/// Draws the requested number of characters independently and uniformly at
/// random from the identifier alphabet and concatenates them.
pub fn generate_random_string(length: usize) -> (r: String)
    ensures
        r@.len() == length,
        forall|i: int| 0 <= i < length ==> is_game_id_char(#[trigger] r@[i]),
{
    let mut s = String::new();
    let mut n: usize = 0;
    while n < length
        invariant
            n <= length,
            s@.len() == n,
            forall|i: int| 0 <= i < n ==> is_game_id_char(#[trigger] s@[i]),
        decreases length - n,
    {
        let idx = random_index(ALPHABET_SIZE);
        let c = charset_char(idx);
        proof {
            lemma_alphabet_char_valid(idx as int);
        }
        push_char(&mut s, c);
        n = n + 1;
    }
    s
}

} // verus!
