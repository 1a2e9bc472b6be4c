//! The scoreboard's text: the score rendered as decimal digits, so the shell
//! that owns the text widget only has to place the bytes.

use vstd::prelude::*;

verus! {

/// The decimal rendering of `n`, most significant digit first, as ASCII
/// bytes: one digit for a number below ten, else the rendering of the leading
/// digits followed by the last one.
pub open spec fn dec_string(n: nat) -> Seq<u8>
    decreases n,
{
    if n < 10 {
        seq![(n + 48) as u8]
    } else {
        dec_string(n / 10).push(((n % 10) + 48) as u8)
    }
}

/// The score as the ASCII text the scoreboard shows.
pub fn score_text(score: usize) -> (s: Vec<u8>)
    ensures
        s@ == dec_string(score as nat),
    decreases score,
{
    if score < 10 {
        let mut s: Vec<u8> = Vec::new();
        s.push((score as u8) + 48);
        s
    } else {
        proof {
            vstd::arithmetic::div_mod::lemma_div_is_strictly_smaller(score as int, 10);
        }
        let mut s = score_text(score / 10);
        s.push(((score % 10) as u8) + 48);
        s
    }
}

} // verus!
