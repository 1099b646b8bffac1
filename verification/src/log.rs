//! The byte translation every serial logger owes its terminal: each line
//! feed goes out as carriage return plus line feed.
//!
//! The loggers themselves live with the architecture front ends; they push
//! the translated bytes into their UART.

use vstd::prelude::*;

verus! {

/// ASCII line feed.
pub const LF: u8 = 10;

/// ASCII carriage return.
pub const CR: u8 = 13;

/// `s` with a carriage return inserted before every line feed and all other
/// bytes unchanged.
pub open spec fn spec_crlf(s: Seq<u8>) -> Seq<u8>
    decreases s.len(),
{
    if s.len() == 0 {
        Seq::empty()
    } else {
        spec_crlf(s.drop_last()) + if s.last() == LF {
            seq![CR, LF]
        } else {
            seq![s.last()]
        }
    }
}

/// Translates `s` for a terminal: every line feed becomes carriage return
/// plus line feed.
pub fn crlf_encode(s: &[u8]) -> (out: Vec<u8>)
    ensures
        out@ == spec_crlf(s@),
    {
    let mut out: Vec<u8> = Vec::new();
    let mut i: usize = 0;
    while i < s.len()
        invariant
            i <= s@.len(),
            out@ == spec_crlf(s@.take(i as int)),
        decreases s@.len() - i,
    {
        let b = s[i];
        if b == LF {
            out.push(CR);
            out.push(LF);
        } else {
            out.push(b);
        }
        i = i + 1;
        proof {
            assert(s@.take(i as int).drop_last() =~= s@.take(i - 1));
            assert(s@.take(i as int).last() == s@[i - 1]);
            assert(out@ =~= spec_crlf(s@.take(i as int)));
        }
    }
    proof {
        assert(s@.take(s@.len() as int) =~= s@);
    }
    out
}

} // verus!
