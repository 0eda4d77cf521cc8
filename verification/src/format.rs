//! Building a path buffer from a rendered format string.
//!
//! The input string is split on the literal `/` delimiter; each non-empty
//! piece is pushed as a segment, and each empty piece (a leading slash,
//! consecutive slashes, a trailing slash, or an entirely empty input)
//! pushes the root marker `/` instead.

use vstd::prelude::*;

use crate::buffer::PathBufD;
use crate::model::{spec_fmt, spec_fmt_flush, spec_fmt_step, SEP};
use vstd::string::StringSliceAdditionalSpecFns;

verus! {

/// Pushes one split piece onto `out`: the root marker for an empty piece,
/// the piece itself otherwise.
fn flush_piece(out: &mut PathBufD, cur: &Vec<u8>)
    ensures
        final(out)@ == spec_fmt_flush(old(out)@, cur@),
{
    if cur.len() == 0 {
        let mut root: Vec<u8> = Vec::new();
        root.push(SEP);
        proof {
            assert(root@ =~= seq![SEP]);
        }
        out.push_bytes(root.as_slice());
    } else {
        out.push_bytes(cur.as_slice());
    }
}

/// Builds a buffer from the rendered string `s` by splitting it on `/`
/// and pushing each piece in order, an empty piece standing for the root
/// marker.
pub fn pathbufd_fmt(s: &str) -> (r: PathBufD)
    ensures
        r@ == spec_fmt(s.spec_bytes()),
{
    let b = s.as_bytes();
    let mut out = PathBufD::new();
    let mut cur: Vec<u8> = Vec::new();
    let mut k: usize = 0;
    proof {
        assert(b@.skip(0) =~= b@);
    }
    while k < b.len()
        invariant
            k <= b@.len(),
            spec_fmt_step(out@, cur@, b@.skip(k as int)) == spec_fmt(b@),
        decreases b@.len() - k,
    {
        proof {
            assert(b@.skip(k as int)[0] == b@[k as int]);
            assert(b@.skip(k as int).drop_first() =~= b@.skip(k as int + 1));
        }
        let c = b[k];
        if c == SEP {
            flush_piece(&mut out, &cur);
            cur.clear();
        } else {
            cur.push(c);
        }
        k += 1;
    }
    proof {
        assert(b@.skip(b@.len() as int) =~= Seq::<u8>::empty());
    }
    flush_piece(&mut out, &cur);
    out
}

} // verus!
