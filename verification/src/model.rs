//! The mathematical model of a path buffer.
//!
//! A path is a sequence of bytes; `/` (byte 47) separates segments. The
//! functions here pin down the joining rule, the parent rule, the file-name
//! and extension rules, and the format-split rule that the executable code
//! in [`crate::buffer`] and [`crate::format`] is proved against.

use vstd::prelude::*;

verus! {

/// The path separator byte, `/`.
pub const SEP: u8 = 47;

/// The `.` byte, used by the extension rule.
pub const DOT: u8 = 46;

/// The joining rule: an absolute `seg` (one that starts with a separator)
/// replaces `base`; a relative `seg` is appended, with a separator in
/// between unless `base` is empty or already ends with one.
pub open spec fn spec_join(base: Seq<u8>, seg: Seq<u8>) -> Seq<u8> {
    if seg.len() > 0 && seg[0] == SEP {
        seg
    } else if base.len() == 0 || base[base.len() - 1] == SEP {
        base + seg
    } else {
        base + seq![SEP] + seg
    }
}

/// The start of the run of separator bytes that ends at `e`: scanning
/// backwards from `e`, skips separators and stops just after the first
/// non-separator byte, or at zero.
pub open spec fn skip_seps(s: Seq<u8>, e: int) -> int
    recommends
        0 <= e <= s.len(),
    decreases e,
{
    if e > 0 && s[e - 1] == SEP {
        skip_seps(s, e - 1)
    } else {
        e
    }
}

/// The start of the path component that ends at `e`: scanning backwards
/// from `e`, skips non-separator bytes and stops just after the first
/// separator byte, or at zero.
pub open spec fn skip_component(s: Seq<u8>, e: int) -> int
    recommends
        0 <= e <= s.len(),
    decreases e,
{
    if e > 0 && s[e - 1] != SEP {
        skip_component(s, e - 1)
    } else {
        e
    }
}

/// The parent rule: `None` if the buffer is empty or consists only of
/// separators (a root has no parent); otherwise the length of the buffer
/// after the final component and the separators before it are removed,
/// except that an absolute buffer keeps a single leading separator.
pub open spec fn spec_parent_len(s: Seq<u8>) -> Option<int> {
    let t = skip_seps(s, s.len() as int);
    if t == 0 {
        None
    } else {
        let i = skip_component(s, t);
        let j = skip_seps(s, i);
        if j == 0 && i > 0 {
            Some(1)
        } else {
            Some(j)
        }
    }
}

/// The final segment of `s`: the last component once trailing separators
/// are dropped. It exists unless the buffer is empty, is all separators,
/// or that component is `..`.
pub open spec fn spec_has_file_name(s: Seq<u8>) -> bool {
    let t = skip_seps(s, s.len() as int);
    t > 0 && s.subrange(skip_component(s, t), t) != seq![DOT, DOT]
}

/// The file-name rule: when a final segment exists it is removed (the
/// buffer is truncated to its parent) and `name` is joined on; otherwise
/// `name` is joined onto the buffer as it stands.
pub open spec fn spec_set_file_name(s: Seq<u8>, name: Seq<u8>) -> Seq<u8> {
    if spec_has_file_name(s) {
        spec_join(s.take(spec_parent_len(s)->Some_0), name)
    } else {
        spec_join(s, name)
    }
}

/// Index of the last `.` strictly inside `(i, e)`, if any: the split point
/// between the stem and the extension of the component `s[i .. e]`. A `.`
/// at position `i` itself does not count (a leading dot starts the stem).
pub open spec fn spec_last_dot(s: Seq<u8>, i: int, e: int) -> Option<int>
    recommends
        0 <= i <= e <= s.len(),
    decreases e - i,
{
    if e - 1 <= i {
        None
    } else if s[e - 1] == DOT {
        Some(e - 1)
    } else {
        spec_last_dot(s, i, e - 1)
    }
}

/// The extension rule: without a final segment the buffer is unchanged.
/// Otherwise the buffer is truncated to the end of that segment's stem,
/// and, when `ext` is non-empty, a `.` and `ext` are appended.
pub open spec fn spec_set_extension(s: Seq<u8>, ext: Seq<u8>) -> Seq<u8> {
    if !spec_has_file_name(s) {
        s
    } else {
        let t = skip_seps(s, s.len() as int);
        let i = skip_component(s, t);
        let stem_end = match spec_last_dot(s, i, t) {
            Some(d) => d,
            None => t,
        };
        if ext.len() == 0 {
            s.take(stem_end)
        } else {
            s.take(stem_end) + seq![DOT] + ext
        }
    }
}

/// The extend rule: each element of `segs` joined on in order.
pub open spec fn spec_extend(base: Seq<u8>, segs: Seq<Seq<u8>>) -> Seq<u8>
    decreases segs.len(),
{
    if segs.len() == 0 {
        base
    } else {
        spec_extend(spec_join(base, segs[0]), segs.drop_first())
    }
}

/// Flushing one split piece of a format string: an empty piece stands for
/// an explicit root marker `/`; a non-empty piece is joined as a segment.
pub open spec fn spec_fmt_flush(buf: Seq<u8>, cur: Seq<u8>) -> Seq<u8> {
    if cur.len() == 0 {
        spec_join(buf, seq![SEP])
    } else {
        spec_join(buf, cur)
    }
}

/// One byte-at-a-time pass of the format-split rule: `cur` is the piece
/// read so far, `s` the input still to read. A separator ends the current
/// piece; the end of the input flushes the last piece.
pub open spec fn spec_fmt_step(buf: Seq<u8>, cur: Seq<u8>, s: Seq<u8>) -> Seq<u8>
    decreases s.len(),
{
    if s.len() == 0 {
        spec_fmt_flush(buf, cur)
    } else if s[0] == SEP {
        spec_fmt_step(spec_fmt_flush(buf, cur), Seq::empty(), s.drop_first())
    } else {
        spec_fmt_step(buf, cur.push(s[0]), s.drop_first())
    }
}

/// The format-split rule: split the rendered string on `/` and join each
/// piece onto an empty buffer, an empty piece standing for the root marker.
pub open spec fn spec_fmt(s: Seq<u8>) -> Seq<u8> {
    spec_fmt_step(Seq::empty(), Seq::empty(), s)
}

/// The display rendering of a buffer, as bytes: the contents when they
/// are valid UTF-8 text, the empty string otherwise.
pub open spec fn spec_display_bytes(s: Seq<u8>) -> Seq<u8> {
    if vstd::utf8::valid_utf8(s) {
        s
    } else {
        Seq::empty()
    }
}

/// The serialized rendering of a buffer: its bytes, verbatim.
pub open spec fn spec_serialize(s: Seq<u8>) -> Seq<u8> {
    s
}

/// The buffer a serialized rendering reconstructs: its bytes, verbatim.
pub open spec fn spec_deserialize(s: Seq<u8>) -> Seq<u8> {
    s
}

/// The separator scan never goes below zero, never advances, and stops
/// either at zero or just after a non-separator byte.
pub proof fn lemma_skip_seps_bounds(s: Seq<u8>, e: int)
    requires
        0 <= e,
    ensures
        0 <= skip_seps(s, e) <= e,
        skip_seps(s, e) == 0 || s[skip_seps(s, e) - 1] != SEP,
    decreases e,
{
    if e > 0 && s[e - 1] == SEP {
        lemma_skip_seps_bounds(s, e - 1);
    }
}

/// The component scan never goes below zero, never advances, and stops
/// either at zero or just after a separator byte.
pub proof fn lemma_skip_component_bounds(s: Seq<u8>, e: int)
    requires
        0 <= e,
    ensures
        0 <= skip_component(s, e) <= e,
        skip_component(s, e) == 0 || s[skip_component(s, e) - 1] == SEP,
    decreases e,
{
    if e > 0 && s[e - 1] != SEP {
        lemma_skip_component_bounds(s, e - 1);
    }
}

} // verus!
