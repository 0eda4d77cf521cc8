//! The owned path buffer and its verified operations.
//!
//! [`PathBufD`] stores a path as an owned byte buffer. Each mutator's
//! contract pins the new contents down through the spec functions of
//! [`crate::model`]; capacity management delegates to the underlying
//! vector and never changes the contents.

use vstd::prelude::*;

use crate::model::{
    spec_deserialize, spec_extend, spec_has_file_name, spec_join, spec_parent_len, spec_serialize,
    spec_display_bytes, spec_set_extension, spec_set_file_name, skip_component, skip_seps,
    spec_last_dot, DOT, SEP,
};
use vstd::string::StringSliceAdditionalSpecFns;

verus! {

use std::collections::TryReserveError;

/// A capacity request the allocator could not satisfy; returned by the
/// `try_reserve` family instead of aborting the process.
#[derive(Clone, Copy, Debug, PartialEq, Eq, Structural)]
pub struct CapacityError;

/// An owned, growable path buffer: a sequence of bytes in which `/`
/// separates segments. Its view is that byte sequence.
#[derive(Clone, Debug)]
pub struct PathBufD {
    inner: Vec<u8>,
}

impl View for PathBufD {
    type V = Seq<u8>;

    closed spec fn view(&self) -> Seq<u8> {
        self.inner@
    }
}

/// Relies on `Vec::capacity`: the number of elements the vector can hold
/// without reallocating, which is never less than its length.
#[verifier::external_body]
fn vec_capacity(v: &Vec<u8>) -> (r: usize)
    ensures
        r >= v@.len(),
{
    v.capacity()
}

/// Relies on `Vec::reserve_exact`: reserves capacity for at least
/// `additional` more elements without changing the contents. It panics
/// only when the new capacity would exceed `isize::MAX` bytes, which the
/// precondition rules out.
#[verifier::external_body]
fn vec_reserve_exact(v: &mut Vec<u8>, additional: usize)
    requires
        old(v)@.len() + additional <= isize::MAX,
    ensures
        final(v)@ == old(v)@,
{
    v.reserve_exact(additional)
}

/// Relies on `Vec::try_reserve`: attempts to reserve capacity for
/// `additional` more elements, returning an error instead of aborting when
/// the request cannot be satisfied. A request whose total exceeds
/// `isize::MAX` bytes always fails; when no growth is needed it does
/// nothing and succeeds; the contents are unchanged either way.
#[verifier::external_body]
fn vec_try_reserve(v: &mut Vec<u8>, additional: usize) -> (r: Result<
    (),
    TryReserveError,
>)
    ensures
        final(v)@ == old(v)@,
        old(v)@.len() + additional > isize::MAX ==> r is Err,
        additional == 0 ==> r is Ok,
{
    v.try_reserve(additional)
}

/// Relies on `Vec::try_reserve_exact`: attempts to reserve capacity for
/// `additional` more elements, returning an error instead of aborting when
/// the request cannot be satisfied. A request whose total exceeds
/// `isize::MAX` bytes always fails; when no growth is needed it does
/// nothing and succeeds; the contents are unchanged either way.
#[verifier::external_body]
fn vec_try_reserve_exact(v: &mut Vec<u8>, additional: usize) -> (r: Result<
    (),
    TryReserveError,
>)
    ensures
        final(v)@ == old(v)@,
        old(v)@.len() + additional > isize::MAX ==> r is Err,
        additional == 0 ==> r is Ok,
{
    v.try_reserve_exact(additional)
}

/// Relies on `Vec::shrink_to_fit`: may release spare capacity; the
/// contents are unchanged.
#[verifier::external_body]
fn vec_shrink_to_fit(v: &mut Vec<u8>)
    ensures
        final(v)@ == old(v)@,
{
    v.shrink_to_fit()
}

/// Relies on `Vec::shrink_to`: may release spare capacity down to the
/// given lower bound; the contents are unchanged.
#[verifier::external_body]
fn vec_shrink_to(v: &mut Vec<u8>, min_capacity: usize)
    ensures
        final(v)@ == old(v)@,
{
    v.shrink_to(min_capacity)
}

/// Relies on `Vec::into_boxed_slice`: the boxed slice holds exactly the
/// vector's elements.
#[verifier::external_body]
fn vec_into_boxed_slice(v: Vec<u8>) -> (r: Box<[u8]>)
    ensures
        r@ == v@,
{
    v.into_boxed_slice()
}

/// Relies on `str::from_utf8`: it returns `Ok` exactly when the bytes
/// are valid UTF-8.
#[verifier::external_body]
fn is_valid_utf8(b: &[u8]) -> (r: bool)
    ensures
        r == vstd::utf8::valid_utf8(b@),
{
    std::str::from_utf8(b).is_ok()
}

/// Appends every byte of `b` to `v`, in order.
fn append_bytes(v: &mut Vec<u8>, b: &[u8])
    ensures
        final(v)@ == old(v)@ + b@,
{
    let mut k: usize = 0;
    proof {
        assert(old(v)@ + b@.take(0) =~= old(v)@);
    }
    while k < b.len()
        invariant
            k <= b@.len(),
            v@ == old(v)@ + b@.take(k as int),
        decreases b@.len() - k,
    {
        v.push(b[k]);
        proof {
            assert((old(v)@ + b@.take(k as int)).push(b@[k as int]) =~= old(v)@ + b@.take(
                k as int + 1,
            ));
        }
        k += 1;
    }
    proof {
        assert(old(v)@ + b@.take(b@.len() as int) =~= old(v)@ + b@);
    }
}

/// Returns a fresh vector holding the same bytes as `v`.
fn copy_bytes(v: &Vec<u8>) -> (r: Vec<u8>)
    ensures
        r@ == v@,
{
    let mut r: Vec<u8> = Vec::new();
    append_bytes(&mut r, v.as_slice());
    proof {
        assert(Seq::<u8>::empty() + v@ =~= v@);
    }
    r
}

impl PathBufD {
    /// Creates an empty buffer.
    pub fn new() -> (r: Self)
        ensures
            r@ == Seq::<u8>::empty(),
    {
        PathBufD { inner: Vec::new() }
    }

    /// Creates an empty buffer whose storage is pre-reserved for at least
    /// `capacity` bytes.
    pub fn with_capacity(capacity: usize) -> (r: Self)
        ensures
            r@ == Seq::<u8>::empty(),
    {
        PathBufD { inner: Vec::with_capacity(capacity) }
    }

    /// Borrows the buffer's contents as a path slice.
    pub fn as_path(&self) -> (r: &[u8])
        ensures
            r@ == self@,
    {
        self.inner.as_slice()
    }

    /// Returns the buffer's display-string rendering as an owned byte
    /// sequence; content that is not valid UTF-8 renders as the empty
    /// string.
    pub fn as_bytes(&self) -> (r: Vec<u8>)
        ensures
            r@ == spec_display_bytes(self@),
    {
        if is_valid_utf8(self.inner.as_slice()) {
            copy_bytes(&self.inner)
        } else {
            Vec::new()
        }
    }

    /// Joins `b` onto the buffer in place, by the joining rule.
    pub(crate) fn push_bytes(&mut self, b: &[u8])
        ensures
            final(self)@ == spec_join(old(self)@, b@),
    {
        if b.len() > 0 && b[0] == SEP {
            self.inner.clear();
            append_bytes(&mut self.inner, b);
            proof {
                assert(Seq::<u8>::empty() + b@ =~= b@);
            }
        } else {
            if self.inner.len() > 0 && self.inner[self.inner.len() - 1] != SEP {
                self.inner.push(SEP);
                proof {
                    assert(old(self)@.push(SEP) =~= old(self)@ + seq![SEP]);
                }
            }
            append_bytes(&mut self.inner, b);
        }
    }

    /// Appends `path` by the joining rule: an absolute `path` replaces
    /// the buffer, a relative one is appended with an implied separator.
    pub fn push(&mut self, path: &str)
        ensures
            final(self)@ == spec_join(old(self)@, path.spec_bytes()),
    {
        self.push_bytes(path.as_bytes())
    }

    /// Returns a new buffer with `path` joined onto `self`, leaving
    /// `self` untouched.
    pub fn join(&self, path: &str) -> (r: Self)
        ensures
            r@ == spec_join(self@, path.spec_bytes()),
    {
        let mut r = PathBufD { inner: copy_bytes(&self.inner) };
        r.push(path);
        r
    }

    /// Truncates the buffer to its parent. Returns `false` and leaves the
    /// buffer unchanged when no parent exists (the buffer is empty or a
    /// bare root); otherwise returns `true`.
    pub fn pop(&mut self) -> (r: bool)
        ensures
            spec_parent_len(old(self)@) is None ==> r == false && final(self)@ == old(self)@,
            spec_parent_len(old(self)@) matches Some(n) ==> r == true && final(self)@ == old(self)@.take(
                n,
            ),
    {
        let ghost s = self.inner@;
        let n = self.inner.len();
        let mut t: usize = n;
        while t > 0 && self.inner[t - 1] == SEP
            invariant
                t <= n,
                n == self.inner@.len(),
                self.inner@ == s,
                skip_seps(s, n as int) == skip_seps(s, t as int),
            decreases t,
        {
            t -= 1;
        }
        if t == 0 {
            return false;
        }
        let mut i: usize = t;
        while i > 0 && self.inner[i - 1] != SEP
            invariant
                i <= t,
                t <= n,
                n == self.inner@.len(),
                self.inner@ == s,
                skip_component(s, t as int) == skip_component(s, i as int),
            decreases i,
        {
            i -= 1;
        }
        let mut j: usize = i;
        while j > 0 && self.inner[j - 1] == SEP
            invariant
                j <= i,
                i <= n,
                n == self.inner@.len(),
                self.inner@ == s,
                skip_seps(s, i as int) == skip_seps(s, j as int),
            decreases j,
        {
            j -= 1;
        }
        let plen: usize = if j == 0 && i > 0 {
            1
        } else {
            j
        };
        self.inner.truncate(plen);
        proof {
            assert(spec_parent_len(s) == Some(plen as int));
            assert(s.subrange(0, plen as int) =~= s.take(plen as int));
        }
        true
    }

    /// The bounds of the final component: `r.1` is the buffer's length
    /// with trailing separators dropped, `r.0` the start of the component
    /// that ends there.
    fn file_name_bounds(&self) -> (r: (usize, usize))
        ensures
            r.1 as int == skip_seps(self@, self@.len() as int),
            r.0 as int == skip_component(self@, r.1 as int),
            r.0 <= r.1 <= self@.len(),
    {
        let ghost s = self.inner@;
        let n = self.inner.len();
        let mut t: usize = n;
        while t > 0 && self.inner[t - 1] == SEP
            invariant
                t <= n,
                n == self.inner@.len(),
                self.inner@ == s,
                skip_seps(s, n as int) == skip_seps(s, t as int),
            decreases t,
        {
            t -= 1;
        }
        let mut i: usize = t;
        while i > 0 && self.inner[i - 1] != SEP
            invariant
                i <= t,
                t <= n,
                n == self.inner@.len(),
                self.inner@ == s,
                skip_component(s, t as int) == skip_component(s, i as int),
            decreases i,
        {
            i -= 1;
        }
        (i, t)
    }

    /// Whether the buffer has a final segment: it is not empty, not all
    /// separators, and the last component is not `..`.
    fn has_file_name(&self) -> (r: bool)
        ensures
            r == spec_has_file_name(self@),
    {
        let ghost s = self.inner@;
        let (i, t) = self.file_name_bounds();
        if t == 0 {
            return false;
        }
        let is_dotdot = t - i == 2 && self.inner[i] == DOT && self.inner[i + 1] == DOT;
        proof {
            let comp = s.subrange(i as int, t as int);
            if t - i == 2 && s[i as int] == DOT && s[i as int + 1] == DOT {
                assert(comp =~= seq![DOT, DOT]);
            } else {
                if comp == seq![DOT, DOT] {
                    assert(comp.len() == 2);
                    assert(comp[0] == DOT);
                    assert(comp[1] == DOT);
                    assert(false);
                }
            }
        }
        !is_dotdot
    }

    /// Replaces the final segment with `name`; when the buffer has no
    /// final segment, `name` is joined onto the buffer as it stands.
    pub fn set_file_name(&mut self, name: &str)
        ensures
            final(self)@ == spec_set_file_name(old(self)@, name.spec_bytes()),
    {
        if self.has_file_name() {
            let _ = self.pop();
            self.push(name);
        } else {
            self.push(name);
        }
    }

    /// Replaces the extension of the final segment with `ext`, removing
    /// any extension when `ext` is empty; without a final segment the
    /// buffer is unchanged.
    pub fn set_extension(&mut self, ext: &str)
        ensures
            final(self)@ == spec_set_extension(old(self)@, ext.spec_bytes()),
    {
        if !self.has_file_name() {
            return;
        }
        let ghost s = self.inner@;
        let (i, t) = self.file_name_bounds();
        let mut e: usize = t;
        while e - i > 1 && self.inner[e - 1] != DOT
            invariant
                i <= e,
                e <= t,
                t <= self.inner@.len(),
                self.inner@ == s,
                spec_last_dot(s, i as int, t as int) == spec_last_dot(s, i as int, e as int),
            decreases e,
        {
            e -= 1;
        }
        let stem_end: usize = if e - i > 1 {
            e - 1
        } else {
            t
        };
        self.inner.truncate(stem_end);
        proof {
            assert(s.subrange(0, stem_end as int) =~= s.take(stem_end as int));
        }
        let eb = ext.as_bytes();
        if eb.len() > 0 {
            self.inner.push(DOT);
            append_bytes(&mut self.inner, eb);
            proof {
                assert(s.take(stem_end as int).push(DOT) + ext.spec_bytes() =~= s.take(
                    stem_end as int,
                ) + seq![DOT] + ext.spec_bytes());
            }
        }
    }

    /// Consumes the buffer, yielding its internal byte storage.
    pub fn into_os_string(self) -> (r: Vec<u8>)
        ensures
            r@ == self@,
    {
        self.inner
    }

    /// Consumes the buffer, yielding its bytes as a boxed slice.
    pub fn into_boxed_path(self) -> (r: Box<[u8]>)
        ensures
            r@ == self@,
    {
        vec_into_boxed_slice(self.inner)
    }

    /// The allocated storage size in bytes; never less than the length of
    /// the contents.
    pub fn capacity(&self) -> (r: usize)
        ensures
            r >= self@.len(),
    {
        vec_capacity(&self.inner)
    }

    /// Empties the buffer.
    pub fn clear(&mut self)
        ensures
            final(self)@ == Seq::<u8>::empty(),
    {
        self.inner.clear()
    }

    /// Reserves storage for at least `additional` more bytes; the
    /// contents are unchanged.
    pub fn reserve(&mut self, additional: usize)
        ensures
            final(self)@ == old(self)@,
    {
        self.inner.reserve(additional)
    }

    /// Attempts to reserve storage for at least `additional` more bytes.
    /// A request whose total exceeds `isize::MAX` bytes fails; a request
    /// for no additional storage succeeds; the contents are unchanged
    /// whether or not the request succeeds.
    pub fn try_reserve(&mut self, additional: usize) -> (r: Result<(), CapacityError>)
        ensures
            final(self)@ == old(self)@,
            old(self)@.len() + additional > isize::MAX ==> r is Err,
            additional == 0 ==> r is Ok,
    {
        match vec_try_reserve(&mut self.inner, additional) {
            Ok(()) => Ok(()),
            Err(_) => Err(CapacityError),
        }
    }

    /// Reserves storage for exactly `additional` more bytes; the contents
    /// are unchanged.
    pub fn reserve_exact(&mut self, additional: usize)
        requires
            old(self)@.len() + additional <= isize::MAX,
        ensures
            final(self)@ == old(self)@,
    {
        vec_reserve_exact(&mut self.inner, additional)
    }

    /// Attempts to reserve storage for exactly `additional` more bytes.
    /// A request whose total exceeds `isize::MAX` bytes fails; a request
    /// for no additional storage succeeds; the contents are unchanged
    /// whether or not the request succeeds.
    pub fn try_reserve_exact(&mut self, additional: usize) -> (r: Result<(), CapacityError>)
        ensures
            final(self)@ == old(self)@,
            old(self)@.len() + additional > isize::MAX ==> r is Err,
            additional == 0 ==> r is Ok,
    {
        match vec_try_reserve_exact(&mut self.inner, additional) {
            Ok(()) => Ok(()),
            Err(_) => Err(CapacityError),
        }
    }

    /// May release spare storage; the contents are unchanged.
    pub fn shrink_to_fit(&mut self)
        ensures
            final(self)@ == old(self)@,
    {
        vec_shrink_to_fit(&mut self.inner)
    }

    /// May release spare storage down to `min_capacity`; the contents are
    /// unchanged.
    pub fn shrink_to(&mut self, min_capacity: usize)
        ensures
            final(self)@ == old(self)@,
    {
        vec_shrink_to(&mut self.inner, min_capacity)
    }

    /// Returns a buffer with every element of `paths` joined on in order,
    /// exactly as repeated `push` calls would.
    pub fn extend(self, paths: &[&str]) -> (r: Self)
        ensures
            r@ == spec_extend(self@, paths@.map_values(|p: &str| p.spec_bytes())),
    {
        let ghost orig = self@;
        let ghost segs = paths@.map_values(|p: &str| p.spec_bytes());
        let mut buf = self;
        let mut k: usize = 0;
        proof {
            assert(segs.skip(0) =~= segs);
        }
        while k < paths.len()
            invariant
                k <= segs.len(),
                segs.len() == paths@.len(),
                segs == paths@.map_values(|p: &str| p.spec_bytes()),
                spec_extend(buf@, segs.skip(k as int)) == spec_extend(orig, segs),
            decreases segs.len() - k,
        {
            buf.push(paths[k]);
            proof {
                assert(segs.skip(k as int).drop_first() =~= segs.skip(k as int + 1));
            }
            k += 1;
        }
        proof {
            assert(segs.skip(segs.len() as int) =~= Seq::<Seq<u8>>::empty());
        }
        buf
    }

    /// Renders the buffer for serialization: its bytes, verbatim.
    pub fn serialize(&self) -> (r: Vec<u8>)
        ensures
            r@ == spec_serialize(self@),
    {
        copy_bytes(&self.inner)
    }

    /// Reconstructs a buffer from a serialized rendering, byte-identical
    /// to the buffer that produced it.
    pub fn deserialize(bytes: &[u8]) -> (r: Self)
        ensures
            r@ == spec_deserialize(bytes@),
    {
        let mut inner: Vec<u8> = Vec::new();
        append_bytes(&mut inner, bytes);
        proof {
            assert(Seq::<u8>::empty() + bytes@ =~= bytes@);
        }
        PathBufD { inner }
    }
}

impl PartialEq for PathBufD {
    /// Structural equality: two buffers are equal exactly when they hold
    /// the same bytes.
    fn eq(&self, other: &PathBufD) -> (r: bool) {
        if self.inner.len() != other.inner.len() {
            return false;
        }
        let mut k: usize = 0;
        while k < self.inner.len()
            invariant
                k <= self@.len(),
                self@.len() == other@.len(),
                forall|m: int| 0 <= m < k ==> self@[m] == other@[m],
            decreases self@.len() - k,
        {
            if self.inner[k] != other.inner[k] {
                return false;
            }
            k += 1;
        }
        proof {
            assert(self@ =~= other@);
        }
        true
    }
}

impl vstd::std_specs::cmp::PartialEqSpecImpl for PathBufD {
    open spec fn obeys_eq_spec() -> bool {
        true
    }

    open spec fn eq_spec(&self, other: &PathBufD) -> bool {
        self@ == other@
    }
}

impl Default for PathBufD {
    /// The empty buffer.
    fn default() -> (r: Self)
        ensures
            r@ == Seq::<u8>::empty(),
    {
        PathBufD::new()
    }
}

} // verus!
