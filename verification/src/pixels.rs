//! Dual-type frame pixel buffer.
//!
//! Integer camera sources keep their pixels as `u16` all the way through
//! decode, statistics and colormapping; only the consumers that need floating
//! point pay for the widening. That halves the memory traffic and buffer size
//! against storing every integer frame widened.
//!
//! The floating-point type is the parameter `F`; the function that widens a
//! `u16` to it is handed in by the caller.

use std::sync::Arc;
use vstd::prelude::*;

verus! {

/// A frame's mono pixel buffer, either native `u16` (integer sources) or `F`
/// (float FITS and anything that has been background-subtracted, which can go
/// negative). Cheap to clone: both variants are shared.
pub enum Pixels<F> {
    U16(Arc<Vec<u16>>),
    F32(Arc<Vec<F>>),
}

/// Calls [`Arc::make_mut`]: a mutable reference to the shared buffer, which is
/// first copied if it is shared. The buffer behind the reference is the same
/// one that `a` holds from then on.
#[verifier::external_body]
fn make_mut<F: Copy>(a: &mut Arc<Vec<F>>) -> (r: &mut Vec<F>)
    ensures
        r@ == old(a)@,
        final(a)@ == final(r)@,
{
    Arc::make_mut(a)
}

/// Calls [`Arc::into_inner`]: the buffer itself if nobody else shares it. Who
/// shares it is left unsaid; what comes out is what the buffer held.
#[verifier::external_body]
fn into_inner(a: Arc<Vec<u16>>) -> (r: Option<Vec<u16>>)
    ensures
        r matches Some(v) ==> v@ == a@,
{
    Arc::into_inner(a)
}

/// Is `out` a widening of `v` by `widen`, pixel by pixel?
pub open spec fn widened<F, W: Fn(u16) -> F>(v: Seq<u16>, widen: W, out: Seq<F>) -> bool {
    out.len() == v.len() && forall|i: int|
        0 <= i < v.len() ==> call_ensures(widen, (v[i],), #[trigger] out[i])
}

fn widen_all<F, W: Fn(u16) -> F>(v: &Vec<u16>, widen: &W) -> (r: Vec<F>)
    requires
        forall|x: u16| call_requires(*widen, (x,)),
    ensures
        widened(v@, *widen, r@),
{
    let mut out: Vec<F> = Vec::new();
    for i in 0..v.len()
        invariant
            forall|x: u16| call_requires(*widen, (x,)),
            out.len() == i,
            forall|j: int| 0 <= j < i ==> call_ensures(*widen, (v@[j],), #[trigger] out@[j]),
    {
        let x: F = widen(v[i]);
        out.push(x);
    }
    out
}

fn copy_all<F: Copy>(v: &Vec<F>) -> (r: Vec<F>)
    ensures
        r@ == v@,
{
    let mut out: Vec<F> = Vec::new();
    for i in 0..v.len()
        invariant
            out@ == v@.take(i as int),
    {
        out.push(v[i]);
        assert(out@ =~= v@.take(i as int + 1));
    }
    assert(v@.take(v@.len() as int) =~= v@);
    out
}

impl<F: Copy> Pixels<F> {
    /// How many pixels there are.
    pub open spec fn count(&self) -> nat {
        match self {
            Pixels::U16(v) => v@.len(),
            Pixels::F32(v) => v@.len(),
        }
    }

    /// Is `out` the pixels as `F`: those of a float buffer, the widened ones
    /// of an integer buffer?
    pub open spec fn is_f32<W: Fn(u16) -> F>(&self, widen: W, out: Seq<F>) -> bool {
        match self {
            Pixels::U16(v) => widened(v@, widen, out),
            Pixels::F32(v) => out == v@,
        }
    }

    pub fn len(&self) -> (r: usize)
        ensures
            r as nat == self.count(),
    {
        match self {
            Pixels::U16(v) => v.len(),
            Pixels::F32(v) => v.len(),
        }
    }

    pub fn is_empty(&self) -> (r: bool)
        ensures
            r == (self.count() == 0),
    {
        self.len() == 0
    }

    /// The pixels as `F`, copied out of the buffer.
    pub fn as_f32<W: Fn(u16) -> F>(&self, widen: W) -> (r: Vec<F>)
        requires
            forall|x: u16| call_requires(widen, (x,)),
        ensures
            self.is_f32(widen, r@),
    {
        match self {
            Pixels::F32(v) => copy_all(v),
            Pixels::U16(v) => widen_all(v, &widen),
        }
    }

    /// A shared buffer of the pixels as `F`, for consumers that must own them
    /// across a thread boundary. Shares the buffer when it already is `F32`;
    /// allocates a widened copy for `U16`.
    pub fn to_f32_arc<W: Fn(u16) -> F>(&self, widen: W) -> (r: Arc<Vec<F>>)
        requires
            forall|x: u16| call_requires(widen, (x,)),
        ensures
            self.is_f32(widen, r@),
    {
        match self {
            Pixels::F32(v) => Arc::clone(v),
            Pixels::U16(v) => Arc::new(widen_all(v, &widen)),
        }
    }

    /// Pixel value at `idx`, or `None` if out of range.
    pub fn value_at<W: Fn(u16) -> F>(&self, idx: usize, widen: W) -> (r: Option<F>)
        requires
            forall|x: u16| call_requires(widen, (x,)),
        ensures
            match r {
                Some(x) => idx < self.count() && match self {
                    Pixels::U16(v) => call_ensures(widen, (v@[idx as int],), x),
                    Pixels::F32(v) => x == v@[idx as int],
                },
                None => idx >= self.count(),
            },
    {
        match self {
            Pixels::F32(v) => if idx < v.len() {
                Some(v[idx])
            } else {
                None
            },
            Pixels::U16(v) => if idx < v.len() {
                Some(widen(v[idx]))
            } else {
                None
            },
        }
    }

    /// Converts to the `F32` variant in place if needed and returns a mutable
    /// reference to its pixels for in-place editing. Widens a `U16` buffer
    /// once; on a float buffer nobody shares this is free.
    pub fn make_f32_mut<W: Fn(u16) -> F>(&mut self, widen: W) -> (r: &mut Vec<F>)
        requires
            forall|x: u16| call_requires(widen, (x,)),
        ensures
            old(self).is_f32(widen, r@),
            *final(self) matches Pixels::F32(v) && v@ == final(r)@,
    {
        let buffer: Arc<Vec<F>> = self.to_f32_arc(widen);
        *self = Pixels::F32(buffer);
        match self {
            Pixels::F32(v) => make_mut(v),
            Pixels::U16(_) => vstd::pervasive::unreached(),
        }
    }

    /// The `u16` buffer of a frame that is done with, for reuse: only an integer
    /// frame has one, and only if nobody else (a solver, a recorder) still
    /// shares it. Who shares it is known only when the call is made;
    /// [`Pixels::reclaim_with`] says what is returned for either answer.
    pub fn reclaim(self) -> (r: Option<Vec<u16>>)
        ensures
            r matches Some(b) ==> (self matches Pixels::U16(v) && b@ == v@),
    {
        self.reclaim_with(into_inner)
    }

    /// The `u16` buffer of a frame that is done with, where `take` gives the
    /// buffer out of its handle if it can: what `take` makes of an integer
    /// frame's own handle, and nothing for a float frame.
    pub fn reclaim_with<T: FnOnce(Arc<Vec<u16>>) -> Option<Vec<u16>>>(self, take: T) -> (r: Option<
        Vec<u16>,
    >)
        requires
            self matches Pixels::U16(v) ==> call_requires(take, (v,)),
        ensures
            match self {
                Pixels::U16(v) => call_ensures(take, (v,), r),
                Pixels::F32(_) => r is None,
            },
    {
        match self {
            Pixels::U16(v) => take(v),
            Pixels::F32(_) => None,
        }
    }

    /// A second handle on the same pixels.
    pub fn share(&self) -> (r: Pixels<F>)
        ensures
            r == *self,
    {
        match self {
            Pixels::F32(v) => Pixels::F32(Arc::clone(v)),
            Pixels::U16(v) => Pixels::U16(Arc::clone(v)),
        }
    }
}

/// Widening commutes with reading: the value read at an index of an integer
/// buffer is one that its widened form may hold there, and both forms have the
/// same pixels.
pub proof fn law_widened_agrees<F: Copy, W: Fn(u16) -> F>(
    v: Arc<Vec<u16>>,
    f: Arc<Vec<F>>,
    widen: W,
)
    requires
        widened(v@, widen, f@),
    ensures
        Pixels::<F>::U16(v).count() == Pixels::<F>::F32(f).count(),
        Pixels::<F>::U16(v).is_f32(widen, f@),
        Pixels::<F>::F32(f).is_f32(widen, f@),
{
}

/// A pixel is read as it is in the buffer, widened if the buffer holds
/// integers; off the buffer there is none. Reading all of it gives the same
/// number of pixels.
pub proof fn law_pixels_are_read_as_they_are<F: Copy, W: Fn(u16) -> F>(
    p: Pixels<F>,
    idx: usize,
    widen: W,
    one: Option<F>,
    all: Vec<F>,
    n: usize,
    empty: bool,
)
    requires
        forall|x: u16| call_requires(widen, (x,)),
        call_ensures(Pixels::<F>::value_at::<W>, (&p, idx, widen), one),
        call_ensures(Pixels::<F>::as_f32::<W>, (&p, widen), all),
        call_ensures(Pixels::<F>::len, (&p,), n),
        call_ensures(Pixels::<F>::is_empty, (&p,), empty),
    ensures
        n == all@.len(),
        empty <==> n == 0,
        one is Some <==> idx < n,
        p matches Pixels::F32(v) ==> all@ == v@ && (idx < n ==> one == Some(v@[idx as int])),
        p matches Pixels::U16(v) ==> v@.len() == n && (idx < n ==> call_ensures(
            widen,
            (v@[idx as int],),
            all@[idx as int],
        ) && call_ensures(widen, (v@[idx as int],), one->0)),
{
}

/// A second handle has the same pixels of the same type.
pub proof fn law_shared_pixels_are_the_same<F: Copy>(p: Pixels<F>, r: Pixels<F>)
    requires
        call_ensures(Pixels::<F>::share, (&p,), r),
    ensures
        p matches Pixels::U16(v) ==> (r matches Pixels::U16(w) && w@ == v@),
        p matches Pixels::F32(v) ==> (r matches Pixels::F32(w) && w@ == v@),
{
}

/// Pixels handed over in a shared buffer are those of the frame.
pub proof fn law_shared_floats_are_the_frame<F: Copy, W: Fn(u16) -> F>(
    p: Pixels<F>,
    widen: W,
    r: Arc<Vec<F>>,
    i: int,
)
    requires
        forall|x: u16| call_requires(widen, (x,)),
        call_ensures(Pixels::<F>::to_f32_arc::<W>, (&p, widen), r),
    ensures
        p matches Pixels::F32(v) ==> r@ == v@,
        p matches Pixels::U16(v) ==> r@.len() == v@.len() && (0 <= i < v@.len() ==> call_ensures(
            widen,
            (v@[i],),
            r@[i],
        )),
{
}

/// A reclaimed buffer is that of an integer frame, with what it held.
pub proof fn law_reclaimed_buffer_is_the_frames<F: Copy>(p: Pixels<F>, r: Option<Vec<u16>>)
    requires
        call_ensures(Pixels::<F>::reclaim, (p,), r),
    ensures
        p is F32 ==> r is None,
        r matches Some(b) ==> p is U16 && b@ == p->U16_0@,
{
}

/// An integer frame gives what is made of its own buffer, and a float frame
/// gives none.
pub proof fn law_only_integer_buffers_are_reclaimed<
    F: Copy,
    T: FnOnce(Arc<Vec<u16>>) -> Option<Vec<u16>>,
>(p: Pixels<F>, take: T, r: Option<Vec<u16>>)
    requires
        p matches Pixels::U16(v) ==> call_requires(take, (v,)),
        call_ensures(Pixels::<F>::reclaim_with::<T>, (p, take), r),
    ensures
        p is F32 ==> r is None,
        p matches Pixels::U16(v) ==> call_ensures(take, (v,), r),
{
}

/// Pixels that are edited as floats hold afterwards what was left behind the
/// reference. Before the edit a float frame's own pixels stand there, or an
/// integer frame's, widened.
pub proof fn law_edited_pixels_stay<F: Copy, W: Fn(u16) -> F>(
    p: &mut Pixels<F>,
    widen: W,
    r: &mut Vec<F>,
)
    requires
        forall|x: u16| call_requires(widen, (x,)),
        call_ensures(Pixels::<F>::make_f32_mut::<W>, (p, widen), r),
    ensures
        *final(p) matches Pixels::F32(v) && v@ == final(r)@,
        *old(p) matches Pixels::F32(v) ==> old(r)@ == v@,
        *old(p) matches Pixels::U16(v) ==> old(r)@.len() == v@.len() && (forall|i: int|
            0 <= i < v@.len() ==> call_ensures(widen, (v@[i],), #[trigger] old(r)@[i])),
{
}

} // verus!
