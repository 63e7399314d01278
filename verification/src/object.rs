//! Lean object headers, boxed scalars and reference counting.
use vstd::prelude::*;

verus! {

/// The tag that the Lean runtime gives to string objects.
pub const LEAN_STRING_TAG: u8 = 249;

/// The header that starts every heap object of the Lean runtime.
#[derive(Clone, Copy, Debug, PartialEq, Eq, Structural)]
pub struct lean_object {
    /// Reference count: positive for objects owned by one thread, negative for
    /// objects shared between threads, zero for persistent objects.
    pub m_rc: i32,
    pub m_cs_sz: u16,
    pub m_other: u8,
    pub m_tag: u8,
}

/// Whether a Lean value word is a boxed scalar rather than an object pointer:
/// scalars have their lowest bit set.
pub open spec fn is_scalar_word(p: usize) -> bool {
    p % 2 == 1
}

/// The word that boxes `n`: `n` doubled, wrapped to the word size, plus one.
pub open spec fn boxed_word(n: usize) -> int {
    (2 * n) % (usize::MAX as int + 1) + 1
}

/// Boxes `n` as a scalar Lean value.
pub fn lean_box(n: usize) -> (r: usize)
    ensures
        r as int == boxed_word(n),
{
    let r = (n << 1usize) | 1usize;
    proof {
        assert(usize::BITS == 32 || usize::BITS == 64);
        if usize::BITS == 64 {
            assert(usize::MAX == 0xffff_ffff_ffff_ffffint);
            assert(((n << 1usize) | 1usize) as int == (2 * n) % 0x1_0000_0000_0000_0000int + 1)
                by (bit_vector)
                requires
                    usize::BITS == 64,
            ;
        } else {
            assert(usize::MAX == 0xffff_ffffint);
            assert(((n << 1usize) | 1usize) as int == (2 * n) % 0x1_0000_0000int + 1) by (bit_vector)
                requires
                    usize::BITS == 32,
            ;
        }
    }
    r
}

/// Whether `p` is a boxed scalar.
pub fn lean_is_scalar(p: usize) -> (b: bool)
    ensures
        b == is_scalar_word(p),
{
    assert((p & 1usize == 1usize) == (p % 2 == 1)) by (bit_vector);
    p & 1 == 1
}

/// The token that stands for the outside world in Lean's `IO` functions.
pub fn lean_io_mk_world() -> (w: usize)
    ensures
        w == 1,
        is_scalar_word(w),
{
    let w = lean_box(0);
    assert(0int % (usize::MAX as int + 1) == 0) by (nonlinear_arith);
    w
}

/// What releasing one reference to a Lean value asks of the caller.
#[derive(Clone, Copy, Debug, PartialEq, Eq, Structural)]
pub enum DecRef {
    /// The value is a boxed scalar: there is nothing to release.
    Scalar,
    /// The object is persistent (reference count zero): nothing changes.
    Persistent,
    /// The reference count was greater than one and has been decremented.
    Decremented,
    /// The last owner, or an object shared between threads: the runtime's
    /// slow path (`lean_dec_ref_cold`) must release it.
    ReleaseInRuntime,
}

/// The outcome of releasing one reference to the object whose header is `o`.
pub open spec fn dec_ref_outcome(o: lean_object) -> (lean_object, DecRef) {
    if o.m_rc > 1 {
        (lean_object { m_rc: (o.m_rc - 1) as i32, ..o }, DecRef::Decremented)
    } else if o.m_rc != 0 {
        (o, DecRef::ReleaseInRuntime)
    } else {
        (o, DecRef::Persistent)
    }
}

/// The outcome of releasing one reference to the value word `p`, whose
/// header, when `p` is an object pointer, is `o`.
pub open spec fn dec_outcome(p: usize, o: lean_object) -> (lean_object, DecRef) {
    if is_scalar_word(p) {
        (o, DecRef::Scalar)
    } else {
        dec_ref_outcome(o)
    }
}

impl lean_object {
    /// The object's tag, which says what kind of object it is.
    pub fn lean_ptr_tag(&self) -> (t: u8)
        ensures
            t == self.m_tag,
    {
        self.m_tag
    }

    /// Whether the object is a Lean string.
    pub fn lean_is_string(&self) -> (b: bool)
        ensures
            b == (self.m_tag == LEAN_STRING_TAG),
    {
        self.lean_ptr_tag() == LEAN_STRING_TAG
    }

    /// Whether the object, the result of an `IO` action, reports success.
    pub fn lean_io_result_is_ok(&self) -> (b: bool)
        ensures
            b == (self.m_tag == 0),
    {
        self.lean_ptr_tag() == 0
    }

    /// Releases one reference to this object: the count of an object with
    /// more than one owner goes down by one; the last owner and objects shared
    /// between threads are left to the runtime's slow path; persistent objects
    /// are not touched.
    pub fn lean_dec_ref(&mut self) -> (r: DecRef)
        ensures
            (*final(self), r) == dec_ref_outcome(*old(self)),
            old(self).m_rc > 1 ==> r == DecRef::Decremented && final(self).m_rc == old(self).m_rc - 1,
            old(self).m_rc <= 1 ==> *final(self) == *old(self),
            final(self).m_tag == old(self).m_tag,
            final(self).m_other == old(self).m_other,
            final(self).m_cs_sz == old(self).m_cs_sz,
    {
        if self.m_rc > 1 {
            self.m_rc = self.m_rc - 1;
            DecRef::Decremented
        } else if self.m_rc != 0 {
            DecRef::ReleaseInRuntime
        } else {
            DecRef::Persistent
        }
    }
}

/// Releases one reference to the value word `p`; `o` is the header of the
/// object that `p` points to, and is consulted only when `p` is not a scalar.
pub fn lean_dec(p: usize, o: &mut lean_object) -> (r: DecRef)
    ensures
        (*final(o), r) == dec_outcome(p, *old(o)),
{
    if lean_is_scalar(p) {
        DecRef::Scalar
    } else {
        o.lean_dec_ref()
    }
}

/// Every boxed value is a scalar.
pub proof fn lemma_boxed_is_scalar(n: usize)
    ensures
        boxed_word(n) <= usize::MAX,
        is_scalar_word(boxed_word(n) as usize),
{
    assert(0 <= (2 * n) % (usize::MAX as int + 1) < usize::MAX as int + 1) by (nonlinear_arith);
    assert(((2 * n) % (usize::MAX as int + 1)) % 2 == 0) by (nonlinear_arith)
        requires
            usize::MAX % 2 == 1,
    ;
}

/// Releasing a scalar changes nothing and asks nothing of the runtime.
pub proof fn lemma_dec_scalar_untouched(p: usize, o: lean_object)
    requires
        is_scalar_word(p),
    ensures
        dec_outcome(p, o) == (o, DecRef::Scalar),
{
}

/// Releasing a reference never changes anything in a header but its count,
/// and the count never goes below one that way.
pub proof fn lemma_dec_ref_only_counts(o: lean_object)
    ensures
        dec_ref_outcome(o).0.m_tag == o.m_tag,
        dec_ref_outcome(o).0.m_other == o.m_other,
        dec_ref_outcome(o).0.m_cs_sz == o.m_cs_sz,
        dec_ref_outcome(o).1 == DecRef::Decremented ==> dec_ref_outcome(o).0.m_rc >= 1,
        dec_ref_outcome(o).1 != DecRef::Decremented ==> dec_ref_outcome(o).0 == o,
{
}

/// Releasing one reference takes away exactly one: an object with more than
/// one owner keeps its header but for a count one lower; an object whose count
/// is zero is persistent and stays as it is; any other (the last owner, or an
/// object shared between threads) is left unchanged for the runtime to free.
pub proof fn law_release_takes_exactly_one(o: lean_object)
    ensures
        o.m_rc > 1 ==> dec_ref_outcome(o).1 == DecRef::Decremented
            && dec_ref_outcome(o).0.m_rc as int == o.m_rc as int - 1
            && dec_ref_outcome(o).0.m_tag == o.m_tag
            && dec_ref_outcome(o).0.m_other == o.m_other
            && dec_ref_outcome(o).0.m_cs_sz == o.m_cs_sz,
        o.m_rc == 0 ==> dec_ref_outcome(o).1 == DecRef::Persistent && dec_ref_outcome(o).0 == o,
        (o.m_rc == 1 || o.m_rc < 0) ==> dec_ref_outcome(o).1 == DecRef::ReleaseInRuntime
            && dec_ref_outcome(o).0 == o,
{
}

/// Two releases of an object with at least three owners take away exactly two.
pub proof fn law_two_releases_take_two(o: lean_object)
    requires
        o.m_rc > 2,
    ensures
        dec_ref_outcome(dec_ref_outcome(o).0).0.m_rc as int == o.m_rc as int - 2,
{
}

} // verus!
