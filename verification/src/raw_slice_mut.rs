//! The read-write descriptor variant.
//!
//! Deliberately a sibling of the read-only variant rather than a
//! specialization of it: the safety contract differs (exclusive access
//! rather than shared read access), and keeping the two types independent
//! keeps the stricter contract visible at every call site that needs it.

use vstd::prelude::*;

verus! {

/// A non-owning, lifetime-erased, read-write view of a slice of `T`.
///
/// Structurally identical to the read-only variant: a cached starting
/// address and element count, with address `0` as the null sentinel and a
/// ghost snapshot of the elements the referenced memory held at capture
/// time. The null state is distinct from a non-null view of length zero.
///
/// # Safety contract (caller-enforced, never checked here)
///
/// The referenced memory must remain valid for as long as this descriptor,
/// or any copy of it, is in use; and whenever a mutable view will be taken,
/// the caller must hold exclusive access to that memory for the descriptor's
/// entire usage window — no other path may read or write it. The descriptor
/// cannot detect a violation; the undefined behavior surfaces only where the
/// surrounding code turns the raw address/length pair back into a slice.
/// Crossing execution contexts additionally requires external
/// synchronization: the descriptor is a plain value with no locking of its
/// own.
pub struct RawSliceMut<T> {
    addr: usize,
    len: usize,
    elems: Ghost<Seq<T>>,
}

/// Relies on `<[T]>::as_mut_ptr`: the returned address is the location of
/// the slice's first element, and the slice itself is not changed. A slice
/// reference is never null, so the address is never zero. Which nonzero
/// address comes back depends on where the caller's data lives, so nothing
/// more is stated.
#[verifier::external_body]
fn slice_addr_mut<T>(data: &mut [T]) -> (r: usize)
    ensures
        r != 0,
        final(data)@ == old(data)@,
{
    data.as_mut_ptr() as usize
}

impl<T> RawSliceMut<T> {
    /// The captured starting address; `0` is the null sentinel.
    pub closed spec fn spec_addr(&self) -> usize {
        self.addr
    }

    /// The cached element count.
    pub closed spec fn spec_len(&self) -> usize {
        self.len
    }

    /// The elements the referenced memory held when the descriptor was
    /// created or last updated; the empty sequence in the null state.
    pub closed spec fn contents(&self) -> Seq<T> {
        self.elems@
    }

    /// Whether the descriptor is in the null state.
    pub open spec fn spec_is_null(&self) -> bool {
        self.spec_addr() == 0
    }

    /// Structural invariant: the cached length always matches the snapshot,
    /// and the null state carries length zero.
    pub open spec fn wf(&self) -> bool {
        &&& self.contents().len() == self.spec_len()
        &&& self.spec_is_null() ==> self.spec_len() == 0
    }

    /// The descriptor is a live view that captured exactly the sequence `s`.
    pub open spec fn describes(&self, s: Seq<T>) -> bool {
        &&& !self.spec_is_null()
        &&& self.contents() == s
        &&& self.spec_len() == s.len()
    }

    /// What `len` answers: the cached length, unknown in the null state.
    pub open spec fn spec_length(&self) -> Option<usize> {
        if self.spec_is_null() {
            None
        } else {
            Some(self.spec_len())
        }
    }

    /// What `is_empty` answers: whether the view has no elements, unknown in
    /// the null state.
    pub open spec fn spec_is_empty(&self) -> Option<bool> {
        if self.spec_is_null() {
            None
        } else {
            Some(self.spec_len() == 0)
        }
    }

    /// What `get` and `get_mut` answer: the raw address/length pair, absent
    /// in the null state.
    pub open spec fn spec_raw_parts(&self) -> Option<(usize, usize)> {
        if self.spec_is_null() {
            None
        } else {
            Some((self.spec_addr(), self.spec_len()))
        }
    }

    /// Captures the address and length of `data`.
    ///
    /// # Safety contract (caller-enforced)
    ///
    /// The memory underlying `data` must outlive the descriptor, and the
    /// caller must keep exclusive access to it for the descriptor's entire
    /// usage window whenever a mutable view will be taken. The operation
    /// itself cannot fail and performs no check.
    pub fn new(data: &mut [T]) -> (s: Self)
        ensures
            s.wf(),
            s.describes(old(data)@),
            final(data)@ == old(data)@,
    {
        let addr: usize = slice_addr_mut(data);
        let len: usize = data.len();
        Self { addr, len, elems: Ghost(data@) }
    }

    /// Creates a descriptor in the null state.
    pub fn new_nulled() -> (s: Self)
        ensures
            s.wf(),
            s.spec_is_null(),
            s.spec_len() == 0,
            s.contents() == Seq::<T>::empty(),
    {
        Self { addr: 0, len: 0, elems: Ghost(Seq::empty()) }
    }

    /// Re-points the descriptor at `data`; the previous address and length
    /// are discarded without cleanup (nothing is owned).
    ///
    /// # Safety contract (caller-enforced)
    ///
    /// Same as for `new`: validity for the descriptor's lifetime, and
    /// exclusive access whenever a mutable view will be taken.
    pub fn set(&mut self, data: &mut [T])
        ensures
            final(self).wf(),
            final(self).describes(old(data)@),
            final(data)@ == old(data)@,
    {
        self.addr = slice_addr_mut(data);
        self.len = data.len();
        self.elems = Ghost(data@);
    }

    /// `None` in the null state; otherwise the raw address/length pair from
    /// which the caller reconstructs a read-only view.
    ///
    /// # Safety contract (caller-enforced)
    ///
    /// Turning the pair back into a slice is sound only while the referenced
    /// memory is still valid and not concurrently mutated through another
    /// path. This function performs no such check; none is possible here.
    pub fn get(&self) -> (r: Option<(usize, usize)>)
        ensures
            r == self.spec_raw_parts(),
    {
        if self.is_null() {
            return None;
        }
        Some((self.addr, self.len))
    }

    /// `None` in the null state; otherwise the raw address/length pair from
    /// which the caller reconstructs the mutable view. The descriptor itself
    /// is left unchanged.
    ///
    /// # Safety contract (caller-enforced)
    ///
    /// Beyond validity of the referenced memory, the caller must ensure that
    /// at most one view derived from this pair is live at a time when the
    /// memory is actually shared across contexts: the library imposes no
    /// aliasing check.
    pub fn get_mut(&mut self) -> (r: Option<(usize, usize)>)
        ensures
            *final(self) == *old(self),
            r == old(self).spec_raw_parts(),
    {
        if self.is_null() {
            return None;
        }
        Some((self.addr, self.len))
    }

    /// Clears the descriptor to the null state unconditionally.
    pub fn set_null(&mut self)
        ensures
            final(self).wf(),
            final(self).spec_is_null(),
            final(self).spec_len() == 0,
            final(self).contents() == Seq::<T>::empty(),
    {
        self.addr = 0;
        self.len = 0;
        self.elems = Ghost(Seq::empty());
    }

    /// Whether the descriptor is in the null state.
    pub fn is_null(&self) -> (r: bool)
        ensures
            r == self.spec_is_null(),
    {
        self.addr == 0
    }

    /// `None` in the null state; otherwise whether the view has zero
    /// elements. A zero-length view is a valid buffer, unlike the null state.
    pub fn is_empty(&self) -> (r: Option<bool>)
        ensures
            r == self.spec_is_empty(),
    {
        if self.is_null() {
            return None;
        }
        Some(self.len == 0)
    }

    /// `None` in the null state; otherwise the cached element count.
    pub fn len(&self) -> (r: Option<usize>)
        ensures
            r == self.spec_length(),
    {
        if self.is_null() {
            return None;
        }
        Some(self.len)
    }

    /// The raw address/length pair unconditionally (the null state yields
    /// address `0` and length `0`), for adapters that program a peripheral's
    /// write destination. The pair is handed out untrusted and unchecked.
    pub fn write_buffer_info(&mut self) -> (r: (usize, usize))
        ensures
            *final(self) == *old(self),
            r == (old(self).spec_addr(), old(self).spec_len()),
    {
        (self.addr, self.len)
    }
}

impl<T> Clone for RawSliceMut<T> {
    /// A copy is an independent descriptor aliasing the same memory.
    fn clone(&self) -> (r: Self)
        ensures
            r == *self,
    {
        RawSliceMut { addr: self.addr, len: self.len, elems: self.elems }
    }
}

impl<T> Copy for RawSliceMut<T> {}

impl<T> Default for RawSliceMut<T> {
    /// The default descriptor is the null descriptor.
    fn default() -> (s: Self)
        ensures
            s.wf(),
            s.spec_is_null(),
            s.spec_len() == 0,
            s.contents() == Seq::<T>::empty(),
    {
        Self::new_nulled()
    }
}

/// A descriptor captured from a sequence `s` is not null, reports exactly
/// `s`'s length, and is empty exactly when `s` is.
pub proof fn lemma_capture_observations<T>(d: RawSliceMut<T>, s: Seq<T>)
    requires
        d.describes(s),
    ensures
        !d.spec_is_null(),
        d.spec_length() == Some(d.spec_len()),
        d.spec_len() == s.len(),
        d.spec_is_empty() == Some((s.len() == 0)),
{
}

/// A null descriptor answers "unknown" for length and emptiness and "absent"
/// for both views: the null state carries no buffer information.
pub proof fn lemma_null_observations<T>(d: RawSliceMut<T>)
    requires
        d.spec_is_null(),
    ensures
        d.spec_length() == None::<usize>,
        d.spec_is_empty() == None::<bool>,
        d.spec_raw_parts() == None::<(usize, usize)>,
{
}

/// Round trip: the raw view parts of a descriptor captured from `s` cover
/// exactly `s`'s length, and the captured contents are `s` itself, element
/// for element.
pub proof fn lemma_view_round_trip<T>(d: RawSliceMut<T>, s: Seq<T>)
    requires
        d.describes(s),
    ensures
        d.spec_raw_parts() == Some((d.spec_addr(), d.spec_len())),
        d.spec_len() == s.len(),
        d.contents() == s,
{
}

} // verus!
