//! The read-only descriptor variant.

use vstd::prelude::*;
use vstd::std_specs::cmp::PartialEqSpec;

verus! {

/// A non-owning, lifetime-erased, read-only view of a slice of `T`.
///
/// The descriptor caches the slice's starting address and element count at
/// the moment of capture and never revalidates either. Address `0` is the
/// null sentinel: such a descriptor references no buffer at all, which is
/// distinct from a non-null descriptor of length zero (a valid empty view).
/// A ghost snapshot records, for specification purposes only, the elements
/// the referenced memory held at capture time.
///
/// # Safety contract (caller-enforced, never checked here)
///
/// The referenced memory must remain valid and must not be mutated for as
/// long as this descriptor, or any copy of it, is in use. The descriptor
/// cannot detect a violation; the undefined behavior surfaces only where the
/// surrounding code turns the raw address/length pair back into a slice.
/// When a descriptor crosses execution contexts (a task and an interrupt
/// handler, say), the caller must also serialize every access to the
/// referenced memory: the descriptor is a plain value with no internal
/// synchronization.
pub struct RawSlice<T> {
    addr: usize,
    len: usize,
    elems: Ghost<Seq<T>>,
}

/// Relies on `<[T]>::as_ptr`: the returned address is the location of the
/// slice's first element. A slice reference is never null, so the address is
/// never zero. Which nonzero address comes back depends on where the caller's
/// data lives, so nothing more is stated.
#[verifier::external_body]
fn slice_addr<T>(data: &[T]) -> (r: usize)
    ensures
        r != 0,
{
    data.as_ptr() as usize
}

impl<T> RawSlice<T> {
    /// The captured starting address; `0` is the null sentinel.
    pub closed spec fn spec_addr(&self) -> usize {
        self.addr
    }

    /// The cached element count.
    pub closed spec fn spec_len(&self) -> usize {
        self.len
    }

    /// The elements the referenced memory held when the descriptor was
    /// created or last updated; the empty sequence in the null state.
    pub closed spec fn contents(&self) -> Seq<T> {
        self.elems@
    }

    /// Whether the descriptor is in the null state.
    pub open spec fn spec_is_null(&self) -> bool {
        self.spec_addr() == 0
    }

    /// Structural invariant: the cached length always matches the snapshot,
    /// and the null state carries length zero.
    pub open spec fn wf(&self) -> bool {
        &&& self.contents().len() == self.spec_len()
        &&& self.spec_is_null() ==> self.spec_len() == 0
    }

    /// The descriptor is a live view that captured exactly the sequence `s`.
    pub open spec fn describes(&self, s: Seq<T>) -> bool {
        &&& !self.spec_is_null()
        &&& self.contents() == s
        &&& self.spec_len() == s.len()
    }

    /// What `len` answers: the cached length, unknown in the null state.
    pub open spec fn spec_length(&self) -> Option<usize> {
        if self.spec_is_null() {
            None
        } else {
            Some(self.spec_len())
        }
    }

    /// What `is_empty` answers: whether the view has no elements, unknown in
    /// the null state.
    pub open spec fn spec_is_empty(&self) -> Option<bool> {
        if self.spec_is_null() {
            None
        } else {
            Some(self.spec_len() == 0)
        }
    }

    /// What `get` answers: the raw address/length pair, absent in the null
    /// state.
    pub open spec fn spec_raw_parts(&self) -> Option<(usize, usize)> {
        if self.spec_is_null() {
            None
        } else {
            Some((self.spec_addr(), self.spec_len()))
        }
    }

    /// Captures the address and length of `data`.
    ///
    /// # Safety contract (caller-enforced)
    ///
    /// The memory underlying `data` must outlive the descriptor and must not
    /// be mutated while the descriptor is used. The operation itself cannot
    /// fail and performs no check.
    pub fn new(data: &[T]) -> (s: Self)
        ensures
            s.wf(),
            s.describes(data@),
    {
        let addr: usize = slice_addr(data);
        Self { addr, len: data.len(), elems: Ghost(data@) }
    }

    /// Creates a descriptor in the null state.
    pub fn new_nulled() -> (s: Self)
        ensures
            s.wf(),
            s.spec_is_null(),
            s.spec_len() == 0,
            s.contents() == Seq::<T>::empty(),
    {
        Self { addr: 0, len: 0, elems: Ghost(Seq::empty()) }
    }

    /// Re-points the descriptor at `data`; the previous address and length
    /// are discarded without cleanup (nothing is owned).
    ///
    /// # Safety contract (caller-enforced)
    ///
    /// Same as for `new`: the memory underlying `data` must outlive the
    /// descriptor and must not be mutated while the descriptor is used.
    pub fn set(&mut self, data: &[T])
        ensures
            final(self).wf(),
            final(self).describes(data@),
    {
        self.addr = slice_addr(data);
        self.len = data.len();
        self.elems = Ghost(data@);
    }

    /// Clears the descriptor to the null state unconditionally.
    pub fn set_null(&mut self)
        ensures
            final(self).wf(),
            final(self).spec_is_null(),
            final(self).spec_len() == 0,
            final(self).contents() == Seq::<T>::empty(),
    {
        self.addr = 0;
        self.len = 0;
        self.elems = Ghost(Seq::empty());
    }

    /// Whether the descriptor is in the null state.
    pub fn is_null(&self) -> (r: bool)
        ensures
            r == self.spec_is_null(),
    {
        self.addr == 0
    }

    /// `None` in the null state; otherwise whether the view has zero
    /// elements. A zero-length view is a valid buffer, unlike the null state.
    pub fn is_empty(&self) -> (r: Option<bool>)
        ensures
            r == self.spec_is_empty(),
    {
        if self.is_null() {
            return None;
        }
        Some(self.len == 0)
    }

    /// `None` in the null state; otherwise the cached element count.
    pub fn len(&self) -> (r: Option<usize>)
        ensures
            r == self.spec_length(),
    {
        if self.is_null() {
            return None;
        }
        Some(self.len)
    }

    /// `None` in the null state; otherwise the raw address/length pair from
    /// which the caller reconstructs the read-only view.
    ///
    /// # Safety contract (caller-enforced)
    ///
    /// Turning the pair back into a slice is sound only while the referenced
    /// memory is still valid and not concurrently mutated through another
    /// path. This function performs no such check; none is possible here.
    pub fn get(&self) -> (r: Option<(usize, usize)>)
        ensures
            r == self.spec_raw_parts(),
    {
        if self.is_null() {
            return None;
        }
        Some((self.addr, self.len))
    }

    /// The raw address/length pair unconditionally (the null state yields
    /// address `0` and length `0`), for adapters that program a peripheral's
    /// read source. The pair is handed out untrusted and unchecked.
    pub fn read_buffer_info(&self) -> (r: (usize, usize))
        ensures
            r == (self.spec_addr(), self.spec_len()),
    {
        (self.addr, self.len)
    }
}

impl<T> Clone for RawSlice<T> {
    /// A copy is an independent descriptor aliasing the same memory.
    fn clone(&self) -> (r: Self)
        ensures
            r == *self,
    {
        RawSlice { addr: self.addr, len: self.len, elems: self.elems }
    }
}

impl<T> Copy for RawSlice<T> {}

impl<T> PartialEq for RawSlice<T> {
    fn eq(&self, other: &Self) -> bool {
        self.addr == other.addr && self.len == other.len
    }
}

impl<T> Eq for RawSlice<T> {}

impl<T> vstd::std_specs::cmp::PartialEqSpecImpl for RawSlice<T> {
    open spec fn obeys_eq_spec() -> bool {
        true
    }

    /// Equality is identity of view: addresses and lengths agree. The ghost
    /// snapshot takes no part, as it models memory, not the descriptor.
    open spec fn eq_spec(&self, other: &Self) -> bool {
        self.spec_addr() == other.spec_addr() && self.spec_len() == other.spec_len()
    }
}

impl<T> Default for RawSlice<T> {
    /// The default descriptor is the null descriptor.
    fn default() -> (s: Self)
        ensures
            s.wf(),
            s.spec_is_null(),
            s.spec_len() == 0,
            s.contents() == Seq::<T>::empty(),
    {
        Self::new_nulled()
    }
}

/// A descriptor captured from a sequence `s` is not null, reports exactly
/// `s`'s length, and is empty exactly when `s` is.
pub proof fn lemma_capture_observations<T>(d: RawSlice<T>, s: Seq<T>)
    requires
        d.describes(s),
    ensures
        !d.spec_is_null(),
        d.spec_length() == Some(d.spec_len()),
        d.spec_len() == s.len(),
        d.spec_is_empty() == Some((s.len() == 0)),
{
}

/// A null descriptor answers "unknown" for length and emptiness and "absent"
/// for the view: the null state carries no buffer information.
pub proof fn lemma_null_observations<T>(d: RawSlice<T>)
    requires
        d.spec_is_null(),
    ensures
        d.spec_length() == None::<usize>,
        d.spec_is_empty() == None::<bool>,
        d.spec_raw_parts() == None::<(usize, usize)>,
{
}

/// Round trip: the raw view parts of a descriptor captured from `s` cover
/// exactly `s`'s length, and the captured contents are `s` itself, element
/// for element.
pub proof fn lemma_view_round_trip<T>(d: RawSlice<T>, s: Seq<T>)
    requires
        d.describes(s),
    ensures
        d.spec_raw_parts() == Some((d.spec_addr(), d.spec_len())),
        d.spec_len() == s.len(),
        d.contents() == s,
{
}

/// Duplication yields a descriptor equal to the original under the
/// address-and-length equality rule.
pub proof fn lemma_duplicate_equal<T>(d: RawSlice<T>, c: RawSlice<T>)
    requires
        c == d,
    ensures
        c.eq_spec(&d),
{
}

} // verus!
