//! The static-pointer abstraction: type-erased context values.
//!
//! An event record held by the firmware stores a single raw address as its
//! context.  A type implementing [`StaticPtr`] can erase itself to such an
//! address and be recovered from it later; the type parameter at the call
//! site pins the recovery type, so a mismatched recovery cannot be written
//! without also changing the site that erased the value.  Implementations
//! cover the no-context case (the unit type, erasing to the null address),
//! borrowed and exclusively borrowed referents, owned heap values — whose
//! erasure transfers ownership to the holder of the address — and optional
//! presence.  Here a referent is carried as its raw address in plain form;
//! the unsafe production of an address from a live referent, and of a
//! referent from an address, belongs to the shell around the library.

use vstd::prelude::*;

verus! {

/// The erased form of a context value: its raw address, tagged with the
/// type it must be recovered as.
#[derive(Debug)]
pub struct StaticPtrMetadata<T> {
    pub ptr_value: usize,
    pub _t: core::marker::PhantomData<T>,
}

impl<T> StaticPtrMetadata<T> {
    /// Tag a raw address for recovery as `T`.
    pub fn new(ptr_value: usize) -> (m: StaticPtrMetadata<T>)
        ensures
            m.ptr_value == ptr_value,
    {
        StaticPtrMetadata { ptr_value, _t: core::marker::PhantomData }
    }
}

/// A context value that can be erased to a raw address and recovered from
/// it with its type and address intact.
pub trait StaticPtr: Sized {
    /// Whether this value may cross the boundary: its address is one its
    /// type can be recovered from.
    spec fn wf(&self) -> bool;

    /// The raw address this value erases to.
    spec fn raw_spec(&self) -> usize;

    /// Whether erasing this value transfers ownership of a heap value to
    /// the holder of the address.
    spec fn owns_pointee(&self) -> bool;

    /// The raw addresses this type recovers from.
    spec fn valid_raw(v: usize) -> bool;

    /// Whether erasing this value transfers ownership of a heap value,
    /// answered at run time.
    fn transfers_ownership(&self) -> (r: bool)
        ensures
            r == self.owns_pointee(),
    ;

    /// The value this type recovers from a raw address.
    spec fn recover_spec(v: usize) -> Self;

    /// A well-formed value erases to an address its type recovers from.
    proof fn raw_valid(&self)
        requires
            self.wf(),
        ensures
            Self::valid_raw(self.raw_spec()),
    ;

    /// Recovering a well-formed value from its own erased address yields
    /// the value back.
    proof fn recover_round_trip(&self)
        requires
            self.wf(),
        ensures
            Self::recover_spec(self.raw_spec()) == *self,
    ;

    /// Erase this value to its raw address, giving up the value itself:
    /// for an owning value, ownership now rests with the address holder.
    fn into_raw(self) -> (r: usize)
        requires
            self.wf(),
        ensures
            r == self.raw_spec(),
    ;

    /// The erased form of this value, tagged with its recovery type.
    fn metadata(&self) -> (m: StaticPtrMetadata<Self>)
        requires
            self.wf(),
        ensures
            m.ptr_value == self.raw_spec(),
    ;

    /// Recover a value from its erased form.  The metadata's type
    /// parameter pins the recovery type to the one erased at the site
    /// that produced it.
    fn from_metadata(m: StaticPtrMetadata<Self>) -> (r: Self)
        requires
            Self::valid_raw(m.ptr_value),
        ensures
            r.wf(),
            r == Self::recover_spec(m.ptr_value),
            r.raw_spec() == m.ptr_value,
    ;
}

/// A context value whose erased address may also be handed out for
/// mutation.
pub trait StaticPtrMut: StaticPtr {
    /// Erase this value to its raw address for a boundary that writes
    /// through it.
    fn into_raw_mut(self) -> (r: usize)
        requires
            self.wf(),
        ensures
            r == self.raw_spec(),
    ;
}

// The unit type: no context.  It erases to the null address.

impl StaticPtr for () {
    open spec fn wf(&self) -> bool {
        true
    }

    open spec fn raw_spec(&self) -> usize {
        0
    }

    open spec fn owns_pointee(&self) -> bool {
        false
    }

    open spec fn valid_raw(v: usize) -> bool {
        v == 0
    }

    open spec fn recover_spec(v: usize) -> () {
        ()
    }

    proof fn raw_valid(&self) {
    }

    proof fn recover_round_trip(&self) {
    }

    fn transfers_ownership(&self) -> (r: bool) {
        false
    }

    fn into_raw(self) -> (r: usize) {
        0
    }

    fn metadata(&self) -> (m: StaticPtrMetadata<()>) {
        StaticPtrMetadata::new(0)
    }

    fn from_metadata(m: StaticPtrMetadata<()>) -> (r: ()) {
        ()
    }
}

impl StaticPtrMut for () {
    fn into_raw_mut(self) -> (r: usize) {
        0
    }
}

/// A shared borrow of a referent that outlives every event: carried as the
/// referent's address.  Erasing it transfers no ownership.
#[derive(Clone, Copy, PartialEq, Eq, Structural, Debug)]
pub struct StaticRef {
    /// The referent's address; a live referent is never at address zero.
    pub addr: usize,
}

impl StaticPtr for StaticRef {
    open spec fn wf(&self) -> bool {
        self.addr != 0
    }

    open spec fn raw_spec(&self) -> usize {
        self.addr
    }

    open spec fn owns_pointee(&self) -> bool {
        false
    }

    open spec fn valid_raw(v: usize) -> bool {
        v != 0
    }

    open spec fn recover_spec(v: usize) -> StaticRef {
        StaticRef { addr: v }
    }

    proof fn raw_valid(&self) {
    }

    proof fn recover_round_trip(&self) {
    }

    fn transfers_ownership(&self) -> (r: bool) {
        false
    }

    fn into_raw(self) -> (r: usize) {
        self.addr
    }

    fn metadata(&self) -> (m: StaticPtrMetadata<StaticRef>) {
        StaticPtrMetadata::new(self.addr)
    }

    fn from_metadata(m: StaticPtrMetadata<StaticRef>) -> (r: StaticRef) {
        StaticRef { addr: m.ptr_value }
    }
}

/// An exclusive borrow of a referent that outlives every event: carried as
/// the referent's address.  Erasing it transfers no ownership, only the
/// exclusive right to write through the address.
#[derive(PartialEq, Eq, Structural, Debug)]
pub struct StaticMutRef {
    /// The referent's address; a live referent is never at address zero.
    pub addr: usize,
}

impl StaticPtr for StaticMutRef {
    open spec fn wf(&self) -> bool {
        self.addr != 0
    }

    open spec fn raw_spec(&self) -> usize {
        self.addr
    }

    open spec fn owns_pointee(&self) -> bool {
        false
    }

    open spec fn valid_raw(v: usize) -> bool {
        v != 0
    }

    open spec fn recover_spec(v: usize) -> StaticMutRef {
        StaticMutRef { addr: v }
    }

    proof fn raw_valid(&self) {
    }

    proof fn recover_round_trip(&self) {
    }

    fn transfers_ownership(&self) -> (r: bool) {
        false
    }

    fn into_raw(self) -> (r: usize) {
        self.addr
    }

    fn metadata(&self) -> (m: StaticPtrMetadata<StaticMutRef>) {
        StaticPtrMetadata::new(self.addr)
    }

    fn from_metadata(m: StaticPtrMetadata<StaticMutRef>) -> (r: StaticMutRef) {
        StaticMutRef { addr: m.ptr_value }
    }
}

/// An owned heap value: carried as its address.  Erasing it leaks the
/// value to the holder of the address, who must recover it exactly once —
/// typically inside the notify callback or at event close — to reclaim it.
#[derive(PartialEq, Eq, Structural, Debug)]
pub struct OwnedPtr {
    /// The owned value's address; a heap value is never at address zero.
    pub addr: usize,
}

impl StaticPtr for OwnedPtr {
    open spec fn wf(&self) -> bool {
        self.addr != 0
    }

    open spec fn raw_spec(&self) -> usize {
        self.addr
    }

    open spec fn owns_pointee(&self) -> bool {
        true
    }

    open spec fn valid_raw(v: usize) -> bool {
        v != 0
    }

    open spec fn recover_spec(v: usize) -> OwnedPtr {
        OwnedPtr { addr: v }
    }

    proof fn raw_valid(&self) {
    }

    proof fn recover_round_trip(&self) {
    }

    fn transfers_ownership(&self) -> (r: bool) {
        true
    }

    fn into_raw(self) -> (r: usize) {
        self.addr
    }

    fn metadata(&self) -> (m: StaticPtrMetadata<OwnedPtr>) {
        StaticPtrMetadata::new(self.addr)
    }

    fn from_metadata(m: StaticPtrMetadata<OwnedPtr>) -> (r: OwnedPtr) {
        OwnedPtr { addr: m.ptr_value }
    }
}

impl StaticPtrMut for StaticMutRef {
    fn into_raw_mut(self) -> (r: usize) {
        self.addr
    }
}

impl StaticPtrMut for OwnedPtr {
    fn into_raw_mut(self) -> (r: usize) {
        self.addr
    }
}

// Optional presence: an absent context erases to the null address, a
// present one to its own address.  A present context must erase to a
// nonzero address, or absence could not be told apart on recovery.

impl<T: StaticPtr> StaticPtr for Option<T> {
    open spec fn wf(&self) -> bool {
        match self {
            None => true,
            Some(t) => t.wf() && t.raw_spec() != 0,
        }
    }

    open spec fn raw_spec(&self) -> usize {
        match self {
            None => 0,
            Some(t) => t.raw_spec(),
        }
    }

    open spec fn owns_pointee(&self) -> bool {
        match self {
            None => false,
            Some(t) => t.owns_pointee(),
        }
    }

    open spec fn valid_raw(v: usize) -> bool {
        v == 0 || (T::valid_raw(v) && v != 0)
    }

    open spec fn recover_spec(v: usize) -> Option<T> {
        if v == 0 {
            None
        } else {
            Some(T::recover_spec(v))
        }
    }

    proof fn raw_valid(&self) {
        match self {
            None => {},
            Some(t) => {
                t.raw_valid();
            },
        }
    }

    proof fn recover_round_trip(&self) {
        match self {
            None => {},
            Some(t) => {
                t.recover_round_trip();
            },
        }
    }

    fn transfers_ownership(&self) -> (r: bool) {
        match self {
            None => false,
            Some(t) => t.transfers_ownership(),
        }
    }

    fn into_raw(self) -> (r: usize) {
        match self {
            None => 0,
            Some(t) => t.into_raw(),
        }
    }

    fn metadata(&self) -> (m: StaticPtrMetadata<Option<T>>) {
        match self {
            None => StaticPtrMetadata::new(0),
            Some(t) => {
                let inner = t.metadata();
                StaticPtrMetadata::new(inner.ptr_value)
            },
        }
    }

    fn from_metadata(m: StaticPtrMetadata<Option<T>>) -> (r: Option<T>) {
        if m.ptr_value == 0 {
            None
        } else {
            Some(T::from_metadata(StaticPtrMetadata::new(m.ptr_value)))
        }
    }
}

impl<T: StaticPtrMut> StaticPtrMut for Option<T> {
    fn into_raw_mut(self) -> (r: usize) {
        match self {
            None => 0,
            Some(t) => t.into_raw_mut(),
        }
    }
}

/// A context recovered from the address it was erased to is the erased
/// value itself — the matching type parameter makes the erasure lossless,
/// for every context type and every well-formed value of it.
pub proof fn lemma_context_round_trip<T: StaticPtr>(x: T)
    requires
        x.wf(),
    ensures
        T::recover_spec(x.raw_spec()) == x,
{
    x.recover_round_trip();
}

/// A borrowed context never transfers ownership when erased, whether the
/// borrow is shared or exclusive; an owned context always does.
pub proof fn lemma_context_ownership(s: StaticRef, m: StaticMutRef, o: OwnedPtr)
    ensures
        !s.owns_pointee(),
        !m.owns_pointee(),
        o.owns_pointee(),
{
}

} // verus!
