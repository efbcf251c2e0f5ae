//! Shared memory and what is laid out in it.

pub mod attempt;
pub mod laws;
pub mod protocol;
pub mod queue;

use crate::error::Error;
use crate::identity::{is_random_uuid, random_token};
use std::ops::{Range, RangeFrom, RangeFull, RangeTo};
use vstd::prelude::*;

pub use self::queue::Queue;

verus! {

/// A range that is open at its end. Its bound is read as it stands.
#[verifier::external_type_specification]
#[verifier::reject_recursive_types(Idx)]
pub struct ExRangeFrom<Idx>(RangeFrom<Idx>);

/// A range that is open at its start. Its bound is read as it stands.
#[verifier::external_type_specification]
#[verifier::reject_recursive_types(Idx)]
pub struct ExRangeTo<Idx>(RangeTo<Idx>);

/// The range without bounds.
#[verifier::external_type_specification]
pub struct ExRangeFull(RangeFull);

/// How shared memory may be used.
#[derive(Clone, Copy, PartialEq, Eq, Structural, Hash, Debug)]
pub enum Access {
    Read,
    ReadWrite,
}

/// One end of a range.
#[derive(PartialEq, Eq, Structural, Debug)]
pub enum Bound<T> {
    Included(T),
    Excluded(T),
    Unbounded,
}

impl<T> Bound<&T> {
    /// The bound itself, in place of one that refers to it.
    pub open spec fn deref(self) -> Bound<T> {
        match self {
            Bound::Included(i) => Bound::Included(*i),
            Bound::Excluded(i) => Bound::Excluded(*i),
            Bound::Unbounded => Bound::Unbounded,
        }
    }
}

/// What can be given as a range of values of type `T`.
pub trait RangeArgument<T> {
    /// Where the range starts.
    spec fn start_bound(&self) -> Bound<T>;

    /// Where the range ends.
    spec fn end_bound(&self) -> Bound<T>;

    /// Where the range starts.
    fn start(&self) -> (bound: Bound<&T>)
        ensures
            bound.deref() == self.start_bound(),
    ;

    /// Where the range ends.
    fn end(&self) -> (bound: Bound<&T>)
        ensures
            bound.deref() == self.end_bound(),
    ;
}

impl<T> RangeArgument<T> for RangeFull {
    open spec fn start_bound(&self) -> Bound<T> {
        Bound::Unbounded
    }

    open spec fn end_bound(&self) -> Bound<T> {
        Bound::Unbounded
    }

    fn start(&self) -> (bound: Bound<&T>) {
        Bound::Unbounded
    }

    fn end(&self) -> (bound: Bound<&T>) {
        Bound::Unbounded
    }
}

impl<T> RangeArgument<T> for RangeFrom<T> {
    open spec fn start_bound(&self) -> Bound<T> {
        Bound::Included(self.start)
    }

    open spec fn end_bound(&self) -> Bound<T> {
        Bound::Unbounded
    }

    fn start(&self) -> (bound: Bound<&T>) {
        Bound::Included(&self.start)
    }

    fn end(&self) -> (bound: Bound<&T>) {
        Bound::Unbounded
    }
}

impl<T> RangeArgument<T> for RangeTo<T> {
    open spec fn start_bound(&self) -> Bound<T> {
        Bound::Unbounded
    }

    open spec fn end_bound(&self) -> Bound<T> {
        Bound::Excluded(self.end)
    }

    fn start(&self) -> (bound: Bound<&T>) {
        Bound::Unbounded
    }

    fn end(&self) -> (bound: Bound<&T>) {
        Bound::Excluded(&self.end)
    }
}

impl<T> RangeArgument<T> for Range<T> {
    open spec fn start_bound(&self) -> Bound<T> {
        Bound::Included(self.start)
    }

    open spec fn end_bound(&self) -> Bound<T> {
        Bound::Excluded(self.end)
    }

    fn start(&self) -> (bound: Bound<&T>) {
        Bound::Included(&self.start)
    }

    fn end(&self) -> (bound: Bound<&T>) {
        Bound::Excluded(&self.end)
    }
}

/// A shared memory object of an operating system.
pub trait PlatformMemory {
    /// The number of bytes that it holds.
    spec fn spec_size(&self) -> usize;

    /// The number of bytes that it holds.
    fn size(&self) -> (size: usize)
        ensures
            size == self.spec_size(),
    ;
}

/// A shared memory object, with a token that every copy of it keeps.
///
/// The token is what handles to objects laid out in the memory carry, so that they can be matched
/// with the memory when both reach another process.
#[derive(Debug)]
pub struct SharedMem<P> {
    pub inner: P,
    pub token: u128,
}

/// The part of a shared memory object that is mapped into this process.
#[derive(Clone, Copy, PartialEq, Eq, Structural, Debug)]
pub struct Region {
    /// The address of the first mapped byte.
    pub pointer: usize,
    /// The number of mapped bytes.
    pub len: usize,
    /// The place of the first mapped byte in the shared memory object.
    pub offset: usize,
    /// What the mapping may be used for.
    pub access: Access,
}

impl Region {
    /// The region fits into the address space and into what a place in memory can say.
    pub open spec fn valid(self) -> bool {
        &&& self.pointer + self.len <= usize::MAX
        &&& self.offset + self.len <= usize::MAX
    }
}

/// A mapping of a shared memory object.
#[derive(Clone, Copy, PartialEq, Eq, Structural, Debug)]
pub struct SharedMemMap {
    pub region: Region,
    pub token: u128,
}

impl<P: PlatformMemory> SharedMem<P> {
    /// A new object of this size, with a token that is drawn at random. `create` has the operating system create an
    /// object.
    pub fn new<F: FnOnce(usize) -> Result<P, Error>>(size: usize, create: F) -> (memory: Result<SharedMem<P>, Error>)
        requires
            create.requires((size,)),
        ensures
            match memory {
                Ok(m) => create.ensures((size,), Ok(m.inner)) && is_random_uuid(m.token),
                Err(e) => create.ensures((size,), Err(e)),
            },
    {
        match create(size) {
            Ok(inner) => Ok(SharedMem { inner, token: random_token() }),
            Err(e) => Err(e),
        }
    }

    /// The number of bytes that the object holds.
    pub fn size(&self) -> (size: usize)
        ensures
            size == self.inner.spec_size(),
    {
        self.inner.size()
    }

    /// A second handle to the object, with its token. `clone` has the operating system make one.
    pub fn clone_with_access<F: FnOnce(&P, Access) -> Result<P, Error>>(
        &self,
        access: Access,
        clone: F,
    ) -> (memory: Result<SharedMem<P>, Error>)
        requires
            clone.requires((&self.inner, access)),
        ensures
            match memory {
                Ok(m) => clone.ensures((&self.inner, access), Ok(m.inner)) && m.token == self.token,
                Err(e) => clone.ensures((&self.inner, access), Err(e)),
            },
    {
        match clone(&self.inner, access) {
            Ok(inner) => Ok(SharedMem { inner, token: self.token }),
            Err(e) => Err(e),
        }
    }

    /// A mapping of a part of the object, with its token. `map` has the operating system map a part.
    pub fn map<R: RangeArgument<usize>, F: FnOnce(&P, R, Access) -> Result<Region, Error>>(
        &self,
        range: R,
        access: Access,
        map: F,
    ) -> (mapping: Result<SharedMemMap, Error>)
        requires
            map.requires((&self.inner, range, access)),
        ensures
            match mapping {
                Ok(m) => map.ensures((&self.inner, range, access), Ok(m.region)) && m.token == self.token,
                Err(e) => map.ensures((&self.inner, range, access), Err(e)),
            },
    {
        match map(&self.inner, range, access) {
            Ok(region) => Ok(SharedMemMap { region, token: self.token }),
            Err(e) => Err(e),
        }
    }
}

impl SharedMemMap {
    /// The mapping is one that an operating system can have made.
    pub open spec fn valid(self) -> bool {
        self.region.valid()
    }

    /// The address of the first mapped byte.
    pub fn pointer(&self) -> (pointer: usize)
        ensures
            pointer == self.region.pointer,
    {
        self.region.pointer
    }

    /// The number of mapped bytes.
    pub fn len(&self) -> (len: usize)
        ensures
            len == self.region.len,
    {
        self.region.len
    }

    /// What the mapping may be used for.
    pub fn access(&self) -> (access: Access)
        ensures
            access == self.region.access,
    {
        self.region.access
    }

    /// The place of the first mapped byte in the shared memory object.
    pub fn offset(&self) -> (offset: usize)
        ensures
            offset == self.region.offset,
    {
        self.region.offset
    }

    /// The token of the shared memory object.
    pub fn token(&self) -> (token: u128)
        ensures
            token == self.token,
    {
        self.token
    }
}

} // verus!
