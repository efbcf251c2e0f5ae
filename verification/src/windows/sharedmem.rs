//! Shared memory objects of Windows.

use crate::error::{Error, Fault};
use crate::shm::{Access, Bound, PlatformMemory, RangeArgument, Region};
use crate::windows::handles::WinHandle;
use vstd::arithmetic::div_mod::lemma_fundamental_div_mod;
use vstd::prelude::*;

verus! {

/// A shared memory object.
#[derive(PartialEq, Eq, Structural, Debug)]
pub struct SharedMem {
    pub handle: WinHandle,
    pub size: usize,
}

impl PlatformMemory for SharedMem {
    open spec fn spec_size(&self) -> usize {
        self.size
    }

    fn size(&self) -> (size: usize) {
        self.size
    }
}

/// A number in two halves, as Windows wants it.
#[derive(Clone, Copy, PartialEq, Eq, Structural, Debug)]
pub struct Halves {
    pub high: u32,
    pub low: u32,
}

impl Halves {
    /// The number.
    pub open spec fn value(self) -> int {
        self.high * 0x1_0000_0000 + self.low
    }

    /// The halves of a number.
    pub fn of(x: usize) -> (halves: Halves)
        ensures
            halves.value() == x,
    {
        let x: u64 = x as u64;
        let high: u32 = (x / 0x1_0000_0000) as u32;
        let low: u32 = (x % 0x1_0000_0000) as u32;
        Halves { high, low }
    }
}

/// A right to shared memory that a handle to it is duplicated with, or that it is mapped with.
#[derive(Clone, Copy, PartialEq, Eq, Structural, Debug)]
pub enum MapAccess {
    Read,
    Write,
    All,
}

/// What is asked of the operating system to map a part of a shared memory object.
#[derive(Clone, Copy, PartialEq, Eq, Structural, Debug)]
pub struct ViewRequest {
    pub handle: usize,
    pub raw_access: MapAccess,
    /// Where the mapping starts in the object: at a page.
    pub mapping_offset: Halves,
    /// The number of bytes to map.
    pub mapping_len: usize,
    /// Where the part that was asked for starts in the mapping.
    pub shift: usize,
    pub user_len: usize,
    pub user_offset: usize,
    pub access: Access,
}

/// A mapping of a part of a shared memory object.
#[derive(Clone, Copy, PartialEq, Eq, Structural, Debug)]
pub struct SharedMemMap {
    pub mapping_pointer: usize,
    pub mapping_len: usize,
    pub user_pointer: usize,
    pub user_len: usize,
    pub access: Access,
    pub user_offset: usize,
}

/// Where a range of the object starts.
pub open spec fn range_start(start: Bound<usize>) -> int {
    match start {
        Bound::Included(i) => i as int,
        Bound::Excluded(i) => i + 1,
        Bound::Unbounded => 0,
    }
}

/// Where a range of the object ends.
pub open spec fn range_end(end: Bound<usize>, size: usize) -> int {
    match end {
        Bound::Included(i) => i + 1,
        Bound::Excluded(i) => i as int,
        Bound::Unbounded => size as int,
    }
}

impl SharedMem {
    /// The size to create an object of, as the operating system wants it.
    pub fn size_halves(size: usize) -> (halves: Halves)
        ensures
            halves.value() == size,
    {
        Halves::of(size)
    }

    /// An object of this size, from what came of the request to create it.
    pub fn new(size: usize, handle: Result<WinHandle, Error>) -> (memory: Result<SharedMem, Error>)
        ensures
            memory == match handle {
                Ok(handle) => Ok::<SharedMem, Error>(SharedMem { handle, size }),
                Err(e) => Err(e),
            },
    {
        match handle {
            Ok(handle) => Ok(SharedMem { handle, size }),
            Err(e) => Err(e),
        }
    }

    /// A second handle to the object. `duplicate` duplicates a handle with a right to shared memory.
    pub fn clone<F: FnOnce(usize, MapAccess) -> Result<WinHandle, Error>>(
        &self,
        access: Access,
        duplicate: F,
    ) -> (memory: Result<SharedMem, Error>)
        requires
            access == Access::Read ==> duplicate.requires((self.handle.0, MapAccess::Read)),
            access == Access::ReadWrite ==> duplicate.requires((self.handle.0, MapAccess::All)),
        ensures
            ({
                let right = match access {
                    Access::Read => MapAccess::Read,
                    Access::ReadWrite => MapAccess::All,
                };
                match memory {
                    Ok(m) => duplicate.ensures((self.handle.0, right), Ok(m.handle)) && m.size == self.size,
                    Err(e) => duplicate.ensures((self.handle.0, right), Err(e)),
                }
            }),
    {
        let right = match access {
            Access::Read => MapAccess::Read,
            Access::ReadWrite => MapAccess::All,
        };
        match duplicate(self.handle.0, right) {
            Ok(handle) => Ok(SharedMem { handle, size: self.size }),
            Err(e) => Err(e),
        }
    }

    /// Works out what to ask of the operating system to map a part of the object, on a machine with pages of
    /// this size.
    pub fn map<R: RangeArgument<usize>>(&self, range: R, access: Access, page_size: usize) -> (request: Result<
        ViewRequest,
        Error,
    >)
        requires
            0 < page_size,
        ensures
            ({
                let start = range_start(range.start_bound());
                let end = range_end(range.end_bound(), self.size);
                if !(start <= end <= self.size) {
                    request == Err::<ViewRequest, Error>(Error::Fault(Fault::ViewRange))
                } else {
                    request matches Ok(r) && {
                        &&& r.handle == self.handle.0
                        &&& r.access == access
                        &&& r.raw_access == (if access == Access::Read {
                            MapAccess::Read
                        } else {
                            MapAccess::Write
                        })
                        &&& r.user_offset == start
                        &&& r.user_len == end - start
                        &&& r.mapping_offset.value() == start / page_size as int * page_size
                        &&& r.mapping_offset.value() + r.mapping_len == end
                        &&& r.valid(page_size as int)
                    }
                }
            }),
    {
        let raw_access = match access {
            Access::Read => MapAccess::Read,
            Access::ReadWrite => MapAccess::Write,
        };
        let offset: Option<usize> = match range.start() {
            Bound::Included(i) => Some(*i),
            Bound::Excluded(i) => i.checked_add(1),
            Bound::Unbounded => Some(0),
        };
        let len: Option<usize> = match offset {
            Some(offset) => match range.end() {
                Bound::Included(i) => match i.checked_add(1) {
                    Some(end) => end.checked_sub(offset),
                    None => None,
                },
                Bound::Excluded(i) => i.checked_sub(offset),
                Bound::Unbounded => self.size.checked_sub(offset),
            },
            None => None,
        };
        let (offset, len): (usize, usize) = match (offset, len) {
            (Some(offset), Some(len)) => if len <= self.size && offset <= self.size - len {
                (offset, len)
            } else {
                return Err(Error::Fault(Fault::ViewRange));
            },
            _ => return Err(Error::Fault(Fault::ViewRange)),
        };

        proof {
            lemma_page_start(offset as int, page_size as int);
        }
        let shift: usize = offset % page_size;
        let mapping_offset: usize = offset - shift;
        let mapping_len: usize = len + shift;
        Ok(
            ViewRequest {
                handle: self.handle.0,
                raw_access,
                mapping_offset: Halves::of(mapping_offset),
                mapping_len,
                shift,
                user_len: len,
                user_offset: offset,
                access,
            },
        )
    }

    /// Works out what to ask of the operating system to map the object from a place on, without regard to
    /// pages or to the end of the object. Both the start and the length are taken from the start of the
    /// range.
    pub fn map_with<R: RangeArgument<usize>>(&self, range: R, access: Access) -> (request: ViewRequest)
        requires
            range_start(range.start_bound()) <= usize::MAX,
            range_end(range.start_bound(), self.size) <= usize::MAX,
        ensures
            request.handle == self.handle.0,
            request.access == access,
            request.raw_access == (if access == Access::Read {
                MapAccess::Read
            } else {
                MapAccess::Write
            }),
            request.shift == 0,
            request.user_offset == range_start(range.start_bound()),
            request.mapping_offset.value() == range_start(range.start_bound()),
            request.mapping_len == range_end(range.start_bound(), self.size),
            request.user_len == request.mapping_len,
    {
        let raw_access = match access {
            Access::Read => MapAccess::Read,
            Access::ReadWrite => MapAccess::Write,
        };
        let offset: usize = match range.start() {
            Bound::Included(i) => *i,
            Bound::Excluded(i) => *i + 1,
            Bound::Unbounded => 0,
        };
        let len: usize = match range.start() {
            Bound::Included(i) => *i + 1,
            Bound::Excluded(i) => *i,
            Bound::Unbounded => self.size,
        };
        ViewRequest {
            handle: self.handle.0,
            raw_access,
            mapping_offset: Halves::of(offset),
            mapping_len: len,
            shift: 0,
            user_len: len,
            user_offset: offset,
            access,
        }
    }
}

/// Where the page with a byte starts.
proof fn lemma_page_start(start: int, page: int)
    requires
        0 <= start,
        0 < page,
    ensures
        start - start % page == start / page * page,
        0 <= start % page <= start,
        start % page < page,
        (start - start % page) % page == 0,
{
    lemma_fundamental_div_mod(start, page);
    assert(page * (start / page) == start / page * page) by (nonlinear_arith);
    assert(0 <= start / page * page) by (nonlinear_arith)
        requires
            0 <= start,
            0 < page,
    ;
    vstd::arithmetic::div_mod::lemma_mod_multiples_basic(start / page, page);
}

impl ViewRequest {
    /// The mapping starts at a page and covers the part that was asked for, up to its end.
    pub open spec fn valid(self, page_size: int) -> bool {
        &&& self.mapping_offset.value() % page_size == 0
        &&& self.mapping_offset.value() + self.shift == self.user_offset
        &&& self.shift < page_size
        &&& self.shift + self.user_len == self.mapping_len
    }

    /// The mapping, from what the operating system made of the request: the address of the first mapped byte.
    pub fn mapped(self, pointer: Result<usize, Error>) -> (map: Result<SharedMemMap, Error>)
        requires
            self.shift + self.user_len == self.mapping_len,
            pointer matches Ok(p) ==> p + self.mapping_len <= usize::MAX,
        ensures
            pointer matches Err(e) ==> map == Err::<SharedMemMap, Error>(e),
            pointer matches Ok(p) ==> map == Ok::<SharedMemMap, Error>(
                SharedMemMap {
                    mapping_pointer: p,
                    mapping_len: self.mapping_len,
                    user_pointer: (p + self.shift) as usize,
                    user_len: self.user_len,
                    access: self.access,
                    user_offset: self.user_offset,
                },
            ) && map->Ok_0.valid(),
    {
        match pointer {
            Ok(pointer) => Ok(
                SharedMemMap {
                    mapping_pointer: pointer,
                    mapping_len: self.mapping_len,
                    user_pointer: pointer + self.shift,
                    user_len: self.user_len,
                    access: self.access,
                    user_offset: self.user_offset,
                },
            ),
            Err(e) => Err(e),
        }
    }
}

impl SharedMemMap {
    /// The part that was asked for is the end of what is mapped.
    pub open spec fn valid(self) -> bool {
        &&& self.mapping_pointer <= self.user_pointer
        &&& self.user_pointer + self.user_len == self.mapping_pointer + self.mapping_len
        &&& self.mapping_pointer + self.mapping_len <= usize::MAX
    }

    /// The part that was asked for.
    pub fn region(&self) -> (region: Region)
        ensures
            region == (Region {
                pointer: self.user_pointer,
                len: self.user_len,
                offset: self.user_offset,
                access: self.access,
            }),
    {
        Region { pointer: self.user_pointer, len: self.user_len, offset: self.user_offset, access: self.access }
    }
}

} // verus!
