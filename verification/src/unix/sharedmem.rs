//! Shared memory objects of Unix.

use crate::error::{Error, Fault};
use crate::identity::{is_random_uuid, new_shared_memory_name, spec_shared_memory_name};
use crate::layout::{lemma_round_up, round_up};
use crate::shm::{Access, Bound, PlatformMemory, RangeArgument, Region};
use crate::step::{Reply, Step};
use crate::unix::fd::ScopedFd;
use vstd::arithmetic::div_mod::lemma_fundamental_div_mod;
use vstd::prelude::*;

verus! {

/// A shared memory object, open for reading and, unless the handle is read-only, for writing.
#[derive(PartialEq, Eq, Structural, Debug)]
pub struct SharedMem {
    pub rw_fd: Option<ScopedFd>,
    pub ro_fd: ScopedFd,
    pub size: usize,
}

impl PlatformMemory for SharedMem {
    open spec fn spec_size(&self) -> usize {
        self.size
    }

    fn size(&self) -> (size: usize) {
        self.size
    }
}

/// How a name is opened.
#[derive(Clone, Copy, PartialEq, Eq, Structural, Debug)]
pub enum OpenMode {
    /// For reading and writing, creating an object that must not exist yet.
    CreateReadWrite,
    /// For reading.
    ReadOnly,
}

/// Why a shared memory object could not be created, and the descriptors that are to be closed for it.
#[derive(Debug)]
pub struct CreationFailure {
    pub error: Error,
    pub close: Vec<ScopedFd>,
}

/// The replies to the calls that create a shared memory object.
#[derive(Clone, Copy, PartialEq, Eq, Structural, Debug)]
pub struct CreationReplies {
    /// To opening the name for reading and writing.
    pub read_write: Reply,
    /// To opening the name for reading.
    pub read_only: Reply,
    /// To removing the name.
    pub unlink: Reply,
    /// To setting the size of the object.
    pub truncate: Reply,
}

impl CreationReplies {
    /// What the creation of an object of this size comes to. The first failure decides, and has the descriptors
    /// closed that were opened before it.
    pub open spec fn outcome(self, size: usize) -> Result<SharedMem, (Error, Seq<ScopedFd>)> {
        let rw_fd = ScopedFd(self.read_write.value);
        let ro_fd = ScopedFd(self.read_only.value);
        if self.read_write.value < 0 {
            Err((Error::Os(self.read_write.errno), Seq::empty()))
        } else if self.read_only.value < 0 {
            Err((Error::Os(self.read_only.errno), seq![rw_fd]))
        } else if self.unlink.value < 0 {
            Err((Error::Os(self.unlink.errno), seq![rw_fd, ro_fd]))
        } else if self.truncate.value < 0 {
            Err((Error::Os(self.truncate.errno), seq![rw_fd, ro_fd]))
        } else {
            Ok(SharedMem { rw_fd: Some(rw_fd), ro_fd, size })
        }
    }
}

/// These are the replies to the calls that create an object of this size under a fresh name, as far as they were
/// made.
pub open spec fn created_by<O, U, T>(
    open: O,
    unlink: U,
    truncate: T,
    size: usize,
    name: String,
    replies: CreationReplies,
) -> bool where
    O: Fn(&String, OpenMode) -> Reply,
    U: FnOnce(&String) -> Reply,
    T: FnOnce(i32, usize) -> Reply,
 {
    &&& exists|id: u128| is_random_uuid(id) && name@ == #[trigger] spec_shared_memory_name(id)
    &&& open.ensures((&name, OpenMode::CreateReadWrite), replies.read_write)
    &&& replies.read_write.value >= 0 ==> open.ensures((&name, OpenMode::ReadOnly), replies.read_only)
    &&& replies.read_write.value >= 0 && replies.read_only.value >= 0 ==> unlink.ensures((&name,), replies.unlink)
    &&& replies.read_write.value >= 0 && replies.read_only.value >= 0 && replies.unlink.value >= 0
        ==> truncate.ensures((replies.read_write.value, size), replies.truncate)
}

impl SharedMem {
    /// Creates an object of this size, under a fresh name that is removed once the object is open.
    ///
    /// `open` opens a name, `unlink` removes one, and `truncate` sets the size of the object behind a descriptor.
    pub fn new<O, U, T>(size: usize, open: O, unlink: U, truncate: T) -> (memory: Result<
        SharedMem,
        CreationFailure,
    >) where
        O: Fn(&String, OpenMode) -> Reply,
        U: FnOnce(&String) -> Reply,
        T: FnOnce(i32, usize) -> Reply,

        requires
            forall|name: &String| open.requires((name, OpenMode::CreateReadWrite)),
            forall|name: &String, created: Reply| #[trigger]
                open.ensures((name, OpenMode::CreateReadWrite), created) && created.value >= 0 ==> open.requires(
                    (name, OpenMode::ReadOnly),
                ),
            forall|name: &String, opened: Reply| #[trigger]
                open.ensures((name, OpenMode::ReadOnly), opened) && opened.value >= 0 ==> unlink.requires((name,)),
            forall|name: &String, unlinked: Reply, fd: i32|
                #![trigger unlink.ensures((name,), unlinked), truncate.requires((fd, size))]
                unlink.ensures((name,), unlinked) && unlinked.value >= 0 ==> truncate.requires((fd, size)),
        ensures
            exists|name: String, replies: CreationReplies| #[trigger]
                created_by(open, unlink, truncate, size, name, replies) && match memory {
                    Ok(m) => replies.outcome(size) == Ok::<SharedMem, (Error, Seq<ScopedFd>)>(m),
                    Err(failure) => replies.outcome(size) == Err::<SharedMem, (Error, Seq<ScopedFd>)>(
                        (failure.error, failure.close@),
                    ),
                },
    {
        let name = new_shared_memory_name();
        let ghost unused = Reply { value: 0, errno: 0 };
        let ghost mut replies = CreationReplies {
            read_write: unused,
            read_only: unused,
            unlink: unused,
            truncate: unused,
        };
        let mut close: Vec<ScopedFd> = Vec::new();
        let read_write = open(&name, OpenMode::CreateReadWrite);
        proof {
            replies.read_write = read_write;
        }
        if read_write.value < 0 {
            assert(created_by(open, unlink, truncate, size, name, replies));
            return Err(CreationFailure { error: Error::Os(read_write.errno), close });
        }
        close.push(ScopedFd(read_write.value));
        let read_only = open(&name, OpenMode::ReadOnly);
        proof {
            replies.read_only = read_only;
        }
        if read_only.value < 0 {
            assert(created_by(open, unlink, truncate, size, name, replies));
            return Err(CreationFailure { error: Error::Os(read_only.errno), close });
        }
        close.push(ScopedFd(read_only.value));
        assert(close@ =~= seq![ScopedFd(read_write.value), ScopedFd(read_only.value)]);
        let unlinked = unlink(&name);
        proof {
            replies.unlink = unlinked;
        }
        if unlinked.value < 0 {
            assert(created_by(open, unlink, truncate, size, name, replies));
            return Err(CreationFailure { error: Error::Os(unlinked.errno), close });
        }
        let truncated = truncate(read_write.value, size);
        proof {
            replies.truncate = truncated;
        }
        assert(created_by(open, unlink, truncate, size, name, replies));
        if truncated.value < 0 {
            return Err(CreationFailure { error: Error::Os(truncated.errno), close });
        }
        Ok(
            SharedMem {
                rw_fd: Some(ScopedFd(read_write.value)),
                ro_fd: ScopedFd(read_only.value),
                size,
            },
        )
    }
}

/// The making of a second handle to a shared memory object.
#[derive(PartialEq, Eq, Structural, Debug)]
pub enum Cloning {
    /// The descriptor for writing is to be duplicated.
    DuplicateReadWrite { rw_fd: i32, ro_fd: i32, size: usize },
    /// The descriptor for reading is to be duplicated.
    DuplicateReadOnly { duplicate: Option<ScopedFd>, ro_fd: i32, size: usize },
}

impl Cloning {
    /// The descriptor that is to be duplicated.
    pub open spec fn spec_call(self) -> i32 {
        match self {
            Cloning::DuplicateReadWrite { rw_fd, .. } => rw_fd,
            Cloning::DuplicateReadOnly { ro_fd, .. } => ro_fd,
        }
    }

    /// What comes of the making after a reply. A negative value says that there is no duplicate.
    pub open spec fn spec_reply(self, reply: Reply) -> Step<Cloning, SharedMem> {
        if reply.value < 0 {
            Step::Done(Err(Error::Os(reply.errno)))
        } else {
            match self {
                Cloning::DuplicateReadWrite { rw_fd, ro_fd, size } => Step::Next(
                    Cloning::DuplicateReadOnly { duplicate: Some(ScopedFd(reply.value)), ro_fd, size },
                ),
                Cloning::DuplicateReadOnly { duplicate, ro_fd, size } => Step::Done(
                    Ok(SharedMem { rw_fd: duplicate, ro_fd: ScopedFd(reply.value), size }),
                ),
            }
        }
    }

    /// The descriptor that is to be duplicated.
    pub fn call(&self) -> (fd: i32)
        ensures
            fd == self.spec_call(),
    {
        match self {
            Cloning::DuplicateReadWrite { rw_fd, .. } => *rw_fd,
            Cloning::DuplicateReadOnly { ro_fd, .. } => *ro_fd,
        }
    }

    /// Moves on with the duplicate. A negative value says that there is none.
    pub fn reply(self, reply: Reply) -> (step: Step<Cloning, SharedMem>)
        ensures
            step == self.spec_reply(reply),
    {
        if reply.value < 0 {
            return Step::Done(Err(Error::Os(reply.errno)));
        }
        match self {
            Cloning::DuplicateReadWrite { rw_fd: _, ro_fd, size } => Step::Next(
                Cloning::DuplicateReadOnly { duplicate: Some(ScopedFd(reply.value)), ro_fd, size },
            ),
            Cloning::DuplicateReadOnly { duplicate, ro_fd: _, size } => Step::Done(
                Ok(SharedMem { rw_fd: duplicate, ro_fd: ScopedFd(reply.value), size }),
            ),
        }
    }
}

/// A handle that was made for reading stays that way: neither it nor any handle that is made from it can be used to
/// get one for writing.
pub proof fn read_only_handle_stays_read_only(memory: SharedMem, reply: Reply)
    requires
        reply.value >= 0,
    ensures
        memory.spec_clone(Access::Read) matches Ok(cloning) && (cloning.spec_reply(reply) matches Step::Done(Ok(copy))
            && copy.size == memory.size && copy.rw_fd is None && copy.spec_clone(Access::ReadWrite) == Err::<
            Cloning,
            Error,
        >(Error::Fault(Fault::MemoryReadOnly))),
        memory.rw_fd is None ==> memory.spec_clone(Access::ReadWrite) is Err,
{
}

/// What is asked of the operating system to map a part of a shared memory object.
#[derive(Clone, Copy, PartialEq, Eq, Structural, Debug)]
pub struct MapRequest {
    /// The descriptor of the object.
    pub fd: i32,
    /// What the mapping may be used for.
    pub access: Access,
    /// Where the mapping starts in the object: at a page.
    pub mapping_offset: usize,
    /// The number of bytes to map: whole pages.
    pub mapping_len: usize,
    /// Where the part that was asked for starts in the object.
    pub user_offset: usize,
    /// The number of bytes that were asked for.
    pub user_len: usize,
}

/// A mapping of a part of a shared memory object.
#[derive(Clone, Copy, PartialEq, Eq, Structural, Debug)]
pub struct SharedMemMap {
    pub mapping_pointer: usize,
    pub user_pointer: usize,
    pub mapping_len: usize,
    pub user_len: usize,
    pub mapping_offset: usize,
    pub user_offset: usize,
    pub access: Access,
}

/// Where a mapping of this range starts.
pub open spec fn window_start(start: Bound<usize>) -> int {
    match start {
        Bound::Included(i) => i as int,
        Bound::Excluded(i) => i + 1,
        Bound::Unbounded => 0,
    }
}

/// Where a mapping of this range ends. Both ends are taken from the start bound of the range: a
/// mapping that starts at a given byte holds just that byte, and one without a start bound holds the
/// whole object.
pub open spec fn window_end(start: Bound<usize>, size: usize) -> int {
    match start {
        Bound::Included(i) => i + 1,
        Bound::Excluded(i) => i as int,
        Bound::Unbounded => size as int,
    }
}

impl SharedMem {
    /// How the making of a second handle to the object starts.
    pub open spec fn spec_clone(self, access: Access) -> Result<Cloning, Error> {
        match (access, self.rw_fd) {
            (Access::Read, _) => Ok(
                Cloning::DuplicateReadOnly { duplicate: None, ro_fd: self.ro_fd.0, size: self.size },
            ),
            (Access::ReadWrite, Some(rw_fd)) => Ok(
                Cloning::DuplicateReadWrite { rw_fd: rw_fd.0, ro_fd: self.ro_fd.0, size: self.size },
            ),
            (Access::ReadWrite, None) => Err(Error::Fault(Fault::MemoryReadOnly)),
        }
    }

    /// Starts to make a second handle to the object. A handle that cannot write cannot give one that
    /// can.
    pub fn clone(&self, access: Access) -> (cloning: Result<Cloning, Error>)
        ensures
            cloning == self.spec_clone(access),
    {
        match access {
            Access::Read => Ok(
                Cloning::DuplicateReadOnly { duplicate: None, ro_fd: self.ro_fd.0, size: self.size },
            ),
            Access::ReadWrite => match &self.rw_fd {
                Some(rw_fd) => Ok(
                    Cloning::DuplicateReadWrite { rw_fd: rw_fd.0, ro_fd: self.ro_fd.0, size: self.size },
                ),
                None => Err(Error::Fault(Fault::MemoryReadOnly)),
            },
        }
    }

    /// Works out what to ask of the operating system to map a part of the object, on a machine with
    /// pages of this size.
    pub fn map<R: RangeArgument<usize>>(&self, range: R, access: Access, page_size: usize) -> (request: Result<
        MapRequest,
        Error,
    >)
        requires
            0 < page_size,
            round_up(self.size as int, page_size as int) <= usize::MAX,
        ensures
            ({
                let start = window_start(range.start_bound());
                let end = window_end(range.start_bound(), self.size);
                if access == Access::ReadWrite && self.rw_fd is None {
                    request == Err::<MapRequest, Error>(Error::Fault(Fault::MemoryReadOnly))
                } else if !(start <= end <= self.size) {
                    request == Err::<MapRequest, Error>(Error::Fault(Fault::MapRange))
                } else {
                    request matches Ok(r) && {
                        &&& r.fd == (if access == Access::Read {
                            self.ro_fd.0
                        } else {
                            (self.rw_fd->0).0
                        })
                        &&& r.access == access
                        &&& r.user_offset == start
                        &&& r.user_len == end - start
                        &&& r.mapping_offset == start / page_size as int * page_size
                        &&& r.mapping_offset + r.mapping_len == round_up(end, page_size as int)
                        &&& r.valid(page_size as int)
                    }
                }
            }),
    {
        let fd: i32 = match access {
            Access::Read => self.ro_fd.0,
            Access::ReadWrite => match &self.rw_fd {
                Some(rw_fd) => rw_fd.0,
                None => return Err(Error::Fault(Fault::MemoryReadOnly)),
            },
        };

        let offset: Option<usize> = match range.start() {
            Bound::Included(i) => Some(*i),
            Bound::Excluded(i) => i.checked_add(1),
            Bound::Unbounded => Some(0),
        };
        let end: Option<usize> = match range.start() {
            Bound::Included(i) => i.checked_add(1),
            Bound::Excluded(i) => Some(*i),
            Bound::Unbounded => Some(self.size),
        };
        let (offset, end): (usize, usize) = match (offset, end) {
            (Some(offset), Some(end)) => if offset <= end && end <= self.size {
                (offset, end)
            } else {
                return Err(Error::Fault(Fault::MapRange));
            },
            _ => return Err(Error::Fault(Fault::MapRange)),
        };

        proof {
            lemma_page_window(offset as int, end as int, self.size as int, page_size as int);
        }
        let user_offset_shift: usize = offset % page_size;
        let user_end_shift: usize = match end % page_size {
            0 => 0,
            x => page_size - x,
        };
        let mapping_offset: usize = offset - user_offset_shift;
        let mapping_len: usize = end + user_end_shift - mapping_offset;

        Ok(
            MapRequest {
                fd,
                access,
                mapping_offset,
                mapping_len,
                user_offset: offset,
                user_len: end - offset,
            },
        )
    }
}

impl SharedMem {
    /// Works out what to ask of the operating system to map the object from a place on, without regard
    /// to pages or to the end of the object: a mapping that starts behind the first byte has as many
    /// bytes as lie up to its start and the byte there.
    pub fn map_with<R: RangeArgument<usize>>(&self, range: R, access: Access) -> (request: Result<MapRequest, Error>)
        requires
            window_start(range.start_bound()) <= usize::MAX,
            window_end(range.start_bound(), self.size) <= usize::MAX,
        ensures
            request == (if access == Access::ReadWrite && self.rw_fd is None {
                Err::<MapRequest, Error>(Error::Fault(Fault::MemoryReadOnly))
            } else {
                let offset = window_start(range.start_bound()) as usize;
                let len = window_end(range.start_bound(), self.size) as usize;
                Ok(
                    MapRequest {
                        fd: if access == Access::Read {
                            self.ro_fd.0
                        } else {
                            (self.rw_fd->0).0
                        },
                        access,
                        mapping_offset: offset,
                        mapping_len: len,
                        user_offset: offset,
                        user_len: len,
                    },
                )
            }),
    {
        let fd: i32 = match access {
            Access::Read => self.ro_fd.0,
            Access::ReadWrite => match &self.rw_fd {
                Some(rw_fd) => rw_fd.0,
                None => return Err(Error::Fault(Fault::MemoryReadOnly)),
            },
        };
        let offset: usize = match range.start() {
            Bound::Included(i) => *i,
            Bound::Excluded(i) => *i + 1,
            Bound::Unbounded => 0,
        };
        let len: usize = match range.start() {
            Bound::Included(i) => *i + 1,
            Bound::Excluded(i) => *i,
            Bound::Unbounded => self.size,
        };
        Ok(
            MapRequest {
                fd,
                access,
                mapping_offset: offset,
                mapping_len: len,
                user_offset: offset,
                user_len: len,
            },
        )
    }
}

/// Where the pages of a window start and end.
proof fn lemma_page_window(start: int, end: int, size: int, page: int)
    requires
        0 <= start <= end <= size,
        0 < page,
    ensures
        start - start % page == start / page * page,
        0 <= start % page <= start,
        end + (if end % page == 0 {
            0
        } else {
            page - end % page
        }) == round_up(end, page),
        round_up(end, page) <= round_up(size, page),
        round_up(end, page) % page == 0,
        (start - start % page) % page == 0,
        end <= round_up(end, page) < end + page,
{
    lemma_fundamental_div_mod(start, page);
    lemma_fundamental_div_mod(end, page);
    lemma_round_up(end, page);
    assert(page * (start / page) == start / page * page) by (nonlinear_arith);
    assert(0 <= start / page * page) by (nonlinear_arith)
        requires
            0 <= start,
            0 < page,
    ;
    vstd::arithmetic::div_mod::lemma_mod_multiples_basic(start / page, page);
    vstd::arithmetic::div_mod::lemma_div_is_ordered(end + page - 1, size + page - 1, page);
    assert((end + page - 1) / page * page <= (size + page - 1) / page * page) by (nonlinear_arith)
        requires
            (end + page - 1) / page <= (size + page - 1) / page,
            0 < page,
    ;
    let up = if end % page == 0 {
        0
    } else {
        page - end % page
    };
    // Both are the one multiple of a page that is not below the end and less than a page above it.
    let a = (end + up) / page;
    assert((end + up) % page == 0) by {
        if end % page != 0 {
            assert(end + up == page * (end / page + 1)) by (nonlinear_arith)
                requires
                    end == page * (end / page) + end % page,
                    up == page - end % page,
            ;
            vstd::arithmetic::div_mod::lemma_mod_multiples_basic(end / page + 1, page);
            assert(page * (end / page + 1) == (end / page + 1) * page) by (nonlinear_arith);
        }
    }
    lemma_fundamental_div_mod(end + up, page);
    lemma_fundamental_div_mod(round_up(end, page), page);
    let b = round_up(end, page) / page;
    assert(page * a == page * b) by (nonlinear_arith)
        requires
            0 < page,
            end <= page * a < end + page,
            end <= page * b < end + page,
    ;
}

impl MapRequest {
    /// The mapping is made of whole pages and covers the part that was asked for.
    pub open spec fn valid(self, page_size: int) -> bool {
        &&& self.mapping_offset as int % page_size == 0
        &&& (self.mapping_offset + self.mapping_len) % page_size == 0
        &&& self.mapping_offset <= self.user_offset < self.mapping_offset + page_size
        &&& self.user_offset + self.user_len <= self.mapping_offset + self.mapping_len
            < self.user_offset + self.user_len + page_size
    }

    /// The mapping, from what the operating system made of the request: the address of the first
    /// mapped byte.
    pub fn mapped(self, pointer: Result<usize, Error>) -> (map: Result<SharedMemMap, Error>)
        requires
            self.mapping_offset <= self.user_offset,
            self.user_offset + self.user_len <= self.mapping_offset + self.mapping_len <= usize::MAX,
            pointer matches Ok(p) ==> p + self.mapping_len <= usize::MAX,
        ensures
            pointer matches Err(e) ==> map == Err::<SharedMemMap, Error>(e),
            pointer matches Ok(p) ==> map == Ok::<SharedMemMap, Error>(
                SharedMemMap {
                    mapping_pointer: p,
                    user_pointer: (p + (self.user_offset - self.mapping_offset)) as usize,
                    mapping_len: self.mapping_len,
                    user_len: self.user_len,
                    mapping_offset: self.mapping_offset,
                    user_offset: self.user_offset,
                    access: self.access,
                },
            ) && map->Ok_0.valid(),
    {
        match pointer {
            Ok(pointer) => Ok(
                SharedMemMap {
                    mapping_pointer: pointer,
                    user_pointer: pointer + (self.user_offset - self.mapping_offset),
                    mapping_len: self.mapping_len,
                    user_len: self.user_len,
                    mapping_offset: self.mapping_offset,
                    user_offset: self.user_offset,
                    access: self.access,
                },
            ),
            Err(e) => Err(e),
        }
    }
}

impl SharedMemMap {
    /// The part that was asked for lies within what is mapped, at the same place.
    pub open spec fn valid(self) -> bool {
        &&& self.mapping_pointer + self.mapping_len <= usize::MAX
        &&& self.mapping_offset + self.mapping_len <= usize::MAX
        &&& self.mapping_pointer <= self.user_pointer
        &&& self.user_pointer - self.mapping_pointer == self.user_offset - self.mapping_offset
        &&& self.user_pointer + self.user_len <= self.mapping_pointer + self.mapping_len
    }

    /// The part that was asked for.
    pub fn region(&self) -> (region: Region)
        requires
            self.valid(),
        ensures
            region == (Region {
                pointer: self.user_pointer,
                len: self.user_len,
                offset: self.user_offset,
                access: self.access,
            }),
            region.valid(),
    {
        Region { pointer: self.user_pointer, len: self.user_len, offset: self.user_offset, access: self.access }
    }
}

impl SharedMemMap {
    /// What removing the mapping comes to. The whole of what is mapped is to be removed.
    pub fn unmap(self, reply: Reply) -> (result: Result<(), Error>)
        ensures
            result == (if reply.value < 0 {
                Err::<(), Error>(Error::Os(reply.errno))
            } else {
                Ok(())
            }),
    {
        if reply.value < 0 {
            return Err(Error::Os(reply.errno));
        }
        Ok(())
    }
}

} // verus!
