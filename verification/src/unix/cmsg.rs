//! The control message that carries file descriptors alongside the bytes of a message.

use crate::layout::{align, lemma_round_up, round_up, USIZE_SIZE};
use vstd::prelude::*;

verus! {

/// The number of bytes that a file descriptor takes.
pub const FD_SIZE: usize = 4;

/// The number of bytes that a run of `length` bytes takes once padded to a whole number of words.
pub open spec fn spec_cmsg_align(length: int) -> int {
    round_up(length, USIZE_SIZE as int)
}

/// The length of a control message of `length` bytes, behind a header of `header_size` bytes.
pub open spec fn spec_cmsg_len(header_size: int, length: int) -> int {
    spec_cmsg_align(header_size) + length
}

/// The room that a control message of `length` bytes takes, behind a header of `header_size` bytes.
pub open spec fn spec_cmsg_space(header_size: int, length: int) -> int {
    spec_cmsg_align(length) + spec_cmsg_align(header_size)
}

/// The size of a word is a power of two.
proof fn lemma_word_is_power_of_two()
    ensures
        exists|n: nat| n < usize::BITS && USIZE_SIZE == #[trigger] vstd::arithmetic::power2::pow2(n),
        USIZE_SIZE == 4 || USIZE_SIZE == 8,
{
    vstd::arithmetic::power2::lemma2_to64();
    if USIZE_SIZE == 4 {
        assert(USIZE_SIZE == vstd::arithmetic::power2::pow2(2));
    } else {
        assert(USIZE_SIZE == vstd::arithmetic::power2::pow2(3));
    }
}

/// The number of bytes that a run of `length` bytes takes once padded to a whole number of words.
pub fn cmsg_align(length: usize) -> (aligned: usize)
    requires
        length + USIZE_SIZE <= usize::MAX + 1,
    ensures
        aligned == spec_cmsg_align(length as int),
{
    proof {
        lemma_word_is_power_of_two();
        assert(round_up(0, USIZE_SIZE as int) == 0) by {
            lemma_round_up(0, USIZE_SIZE as int);
        }
    }
    align(length, USIZE_SIZE)
}

/// The length of a control message of `length` bytes, behind a header of `header_size` bytes.
pub fn cmsg_len(header_size: usize, length: usize) -> (len: usize)
    requires
        header_size + USIZE_SIZE + length <= usize::MAX,
    ensures
        len == spec_cmsg_len(header_size as int, length as int),
{
    proof {
        lemma_round_up(header_size as int, USIZE_SIZE as int);
    }
    cmsg_align(header_size) + length
}

/// The room that a control message of `length` bytes takes, behind a header of `header_size` bytes.
pub fn cmsg_space(header_size: usize, length: usize) -> (space: usize)
    requires
        header_size + USIZE_SIZE + length + USIZE_SIZE <= usize::MAX,
    ensures
        space == spec_cmsg_space(header_size as int, length as int),
        spec_cmsg_len(header_size as int, length as int) <= space,
{
    proof {
        lemma_round_up(header_size as int, USIZE_SIZE as int);
        lemma_round_up(length as int, USIZE_SIZE as int);
    }
    cmsg_align(length) + cmsg_align(header_size)
}

/// The greatest number of bytes that the header of a control message takes on any platform.
pub const HEADER_SIZE_BOUND: usize = 16;

/// The number of bytes that the header of a control message takes on this platform: the size of
/// `libc::cmsghdr`.
///
/// What is claimed is a range that holds on every platform. The header is a length and two integers of
/// four bytes, and the length takes four or eight bytes.
#[verifier::external_body]
fn cmsghdr_size() -> (size: usize)
    ensures
        12 <= size <= HEADER_SIZE_BOUND,
{
    core::mem::size_of::<libc::cmsghdr>()
}

/// A control message with room for a fixed number of file descriptors.
///
/// What the operating system reads and writes is a header, which declares the length of the message,
/// and the descriptors behind it.
#[derive(Debug)]
pub struct Cmsg {
    /// The number of bytes that the header takes on this platform.
    header_size: usize,
    /// The number of descriptors that there is room for.
    fd_count: usize,
    /// The declared length, header included.
    declared_len: usize,
    /// The length that the operating system is told along with the whole message.
    controllen: usize,
    /// The room for the descriptors.
    slots: Vec<i32>,
}

impl Cmsg {
    /// The number of bytes that the header takes.
    pub closed spec fn spec_header_size(&self) -> usize {
        self.header_size
    }

    /// The number of descriptors that there is room for.
    pub closed spec fn capacity(&self) -> usize {
        self.fd_count
    }

    /// The room for the descriptors.
    pub closed spec fn spec_slots(&self) -> Seq<i32> {
        self.slots@
    }

    /// The declared length, header included.
    pub closed spec fn spec_declared_len(&self) -> usize {
        self.declared_len
    }

    /// The length that the operating system is told along with the whole message.
    pub closed spec fn spec_controllen(&self) -> usize {
        self.controllen
    }

    /// The number of descriptors that the declared length stands for.
    pub open spec fn count(&self) -> int {
        (self.spec_declared_len() - spec_cmsg_align(self.spec_header_size() as int)) / FD_SIZE as int
    }

    /// The descriptors that the message carries.
    pub open spec fn carried(&self) -> Seq<i32> {
        self.spec_slots().take(self.count())
    }

    /// The declared length covers the header and does not reach behind the room for descriptors.
    pub open spec fn valid(&self) -> bool {
        &&& self.spec_slots().len() == self.capacity()
        &&& self.spec_header_size() + USIZE_SIZE + FD_SIZE * self.capacity() + USIZE_SIZE <= usize::MAX
        &&& spec_cmsg_align(self.spec_header_size() as int) <= self.spec_declared_len()
        &&& self.count() <= self.capacity()
    }

    /// A control message, as this platform lays it out, that declares as many descriptors as it has room
    /// for, all of them zero.
    pub fn new(fd_count: usize) -> (cmsg: Cmsg)
        requires
            HEADER_SIZE_BOUND + USIZE_SIZE + FD_SIZE * fd_count + USIZE_SIZE <= usize::MAX,
        ensures
            cmsg.valid(),
            cmsg.spec_header_size() <= HEADER_SIZE_BOUND,
            cmsg.capacity() == fd_count,
            cmsg.count() == fd_count,
            cmsg.spec_slots() == Seq::new(fd_count as nat, |i: int| 0i32),
            cmsg.spec_declared_len() == spec_cmsg_len(cmsg.spec_header_size() as int, FD_SIZE * fd_count),
            cmsg.spec_controllen() == cmsg.spec_declared_len(),
    {
        Self::with_header_size(fd_count, cmsghdr_size())
    }

    /// A control message behind a header of `header_size` bytes that declares as many descriptors as it
    /// has room for, all of them zero.
    pub fn with_header_size(fd_count: usize, header_size: usize) -> (cmsg: Cmsg)
        requires
            header_size + USIZE_SIZE + FD_SIZE * fd_count + USIZE_SIZE <= usize::MAX,
        ensures
            cmsg.valid(),
            cmsg.spec_header_size() == header_size,
            cmsg.capacity() == fd_count,
            cmsg.count() == fd_count,
            cmsg.spec_slots() == Seq::new(fd_count as nat, |i: int| 0i32),
            cmsg.spec_declared_len() == spec_cmsg_len(header_size as int, FD_SIZE * fd_count),
            cmsg.spec_controllen() == cmsg.spec_declared_len(),
    {
        let fd_payload_size: usize = FD_SIZE * fd_count;
        let mut slots: Vec<i32> = Vec::new();
        let mut i: usize = 0;
        while i < fd_count
            invariant
                i <= fd_count,
                slots@ == Seq::new(i as nat, |k: int| 0i32),
            decreases fd_count - i,
        {
            slots.push(0);
            i = i + 1;
        }
        let declared_len: usize = cmsg_len(header_size, fd_payload_size);
        Cmsg { header_size, fd_count, declared_len, controllen: declared_len, slots }
    }

    /// The number of bytes of memory that the operating system is given for the header and the room
    /// behind it.
    pub fn space(&self) -> (space: usize)
        requires
            self.valid(),
        ensures
            space == spec_cmsg_space(self.spec_header_size() as int, FD_SIZE * self.capacity()),
    {
        cmsg_space(self.header_size, FD_SIZE * self.fd_count)
    }

    /// The declared length, header included.
    pub fn declared_len(&self) -> (len: usize)
        ensures
            len == self.spec_declared_len(),
    {
        self.declared_len
    }

    /// The length that the operating system is told along with the whole message.
    pub fn controllen(&self) -> (len: usize)
        ensures
            len == self.spec_controllen(),
    {
        self.controllen
    }

    /// Puts descriptors into the message, in place of those that it carries.
    pub fn set_fds(&mut self, fds: &[i32])
        requires
            old(self).valid(),
            fds@.len() <= old(self).capacity(),
        ensures
            final(self).valid(),
            final(self).carried() == fds@,
            final(self).count() == fds@.len(),
            final(self).spec_slots() == fds@ + old(self).spec_slots().skip(fds@.len() as int),
            final(self).spec_header_size() == old(self).spec_header_size(),
            final(self).capacity() == old(self).capacity(),
            final(self).spec_controllen() == final(self).spec_declared_len(),
            final(self).spec_declared_len() == spec_cmsg_len(
                old(self).spec_header_size() as int,
                FD_SIZE * fds@.len(),
            ),
    {
        let fd_payload_size: usize = FD_SIZE * fds.len();
        self.declared_len = cmsg_len(self.header_size, fd_payload_size);
        self.controllen = self.declared_len;
        let ghost before = self.slots@;
        let ghost header_size = self.header_size;
        let ghost fd_count = self.fd_count;
        let ghost declared_len = self.declared_len;
        let mut i: usize = 0;
        while i < fds.len()
            invariant
                i <= fds@.len() <= before.len() == self.slots@.len(),
                self.slots@ == fds@.take(i as int) + before.skip(i as int),
                self.header_size == header_size,
                self.fd_count == fd_count,
                self.declared_len == declared_len,
                self.controllen == declared_len,
            decreases fds@.len() - i,
        {
            self.slots.set(i, fds[i]);
            i = i + 1;
            assert(self.slots@ =~= fds@.take(i as int) + before.skip(i as int));
        }
        assert(fds@.take(fds@.len() as int) =~= fds@);
        assert(self.carried() =~= fds@);
    }

    /// Declares as many descriptors as there is room for.
    pub fn reset_fd_count(&mut self)
        requires
            old(self).valid(),
        ensures
            final(self).valid(),
            final(self).count() == old(self).capacity(),
            final(self).spec_slots() == old(self).spec_slots(),
            final(self).spec_header_size() == old(self).spec_header_size(),
            final(self).capacity() == old(self).capacity(),
            final(self).spec_controllen() == final(self).spec_declared_len(),
            final(self).spec_declared_len() == spec_cmsg_len(
                old(self).spec_header_size() as int,
                FD_SIZE * old(self).capacity(),
            ),
    {
        let fd_payload_size: usize = FD_SIZE * self.fd_count;
        self.declared_len = cmsg_len(self.header_size, fd_payload_size);
        self.controllen = self.declared_len;
    }

    /// Takes over what the operating system left in memory when it received a message: the declared
    /// length, the length of all control data, and the descriptors.
    pub fn received(&mut self, declared_len: usize, controllen: usize, slots: Vec<i32>)
        requires
            old(self).valid(),
            slots@.len() == old(self).capacity(),
            spec_cmsg_align(old(self).spec_header_size() as int) <= declared_len <= spec_cmsg_len(
                old(self).spec_header_size() as int,
                FD_SIZE * old(self).capacity(),
            ),
        ensures
            final(self).valid(),
            final(self).spec_slots() == slots@,
            final(self).spec_declared_len() == declared_len,
            final(self).spec_controllen() == controllen,
            final(self).spec_header_size() == old(self).spec_header_size(),
            final(self).capacity() == old(self).capacity(),
    {
        self.declared_len = declared_len;
        self.controllen = controllen;
        self.slots = slots;
    }

    /// The number of descriptors that the message carries.
    pub fn current_fd_count(&self) -> (count: usize)
        requires
            self.valid(),
        ensures
            count == self.count(),
    {
        (self.declared_len - cmsg_align(self.header_size)) / FD_SIZE
    }

    /// The descriptors that the message carries.
    pub fn fds(&self) -> (fds: &[i32])
        requires
            self.valid(),
        ensures
            fds@ == self.carried(),
    {
        let count: usize = self.current_fd_count();
        vstd::slice::slice_subrange(self.slots.as_slice(), 0, count)
    }
}

/// The bytes of a socket address: a path and zeros behind it.
pub open spec fn spec_sun_path(path: Seq<u8>, capacity: nat) -> Seq<u8> {
    path + Seq::new((capacity - path.len()) as nat, |i: int| 0u8)
}

/// The bytes of the address of a socket with a path, in a field of `capacity` bytes. There is room for
/// the zero byte that ends the path.
pub fn sockaddr_un(path: &[u8], capacity: usize) -> (sun_path: Vec<u8>)
    requires
        path@.len() < capacity,
    ensures
        sun_path@ == spec_sun_path(path@, capacity as nat),
{
    let mut sun_path: Vec<u8> = Vec::new();
    let mut i: usize = 0;
    while i < capacity
        invariant
            i <= capacity,
            path@.len() < capacity,
            sun_path@ == spec_sun_path(path@, capacity as nat).take(i as int),
        decreases capacity - i,
    {
        if i < path.len() {
            sun_path.push(path[i]);
        } else {
            sun_path.push(0);
        }
        i = i + 1;
        assert(sun_path@ =~= spec_sun_path(path@, capacity as nat).take(i as int));
    }
    assert(sun_path@ =~= spec_sun_path(path@, capacity as nat));
    sun_path
}

/// Names of sockets have the same address just where they are the same, so that a connection to a name goes to the
/// socket that was given that name.
pub proof fn addresses_tell_names_apart(a: Seq<u8>, b: Seq<u8>, capacity: nat)
    requires
        a.len() < capacity,
        b.len() < capacity,
        !a.contains(0u8),
        !b.contains(0u8),
    ensures
        spec_sun_path(a, capacity) == spec_sun_path(b, capacity) <==> a == b,
{
    let x = spec_sun_path(a, capacity);
    let y = spec_sun_path(b, capacity);
    if x == y {
        if a.len() < b.len() {
            assert(x[a.len() as int] == 0 && y[a.len() as int] == b[a.len() as int]);
            assert(b.contains(0u8));
        } else if b.len() < a.len() {
            assert(y[b.len() as int] == 0 && x[b.len() as int] == a[b.len() as int]);
            assert(a.contains(0u8));
        } else {
            assert forall|i: int| 0 <= i < a.len() implies a[i] == b[i] by {
                assert(x[i] == a[i] && y[i] == b[i]);
            }
            assert(a =~= b);
        }
    }
}

} // verus!
