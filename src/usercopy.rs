//! Bounds-checked, direction-tagged views over user memory, and the user
//! memory they are read and written through.
use vstd::prelude::*;
use crate::error::Error;

verus! {

/// First address past user space: the lower 47-bit half on a 64-bit machine.
pub const USER_END: usize = usize::MAX / 131072 + 1;

/// Whether `[addr, addr + len)` lies wholly in user space.
pub open spec fn in_user_space(addr: usize, len: usize) -> bool {
    addr as int + len as int <= USER_END as int
}

/// The directions the kernel may move data through a view.
#[derive(Clone, Copy, Debug, PartialEq, Eq, Structural)]
pub enum Access {
    ReadOnly,
    WriteOnly,
    ReadWrite,
}

pub open spec fn may_read(a: Access) -> bool {
    a != Access::WriteOnly
}

pub open spec fn may_write(a: Access) -> bool {
    a != Access::ReadOnly
}

/// A region of user memory already checked to lie in user space.
#[derive(Clone, Copy, Debug, PartialEq, Eq, Structural)]
pub struct UserSlice {
    addr: usize,
    len: usize,
    access: Access,
}

impl UserSlice {
    pub closed spec fn spec_addr(&self) -> usize {
        self.addr
    }

    pub closed spec fn spec_len(&self) -> usize {
        self.len
    }

    pub closed spec fn spec_access(&self) -> Access {
        self.access
    }

    pub closed spec fn wf(&self) -> bool {
        in_user_space(self.addr, self.len)
    }

    /// The only way to make a view: checks the range against user space.
    pub fn new(addr: usize, len: usize, access: Access) -> (r: Result<UserSlice, Error>)
        ensures
            in_user_space(addr, len) <==> r is Ok,
            !in_user_space(addr, len) ==> r == Err::<UserSlice, Error>(Error::BadAddress),
            r == UserSlice::spec_new(addr, len, access),
            r matches Ok(s) ==> s.wf() && s.spec_addr() == addr && s.spec_len() == len && s.spec_access() == access,
    {
        if addr <= USER_END && len <= USER_END - addr {
            Ok(UserSlice { addr, len, access })
        } else {
            Err(Error::BadAddress)
        }
    }

    pub fn ro(addr: usize, len: usize) -> (r: Result<UserSlice, Error>)
        ensures
            r == UserSlice::spec_new(addr, len, Access::ReadOnly),
            in_user_space(addr, len) <==> r is Ok,
            !in_user_space(addr, len) ==> r == Err::<UserSlice, Error>(Error::BadAddress),
            r matches Ok(s) ==> s.spec_addr() == addr && s.spec_len() == len
                && s.spec_access() == Access::ReadOnly,
    {
        UserSlice::new(addr, len, Access::ReadOnly)
    }

    pub fn wo(addr: usize, len: usize) -> (r: Result<UserSlice, Error>)
        ensures
            r == UserSlice::spec_new(addr, len, Access::WriteOnly),
            in_user_space(addr, len) <==> r is Ok,
            !in_user_space(addr, len) ==> r == Err::<UserSlice, Error>(Error::BadAddress),
            r matches Ok(s) ==> s.spec_addr() == addr && s.spec_len() == len
                && s.spec_access() == Access::WriteOnly,
    {
        UserSlice::new(addr, len, Access::WriteOnly)
    }

    pub fn rw(addr: usize, len: usize) -> (r: Result<UserSlice, Error>)
        ensures
            r == UserSlice::spec_new(addr, len, Access::ReadWrite),
            in_user_space(addr, len) <==> r is Ok,
            !in_user_space(addr, len) ==> r == Err::<UserSlice, Error>(Error::BadAddress),
            r matches Ok(s) ==> s.spec_addr() == addr && s.spec_len() == len
                && s.spec_access() == Access::ReadWrite,
    {
        UserSlice::new(addr, len, Access::ReadWrite)
    }

    /// What `new` returns, stated directly.
    pub closed spec fn spec_new(addr: usize, len: usize, access: Access) -> Result<UserSlice, Error> {
        if in_user_space(addr, len) {
            Ok(UserSlice { addr, len, access })
        } else {
            Err(Error::BadAddress)
        }
    }

    /// A view at the null address stands for an absent optional output.
    pub fn none_if_null(self) -> (r: Option<UserSlice>)
        ensures
            self.spec_addr() == 0 ==> r is None,
            self.spec_addr() != 0 ==> r == Some(self),
    {
        if self.addr == 0 {
            None
        } else {
            Some(self)
        }
    }

    pub fn addr(&self) -> (r: usize)
        ensures
            r == self.spec_addr(),
    {
        self.addr
    }

    pub fn len(&self) -> (r: usize)
        ensures
            r == self.spec_len(),
    {
        self.len
    }

    pub fn access(&self) -> (r: Access)
        ensures
            r == self.spec_access(),
    {
        self.access
    }
}

/// The mapped part of a user address space: `bytes` sits at `base`.
pub struct UserMemory {
    pub base: usize,
    pub bytes: Vec<u8>,
}

/// Whether `[addr, addr + len)` lies in the mapped window.
pub open spec fn mapped_read(base: usize, bytes: Seq<u8>, addr: usize, len: usize) -> bool {
    base <= addr && addr as int + len as int <= base as int + bytes.len()
}

/// Whether the view lies in the mapped window.
pub open spec fn mapped(base: usize, bytes: Seq<u8>, s: UserSlice) -> bool {
    mapped_read(base, bytes, s.spec_addr(), s.spec_len())
}

/// The bytes a view covers.
pub open spec fn read_spec(base: usize, bytes: Seq<u8>, s: UserSlice) -> Seq<u8> {
    bytes.subrange(s.spec_addr() - base, s.spec_addr() - base + s.spec_len())
}

/// The window after `data` is stored at the start of the view.
pub open spec fn write_spec(base: usize, bytes: Seq<u8>, s: UserSlice, data: Seq<u8>) -> Seq<u8> {
    Seq::new(
        bytes.len(),
        |i: int|
            if s.spec_addr() - base <= i < s.spec_addr() - base + data.len() {
                data[i - (s.spec_addr() - base)]
            } else {
                bytes[i]
            },
    )
}

impl UserMemory {
    pub open spec fn wf(&self) -> bool {
        self.base as int + self.bytes@.len() <= USER_END as int
    }

    /// Copies the bytes of a readable view out of user memory.
    pub fn read(&self, s: &UserSlice) -> (r: Result<Vec<u8>, Error>)
        requires
            may_read(s.spec_access()),
        ensures
            mapped(self.base, self.bytes@, *s) <==> r is Ok,
            !mapped(self.base, self.bytes@, *s) ==> r == Err::<Vec<u8>, Error>(Error::BadAddress),
            r matches Ok(v) ==> v@ == read_spec(self.base, self.bytes@, *s),
    {
        if s.addr < self.base || s.addr - self.base > self.bytes.len()
            || s.len > self.bytes.len() - (s.addr - self.base) {
            return Err(Error::BadAddress);
        }
        let start: usize = s.addr - self.base;
        let blen: usize = self.bytes.len();
        let mut out: Vec<u8> = Vec::new();
        let mut i: usize = 0;
        while i < s.len
            invariant
                i <= s.spec_len(),
                start as int + s.len <= blen,
                blen == self.bytes@.len(),
                start == s.addr - self.base,
                out@ == self.bytes@.subrange(start as int, start + i),
            decreases s.spec_len() - i,
        {
            out.push(self.bytes[start + i]);
            i = i + 1;
            proof {
                assert(out@ =~= self.bytes@.subrange(start as int, start + i));
            }
        }
        Ok(out)
    }

    /// Copies a value of `n` bytes from the start of a readable view: the
    /// view must be at least that long, and those bytes mapped.
    pub fn read_exact(&self, s: &UserSlice, n: usize) -> (r: Result<Vec<u8>, Error>)
        requires
            may_read(s.spec_access()),
        ensures
            s.spec_len() < n ==> r == Err::<Vec<u8>, Error>(Error::InvalidArgument),
            s.spec_len() >= n && !mapped_read(self.base, self.bytes@, s.spec_addr(), n)
                ==> r == Err::<Vec<u8>, Error>(Error::BadAddress),
            s.spec_len() >= n && mapped_read(self.base, self.bytes@, s.spec_addr(), n) ==> (r matches Ok(v)
                && v@ == self.bytes@.subrange(s.spec_addr() - self.base, s.spec_addr() - self.base + n)),
    {
        if s.len < n {
            return Err(Error::InvalidArgument);
        }
        let head = UserSlice { addr: s.addr, len: n, access: s.access };
        self.read(&head)
    }

    /// Stores `data` at the start of a writable view.
    pub fn write(&mut self, s: &UserSlice, data: &[u8]) -> (r: Result<usize, Error>)
        requires
            may_write(s.spec_access()),
        ensures
            final(self).base == old(self).base,
            (mapped(old(self).base, old(self).bytes@, *s) && data@.len() <= s.spec_len()) <==> r is Ok,
            !mapped(old(self).base, old(self).bytes@, *s) ==> r == Err::<usize, Error>(Error::BadAddress),
            mapped(old(self).base, old(self).bytes@, *s) && data@.len() > s.spec_len() ==> r == Err::<usize, Error>(Error::InvalidArgument),
            r is Ok ==> r == Ok::<usize, Error>(data@.len() as usize)
                && final(self).bytes@ == write_spec(old(self).base, old(self).bytes@, *s, data@),
            r is Err ==> final(self).bytes@ == old(self).bytes@,
    {
        if s.addr < self.base || s.addr - self.base > self.bytes.len()
            || s.len > self.bytes.len() - (s.addr - self.base) {
            return Err(Error::BadAddress);
        }
        if data.len() > s.len {
            return Err(Error::InvalidArgument);
        }
        let start: usize = s.addr - self.base;
        let ghost before = self.bytes@;
        let blen: usize = self.bytes.len();
        let mut i: usize = 0;
        while i < data.len()
            invariant
                i <= data@.len(),
                data@.len() <= s.spec_len(),
                start as int + s.len <= blen,
                blen == before.len(),
                start == s.addr - self.base,
                self.base == old(self).base,
                before == old(self).bytes@,
                self.bytes@.len() == before.len(),
                forall|j: int| 0 <= j < before.len() ==> self.bytes@[j] == (
                    if start <= j < start + i { data@[j - start] } else { before[j] }),
            decreases data@.len() - i,
        {
            self.bytes.set(start + i, data[i]);
            i = i + 1;
        }
        proof {
            assert(self.bytes@ =~= write_spec(self.base, before, *s, data@));
        }
        Ok(data.len())
    }
}

/// Bytes written through a view that lies in the mapped window read back
/// unchanged through a view of the same range.
pub proof fn lemma_round_trip(base: usize, bytes: Seq<u8>, w: UserSlice, r: UserSlice, data: Seq<u8>)
    requires
        mapped(base, bytes, w),
        r.spec_addr() == w.spec_addr(),
        r.spec_len() == data.len(),
        data.len() <= w.spec_len(),
    ensures
        mapped(base, write_spec(base, bytes, w, data), r),
        read_spec(base, write_spec(base, bytes, w, data), r) == data,
{
    assert(read_spec(base, write_spec(base, bytes, w, data), r) =~= data);
}

/// A range that leaves user space is refused in every direction.
pub proof fn lemma_outside_user_space_refused(addr: usize, len: usize, access: Access)
    requires
        !in_user_space(addr, len),
    ensures
        UserSlice::spec_new(addr, len, access) == Err::<UserSlice, Error>(Error::BadAddress),
{
}

/// A range inside user space gives a view of exactly that range.
pub proof fn lemma_inside_user_space_accepted(addr: usize, len: usize, access: Access)
    requires
        in_user_space(addr, len),
    ensures
        UserSlice::spec_new(addr, len, access) matches Ok(s)
            && s.spec_addr() == addr && s.spec_len() == len && s.spec_access() == access,
{
}

} // verus!
