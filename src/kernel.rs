//! The kernel side of one process: its mapped user memory and its handle
//! table, and the operations that move data between them.
use vstd::prelude::*;
use crate::error::Error;
use crate::usercopy::{mapped, read_spec, write_spec, Access, UserMemory, UserSlice, USER_END};
use crate::scheme::{
    read_at, read_bytes_at, resize_bytes, resized, resolve_spec, rw_flags_spec, table_wf, write_bytes_at,
    written, Descriptor, FileTable, TableState, O_APPEND,
};

verus! {

pub const SEEK_SET: usize = 0;
pub const SEEK_CUR: usize = 1;
pub const SEEK_END: usize = 2;

/// The kernel state as values.
pub struct KernelState {
    pub base: usize,
    pub mem: Seq<u8>,
    pub files: TableState,
}

pub struct Kernel {
    pub mem: UserMemory,
    pub files: FileTable,
}

pub open spec fn kernel_wf(k: KernelState) -> bool {
    &&& k.base as int + k.mem.len() <= USER_END as int
    &&& table_wf(k.files)
}

/// The bytes a readable view covers, or a fault when it is not mapped.
pub open spec fn mem_read(k: KernelState, s: UserSlice) -> Result<Seq<u8>, Error> {
    if mapped(k.base, k.mem, s) {
        Ok(read_spec(k.base, k.mem, s))
    } else {
        Err(Error::BadAddress)
    }
}

/// The descriptor flags a call runs under: the descriptor's own for the
/// all-ones word, else the descriptor's with the per-call bits of `f`.
pub open spec fn call_flags(desc_flags: u32, f: usize) -> u32 {
    if f == usize::MAX { desc_flags } else { rw_flags_spec(desc_flags, f as u32) }
}

/// A per-call flags word: the all-ones word means none; otherwise it must
/// hold only the append and non-blocking bits.
pub open spec fn decode_rw(f: usize) -> Result<Option<u32>, Error> {
    if f == usize::MAX {
        Ok(None)
    } else if f <= 3 {
        Ok(Some(f as u32))
    } else {
        Err(Error::InvalidArgument)
    }
}

pub fn rw_from_word(f: usize) -> (r: Result<Option<u32>, Error>)
    ensures
        r == decode_rw(f),
{
    if f == usize::MAX {
        Ok(None)
    } else if f <= 3 {
        Ok(Some(f as u32))
    } else {
        Err(Error::InvalidArgument)
    }
}

/// Where a write through a descriptor lands.
pub open spec fn write_pos(flags: u32, data: Seq<u8>, pos: usize) -> usize {
    if flags & O_APPEND != 0 { data.len() as usize } else { pos }
}

/// The state after `bytes` is written into node `n` at `pos`, with the
/// descriptor under `fd` replaced by `d`.
pub open spec fn store(k: KernelState, n: usize, pos: usize, bytes: Seq<u8>) -> KernelState {
    KernelState {
        files: TableState {
            data: k.files.data.update(n as int, written(k.files.data[n as int], pos as nat, bytes)),
            ..k.files
        },
        ..k
    }
}

/// Write through the handle's own offset, which then moves past the bytes.
pub open spec fn sys_write_spec(k: KernelState, fd: usize, c: usize, d: usize) -> (KernelState, Result<usize, Error>) {
    match UserSlice::spec_new(c, d, Access::ReadOnly) {
        Err(e) => (k, Err(e)),
        Ok(s) => match resolve_spec(k.files, fd) {
            Err(e) => (k, Err(e)),
            Ok(desc) => match mem_read(k, s) {
                Err(e) => (k, Err(e)),
                Ok(bytes) => {
                    let data = k.files.data[desc.number as int];
                    let pos = write_pos(desc.flags, data, desc.offset);
                    if pos as int + bytes.len() > usize::MAX {
                        (k, Err(Error::Overflow))
                    } else {
                        let k1 = store(k, desc.number, pos, bytes);
                        let d1 = Descriptor { offset: (pos + bytes.len()) as usize, ..desc };
                        (
                            KernelState { files: TableState { handles: k1.files.handles.update(fd as int, Some(d1)), ..k1.files }, ..k1 },
                            Ok(bytes.len() as usize),
                        )
                    }
                },
            },
        },
    }
}

/// Positioned write; the handle's offset and flags stay as they were.
pub open spec fn sys_write2_spec(k: KernelState, fd: usize, c: usize, d: usize, e: usize, f: usize) -> (KernelState, Result<usize, Error>) {
    match resolve_spec(k.files, fd) {
        Err(err) => (k, Err(err)),
        Ok(desc) => match decode_rw(f) {
            Err(err) => (k, Err(err)),
            Ok(_) => match UserSlice::spec_new(c, d, Access::ReadOnly) {
                Err(err) => (k, Err(err)),
                Ok(s) => match mem_read(k, s) {
                    Err(err) => (k, Err(err)),
                    Ok(bytes) => {
                        let data = k.files.data[desc.number as int];
                        let pos = write_pos(call_flags(desc.flags, f), data, e);
                        if pos as int + bytes.len() > usize::MAX {
                            (k, Err(Error::Overflow))
                        } else {
                            (store(k, desc.number, pos, bytes), Ok(bytes.len() as usize))
                        }
                    },
                },
            },
        },
    }
}

/// The state after `bytes` is stored at the start of the view.
pub open spec fn deliver(k: KernelState, s: UserSlice, bytes: Seq<u8>) -> KernelState {
    KernelState { mem: write_spec(k.base, k.mem, s, bytes), ..k }
}

/// Read through the handle's own offset, which then moves past the bytes.
pub open spec fn sys_read_spec(k: KernelState, fd: usize, c: usize, d: usize) -> (KernelState, Result<usize, Error>) {
    match UserSlice::spec_new(c, d, Access::WriteOnly) {
        Err(e) => (k, Err(e)),
        Ok(s) => match resolve_spec(k.files, fd) {
            Err(e) => (k, Err(e)),
            Ok(desc) => if !mapped(k.base, k.mem, s) {
                (k, Err(Error::BadAddress))
            } else {
                let bytes = read_at(k.files.data[desc.number as int], desc.offset as nat, d as nat);
                let k1 = deliver(k, s, bytes);
                let d1 = Descriptor { offset: (desc.offset + bytes.len()) as usize, ..desc };
                (
                    KernelState { files: TableState { handles: k1.files.handles.update(fd as int, Some(d1)), ..k1.files }, ..k1 },
                    Ok(bytes.len() as usize),
                )
            },
        },
    }
}

/// Positioned read; the handle's offset and flags stay as they were.
pub open spec fn sys_read2_spec(k: KernelState, fd: usize, c: usize, d: usize, e: usize, f: usize) -> (KernelState, Result<usize, Error>) {
    match resolve_spec(k.files, fd) {
        Err(err) => (k, Err(err)),
        Ok(desc) => match decode_rw(f) {
            Err(err) => (k, Err(err)),
            Ok(_) => match UserSlice::spec_new(c, d, Access::WriteOnly) {
                Err(err) => (k, Err(err)),
                Ok(s) => if !mapped(k.base, k.mem, s) {
                    (k, Err(Error::BadAddress))
                } else {
                    let bytes = read_at(k.files.data[desc.number as int], e as nat, d as nat);
                    (deliver(k, s, bytes), Ok(bytes.len() as usize))
                },
            },
        },
    }
}

/// A word read as a two's-complement signed offset.
pub open spec fn signed(c: usize) -> int {
    if c <= usize::MAX / 2 { c as int } else { c as int - usize::MAX as int - 1 }
}

/// Moves the handle's offset; the new offset is returned.
pub open spec fn sys_lseek_spec(k: KernelState, fd: usize, c: usize, whence: usize) -> (KernelState, Result<usize, Error>) {
    match resolve_spec(k.files, fd) {
        Err(e) => (k, Err(e)),
        Ok(desc) => if whence > SEEK_END {
            (k, Err(Error::InvalidArgument))
        } else {
            let base: int = if whence == SEEK_SET {
                0
            } else if whence == SEEK_CUR {
                desc.offset as int
            } else {
                k.files.data[desc.number as int].len() as int
            };
            let pos = base + signed(c);
            if pos < 0 {
                (k, Err(Error::InvalidArgument))
            } else if pos > usize::MAX {
                (k, Err(Error::Overflow))
            } else {
                let d1 = Descriptor { offset: pos as usize, ..desc };
                (
                    KernelState { files: TableState { handles: k.files.handles.update(fd as int, Some(d1)), ..k.files }, ..k },
                    Ok(pos as usize),
                )
            }
        },
    }
}

/// Sets the length of the handle's node.
pub open spec fn sys_ftruncate_spec(k: KernelState, fd: usize, len: usize) -> (KernelState, Result<usize, Error>) {
    match resolve_spec(k.files, fd) {
        Err(e) => (k, Err(e)),
        Ok(desc) => (
            KernelState {
                files: TableState {
                    data: k.files.data.update(desc.number as int, resized(k.files.data[desc.number as int], len as nat)),
                    ..k.files
                },
                ..k
            },
            Ok(0),
        ),
    }
}

impl Kernel {
    pub open spec fn state(&self) -> KernelState {
        KernelState { base: self.mem.base, mem: self.mem.bytes@, files: self.files.state() }
    }

    pub open spec fn wf(&self) -> bool {
        kernel_wf(self.state())
    }

    /// A kernel over user memory `bytes` mapped at `base`, with no open
    /// handles; none when the memory does not fit in user space.
    pub fn new(base: usize, bytes: Vec<u8>) -> (r: Option<Kernel>)
        ensures
            (base as int + bytes@.len() <= USER_END as int) <==> r is Some,
            r matches Some(k) ==> k.wf() && k.state().base == base && k.state().mem == bytes@
                && k.state().files.handles.len() == 0 && k.state().files.data.len() == 0,
    {
        if base <= USER_END && bytes.len() <= USER_END - base {
            let files = FileTable::new();
            Some(Kernel { mem: UserMemory { base, bytes }, files })
        } else {
            None
        }
    }

    pub fn sys_write(&mut self, fd: usize, c: usize, d: usize) -> (r: Result<usize, Error>)
        requires
            old(self).wf(),
        ensures
            final(self).wf(),
            (final(self).state(), r) == sys_write_spec(old(self).state(), fd, c, d),
    {
        let s = UserSlice::ro(c, d)?;
        let desc = self.files.resolve(fd)?;
        let bytes = self.mem.read(&s)?;
        let pos: usize = if desc.flags & O_APPEND != 0 {
            self.files.node_data(desc.number).len()
        } else {
            desc.offset
        };
        let v = write_bytes_at(self.files.node_data(desc.number), pos, &bytes)?;
        let n: usize = bytes.len();
        self.files.set_node_data(desc.number, v);
        self.files.set_descriptor(fd, Descriptor { offset: pos + n, ..desc });
        Ok(n)
    }

    pub fn sys_write2(&mut self, fd: usize, c: usize, d: usize, e: usize, f: usize) -> (r: Result<usize, Error>)
        requires
            old(self).wf(),
        ensures
            final(self).wf(),
            (final(self).state(), r) == sys_write2_spec(old(self).state(), fd, c, d, e, f),
    {
        let desc = self.files.resolve(fd)?;
        let rw = rw_from_word(f)?;
        let s = UserSlice::ro(c, d)?;
        let bytes = self.mem.read(&s)?;
        let flags: u32 = match rw {
            None => desc.flags,
            Some(bits) => desc.rw_flags(bits),
        };
        let pos: usize = if flags & O_APPEND != 0 {
            self.files.node_data(desc.number).len()
        } else {
            e
        };
        let v = write_bytes_at(self.files.node_data(desc.number), pos, &bytes)?;
        self.files.set_node_data(desc.number, v);
        Ok(bytes.len())
    }

    pub fn sys_read(&mut self, fd: usize, c: usize, d: usize) -> (r: Result<usize, Error>)
        requires
            old(self).wf(),
        ensures
            final(self).wf(),
            (final(self).state(), r) == sys_read_spec(old(self).state(), fd, c, d),
    {
        let s = UserSlice::wo(c, d)?;
        let desc = self.files.resolve(fd)?;
        let bytes = read_bytes_at(self.files.node_data(desc.number), desc.offset, d);
        let dlen: usize = self.files.node_data(desc.number).len();
        let n = self.mem.write(&s, bytes.as_slice())?;
        proof {
            assert(n == bytes@.len());
            assert(n == 0 || desc.offset + n <= dlen);
        }
        self.files.set_descriptor(fd, Descriptor { offset: desc.offset + n, ..desc });
        Ok(n)
    }

    pub fn sys_read2(&mut self, fd: usize, c: usize, d: usize, e: usize, f: usize) -> (r: Result<usize, Error>)
        requires
            old(self).wf(),
        ensures
            final(self).wf(),
            (final(self).state(), r) == sys_read2_spec(old(self).state(), fd, c, d, e, f),
    {
        let desc = self.files.resolve(fd)?;
        let _rw = rw_from_word(f)?;
        let s = UserSlice::wo(c, d)?;
        let bytes = read_bytes_at(self.files.node_data(desc.number), e, d);
        let n = self.mem.write(&s, bytes.as_slice())?;
        Ok(n)
    }

    pub fn sys_lseek(&mut self, fd: usize, c: usize, whence: usize) -> (r: Result<usize, Error>)
        requires
            old(self).wf(),
        ensures
            final(self).wf(),
            (final(self).state(), r) == sys_lseek_spec(old(self).state(), fd, c, whence),
    {
        let desc = self.files.resolve(fd)?;
        if whence > SEEK_END {
            return Err(Error::InvalidArgument);
        }
        let base: usize = if whence == SEEK_SET {
            0
        } else if whence == SEEK_CUR {
            desc.offset
        } else {
            self.files.node_data(desc.number).len()
        };
        let pos: usize = if c <= usize::MAX / 2 {
            if c > usize::MAX - base {
                return Err(Error::Overflow);
            }
            base + c
        } else {
            let back: usize = usize::MAX - c + 1;
            if back > base {
                return Err(Error::InvalidArgument);
            }
            base - back
        };
        self.files.set_descriptor(fd, Descriptor { offset: pos, ..desc });
        Ok(pos)
    }

    pub fn sys_ftruncate(&mut self, fd: usize, len: usize) -> (r: Result<usize, Error>)
        requires
            old(self).wf(),
        ensures
            final(self).wf(),
            (final(self).state(), r) == sys_ftruncate_spec(old(self).state(), fd, len),
    {
        let desc = self.files.resolve(fd)?;
        let v = resize_bytes(self.files.node_data(desc.number), len);
        self.files.set_node_data(desc.number, v);
        Ok(0)
    }
}

} // verus!
