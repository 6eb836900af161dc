//! The operations the dispatcher hands on, with their arguments already
//! validated and decoded, and the interface of whatever carries them out:
//! the schemes' further operations, the address space, clocks, futexes
//! and the scheduler.
use vstd::prelude::*;
use crate::error::Error;
use crate::kernel::{deliver, Kernel, KernelState};
use crate::scheme::{read_at, read_bytes_at};
use crate::usercopy::{mapped, may_write, Access, UserSlice};

verus! {

/// One decoded operation. `number` is the scheme's own number for the
/// object a handle resolved to.
#[derive(Clone, Copy, Debug, PartialEq, Eq, Structural)]
pub enum Op {
    /// Map a file; `map` views the mapping descriptor.
    Fmap { number: usize, map: UserSlice },
    /// Map anonymous memory in the current address space.
    FmapAnonymous { map: UserSlice },
    Getdents { number: usize, buf: UserSlice, header_size: u16, cursor: u64 },
    Futimens { number: usize, times: UserSlice },
    Fpath { number: usize, buf: UserSlice },
    Fstat { number: usize, buf: UserSlice },
    Fstatvfs { number: usize, buf: UserSlice },
    Flink { number: usize, path: UserSlice },
    Frename { number: usize, path: UserSlice },
    /// Scheme-level duplicate, with data for the scheme.
    Dup { number: usize, buf: UserSlice },
    Dup2 { number: usize, target: usize, buf: UserSlice },
    Sendfd { number: usize, target: usize, flags: usize, arg: u64 },
    Fchmod { number: usize, mode: u16 },
    Fchown { number: usize, uid: u32, gid: u32 },
    Fcntl { number: usize, cmd: usize, arg: usize },
    Fevent { number: usize, flags: usize },
    Fsync { number: usize },
    Funmap { addr: usize, len: usize },
    Call { number: usize, payload: UserSlice, flags: usize, meta: UserSlice },
    Openat { number: usize, path: UserSlice, flags: usize, fcntl_flags: usize },
    Rmdir { path: UserSlice },
    Unlink { path: UserSlice },
    Yield,
    Nanosleep { req: UserSlice, rem: Option<UserSlice> },
    ClockGettime { clock: usize, buf: UserSlice },
    Futex { addr: usize, op: usize, val: usize, val2: usize, addr2: usize },
    Mprotect { addr: usize, len: usize, flags: usize },
    Mkns { pairs: UserSlice },
    Mremap { old_addr: usize, old_len: usize, new_addr: usize, new_len: usize, flags: usize },
}

/// Carries out decoded operations. `invoke_spec` states what an
/// implementation does: its new state, the kernel's new state, the result.
pub trait Backend: Sized {
    spec fn invoke_spec(&self, k: KernelState, op: Op) -> (Self, KernelState, Result<usize, Error>);

    fn invoke(&mut self, k: &mut Kernel, op: Op) -> (r: Result<usize, Error>)
        requires
            old(k).wf(),
        ensures
            final(k).wf(),
            (*final(self), final(k).state(), r) == old(self).invoke_spec(old(k).state(), op);
}

/// The operations a single-process kernel over the in-memory scheme
/// offers: a node's path, sync and yield. It has no address space to map
/// into, no clock, no futexes and no other schemes: everything else is
/// refused as not supported.
#[derive(Clone, Copy, Debug, PartialEq, Eq, Structural)]
pub struct MemServices {}

/// The path bytes of node `number` that fit the view.
pub open spec fn fpath_spec(k: KernelState, number: usize, buf: UserSlice) -> (KernelState, Result<usize, Error>) {
    if number >= k.files.paths.len() {
        (k, Err(Error::BadFileDescriptor))
    } else if !may_write(buf.spec_access()) || !mapped(k.base, k.mem, buf) {
        (k, Err(Error::BadAddress))
    } else {
        let bytes = read_at(k.files.paths[number as int], 0, buf.spec_len() as nat);
        (deliver(k, buf, bytes), Ok(bytes.len() as usize))
    }
}

impl Backend for MemServices {
    open spec fn invoke_spec(&self, k: KernelState, op: Op) -> (Self, KernelState, Result<usize, Error>) {
        match op {
            Op::Fpath { number, buf } => {
                let (k1, r) = fpath_spec(k, number, buf);
                (*self, k1, r)
            },
            Op::Fsync { number } => (*self, k, if number < k.files.data.len() { Ok(0) } else { Err(Error::BadFileDescriptor) }),
            Op::Yield => (*self, k, Ok(0)),
            _ => (*self, k, Err(Error::NotSupported)),
        }
    }

    fn invoke(&mut self, k: &mut Kernel, op: Op) -> (r: Result<usize, Error>) {
        match op {
            Op::Fpath { number, buf } => {
                if number >= k.files.node_count() {
                    return Err(Error::BadFileDescriptor);
                }
                if buf.access() == Access::ReadOnly {
                    return Err(Error::BadAddress);
                }
                let bytes = read_bytes_at(k.files.node_path(number), 0, buf.len());
                k.mem.write(&buf, bytes.as_slice())
            },
            Op::Fsync { number } => {
                if number < k.files.node_count() {
                    Ok(0)
                } else {
                    Err(Error::BadFileDescriptor)
                }
            },
            Op::Yield => Ok(0),
            _ => Err(Error::NotSupported),
        }
    }
}

} // verus!
