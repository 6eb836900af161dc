//! Decoding of the six-word request into one operation of the table, and
//! the operation's typed result.
use vstd::prelude::*;
use crate::error::{mux_spec, Error};
use crate::backend::{Backend, Op};
use crate::percpu::{enter_spec, leave_spec, PercpuBlock};
use crate::trace::{record_spec, Trace, TraceRecord};
use crate::usercopy::{
    in_user_space, lemma_inside_user_space_accepted, lemma_outside_user_space_refused, lemma_round_trip, mapped, mapped_read, write_spec, Access,
    UserSlice,
};
use crate::scheme::{
    dup2_spec, dup_spec, lemma_resolution, open_spec, read_at, resolve_spec, rw_flags_spec, written, TableState,
};
use crate::kernel::{
    call_flags, kernel_wf, mem_read, write_pos, sys_ftruncate_spec, sys_lseek_spec, sys_read2_spec, sys_read_spec, sys_write2_spec,
    sys_write_spec, Kernel, KernelState,
};
use crate::number::{
    is_known, SYS_CALL, SYS_CLOCK_GETTIME, SYS_CLOSE, SYS_DUP, SYS_DUP2, SYS_FCHMOD, SYS_FCHOWN,
    SYS_FCNTL, SYS_FEVENT, SYS_FLINK, SYS_FMAP, SYS_FPATH, SYS_FRENAME, SYS_FSTAT, SYS_FSTATVFS,
    SYS_FSYNC, SYS_FTRUNCATE, SYS_FUNMAP, SYS_FUTEX, SYS_FUTIMENS, SYS_GETDENTS, SYS_LSEEK,
    SYS_MKNS, SYS_MPROTECT, SYS_MREMAP, SYS_NANOSLEEP, SYS_OPEN, SYS_OPENAT, SYS_READ, SYS_READ2,
    SYS_RMDIR, SYS_SENDFD, SYS_UNLINK, SYS_WRITE, SYS_WRITE2, SYS_YIELD,
};

verus! {

/// Size of a directory-entry header.
pub const DIRENT_HEADER_SIZE: usize = 19;
/// Size of a mapping descriptor: offset, size, flags, address.
pub const MAP_SIZE: usize = 32;
/// Size of a time value: seconds and nanoseconds.
pub const TIMESPEC_SIZE: usize = 16;
/// Size of one handle-permission pair.
pub const PAIR_SIZE: usize = 16;
/// Known bits of a call's flags word, above its low byte.
pub const CALL_FLAGS_LIMIT: usize = 0x1000;

/// Succeeds when the range lies in user space.
pub open spec fn area(addr: usize, len: usize) -> Result<(), Error> {
    if in_user_space(addr, len) { Ok(()) } else { Err(Error::BadAddress) }
}

/// Event flags: readable, writable.
pub const EVENT_MASK: usize = 0x3;
/// Protection and mapping flags an address-space change accepts.
pub const MAP_FLAGS_MASK: usize = 0x0007_000F;

/// A failed check: nothing changes.
pub open spec fn fail<B>(k: KernelState, be: B, e: Error) -> (KernelState, B, Result<usize, Error>) {
    (k, be, Err(e))
}

/// Hands a decoded operation on: its result comes back unchanged.
pub open spec fn forward<B: Backend>(k: KernelState, be: B, op: Op) -> (KernelState, B, Result<usize, Error>) {
    let (be1, k1, r) = be.invoke_spec(k, op);
    (k1, be1, r)
}

/// An operation of the kernel's own table: the backend is untouched.
pub open spec fn local<B>(be: B, r: (KernelState, Result<usize, Error>)) -> (KernelState, B, Result<usize, Error>) {
    (r.0, be, r.1)
}

/// Hands on an operation on the object behind handle `fd`.
pub open spec fn on_handle<B: Backend>(k: KernelState, be: B, fd: usize, op: spec_fn(usize) -> Op) -> (KernelState, B, Result<usize, Error>) {
    match resolve_spec(k.files, fd) {
        Err(e) => fail(k, be, e),
        Ok(desc) => forward(k, be, op(desc.number)),
    }
}

/// Validates a view, then goes on with it.
pub open spec fn with_view<B>(k: KernelState, be: B, addr: usize, len: usize, access: Access,
    next: spec_fn(UserSlice) -> (KernelState, B, Result<usize, Error>)) -> (KernelState, B, Result<usize, Error>) {
    match UserSlice::spec_new(addr, len, access) {
        Err(e) => fail(k, be, e),
        Ok(s) => next(s),
    }
}

/// Opening by path: the path region is `(c, d)` and the open flags `e`;
/// the path is copied in, then the node is found or made.
pub open spec fn open_path_spec(k: KernelState, c: usize, d: usize, e: usize) -> (KernelState, Result<usize, Error>) {
    match UserSlice::spec_new(c, d, Access::ReadOnly) {
        Err(e) => (k, Err(e)),
        Ok(s) => match mem_read(k, s) {
            Err(e) => (k, Err(e)),
            Ok(path) => {
                let (t, h) = open_spec(k.files, path, e);
                (KernelState { files: t, ..k }, Ok(h))
            },
        },
    }
}

/// Lifts a table transition to the kernel state.
pub open spec fn on_table(k: KernelState, r: (TableState, Result<usize, Error>)) -> (KernelState, Result<usize, Error>) {
    (KernelState { files: r.0, ..k }, r.1)
}

/// Closing a handle.
pub open spec fn close_spec(k: KernelState, fd: usize) -> (KernelState, Result<usize, Error>) {
    match resolve_spec(k.files, fd) {
        Err(e) => (k, Err(e)),
        Ok(_) => (KernelState { files: TableState { handles: k.files.handles.update(fd as int, None), ..k.files }, ..k }, Ok(0)),
    }
}

/// Keeps only the event bits of a result.
pub open spec fn event_bits(r: Result<usize, Error>) -> Result<usize, Error> {
    match r {
        Ok(v) => Ok(v & EVENT_MASK),
        Err(e) => Err(e),
    }
}

/// The state of the kernel and of the backend, and the typed result, of
/// one request: the whole operation table, with the checks of each
/// operation in the order they are made.
pub open spec fn step<B: Backend>(k: KernelState, be: B, a: usize, b: usize, c: usize, d: usize, e: usize, f: usize) -> (KernelState, B, Result<usize, Error>) {
    if a == SYS_WRITE2 {
        local(be, sys_write2_spec(k, b, c, d, e, f))
    } else if a == SYS_WRITE {
        local(be, sys_write_spec(k, b, c, d))
    } else if a == SYS_FMAP {
        with_view(k, be, c, d, Access::ReadOnly, |s: UserSlice|
            if d < MAP_SIZE {
                fail(k, be, Error::InvalidArgument)
            } else if !mapped_read(k.base, k.mem, c, MAP_SIZE) {
                fail(k, be, Error::BadAddress)
            } else {
                with_view(k, be, c, MAP_SIZE, Access::ReadOnly, |m: UserSlice|
                    if b == usize::MAX {
                        forward(k, be, Op::FmapAnonymous { map: m })
                    } else {
                        on_handle(k, be, b, |n: usize| Op::Fmap { number: n, map: m })
                    })
            })
    } else if a == SYS_GETDENTS {
        if e != DIRENT_HEADER_SIZE {
            fail(k, be, Error::InvalidArgument)
        } else {
            match resolve_spec(k.files, b) {
                Err(err) => fail(k, be, err),
                Ok(desc) => with_view(k, be, c, d, Access::WriteOnly, |s: UserSlice|
                    forward(k, be, Op::Getdents { number: desc.number, buf: s, header_size: e as u16, cursor: f as u64 })),
            }
        }
    } else if a == SYS_FUTIMENS || a == SYS_FPATH || a == SYS_FSTATVFS {
        match resolve_spec(k.files, b) {
            Err(err) => fail(k, be, err),
            Ok(desc) => if a == SYS_FUTIMENS {
                with_view(k, be, c, d, Access::ReadOnly, |s: UserSlice| forward(k, be, Op::Futimens { number: desc.number, times: s }))
            } else if a == SYS_FPATH {
                with_view(k, be, c, d, Access::WriteOnly, |s: UserSlice| forward(k, be, Op::Fpath { number: desc.number, buf: s }))
            } else {
                with_view(k, be, c, d, Access::WriteOnly, |s: UserSlice| forward(k, be, Op::Fstatvfs { number: desc.number, buf: s }))
            },
        }
    } else if a == SYS_READ2 {
        local(be, sys_read2_spec(k, b, c, d, e, f))
    } else if a == SYS_READ {
        local(be, sys_read_spec(k, b, c, d))
    } else if a == SYS_FSTAT {
        with_view(k, be, c, d, Access::WriteOnly, |s: UserSlice| on_handle(k, be, b, |n: usize| Op::Fstat { number: n, buf: s }))
    } else if a == SYS_FLINK {
        with_view(k, be, c, d, Access::ReadOnly, |s: UserSlice| on_handle(k, be, b, |n: usize| Op::Flink { number: n, path: s }))
    } else if a == SYS_FRENAME {
        with_view(k, be, c, d, Access::ReadOnly, |s: UserSlice| on_handle(k, be, b, |n: usize| Op::Frename { number: n, path: s }))
    } else if a == SYS_DUP {
        with_view(k, be, c, d, Access::ReadOnly, |s: UserSlice|
            if d == 0 {
                local(be, on_table(k, dup_spec(k.files, b)))
            } else {
                on_handle(k, be, b, |n: usize| Op::Dup { number: n, buf: s })
            })
    } else if a == SYS_DUP2 {
        with_view(k, be, d, e, Access::ReadOnly, |s: UserSlice|
            if e == 0 {
                local(be, on_table(k, dup2_spec(k.files, b, c)))
            } else {
                on_handle(k, be, b, |n: usize| Op::Dup2 { number: n, target: c, buf: s })
            })
    } else if a == SYS_SENDFD {
        on_handle(k, be, b, |n: usize| Op::Sendfd { number: n, target: c, flags: d, arg: e as u64 })
    } else if a == SYS_FCHMOD {
        on_handle(k, be, b, |n: usize| Op::Fchmod { number: n, mode: c as u16 })
    } else if a == SYS_FCHOWN {
        on_handle(k, be, b, |n: usize| Op::Fchown { number: n, uid: c as u32, gid: d as u32 })
    } else if a == SYS_FCNTL {
        on_handle(k, be, b, |n: usize| Op::Fcntl { number: n, cmd: c, arg: d })
    } else if a == SYS_FEVENT {
        let (k1, be1, r) = on_handle(k, be, b, |n: usize| Op::Fevent { number: n, flags: c & EVENT_MASK });
        (k1, be1, event_bits(r))
    } else if a == SYS_LSEEK {
        local(be, sys_lseek_spec(k, b, c, d))
    } else if a == SYS_FSYNC {
        on_handle(k, be, b, |n: usize| Op::Fsync { number: n })
    } else if a == SYS_FTRUNCATE {
        local(be, sys_ftruncate_spec(k, b, c))
    } else if a == SYS_CLOSE {
        local(be, close_spec(k, b))
    } else if a == SYS_CALL {
        with_view(k, be, c, d, Access::ReadWrite, |p: UserSlice|
            if e >= CALL_FLAGS_LIMIT {
                fail(k, be, Error::InvalidArgument)
            } else {
                with_view(k, be, f, ((e % 256) * 8) as usize, Access::ReadOnly, |m: UserSlice|
                    on_handle(k, be, b, |n: usize| Op::Call { number: n, payload: p, flags: (e - e % 256) as usize, meta: m }))
            })
    } else if a == SYS_OPEN {
        local(be, open_path_spec(k, c, d, e))
    } else if a == SYS_OPENAT {
        with_view(k, be, c, d, Access::ReadOnly, |s: UserSlice|
            on_handle(k, be, b, |n: usize| Op::Openat { number: n, path: s, flags: e, fcntl_flags: f }))
    } else if a == SYS_RMDIR {
        with_view(k, be, b, c, Access::ReadOnly, |s: UserSlice| forward(k, be, Op::Rmdir { path: s }))
    } else if a == SYS_UNLINK {
        with_view(k, be, b, c, Access::ReadOnly, |s: UserSlice| forward(k, be, Op::Unlink { path: s }))
    } else if a == SYS_YIELD {
        forward(k, be, Op::Yield)
    } else if a == SYS_NANOSLEEP {
        with_view(k, be, b, TIMESPEC_SIZE, Access::ReadOnly, |q: UserSlice|
            with_view(k, be, c, TIMESPEC_SIZE, Access::WriteOnly, |w: UserSlice|
                forward(k, be, Op::Nanosleep { req: q, rem: if c == 0 { None } else { Some(w) } })))
    } else if a == SYS_CLOCK_GETTIME {
        with_view(k, be, c, TIMESPEC_SIZE, Access::WriteOnly, |s: UserSlice| forward(k, be, Op::ClockGettime { clock: b, buf: s }))
    } else if a == SYS_MKNS {
        if c as int * PAIR_SIZE as int > usize::MAX {
            fail(k, be, Error::Overflow)
        } else {
            with_view(k, be, b, (c * PAIR_SIZE) as usize, Access::ReadOnly, |s: UserSlice| forward(k, be, Op::Mkns { pairs: s }))
        }
    } else if a == SYS_FUNMAP {
        forward(k, be, Op::Funmap { addr: b, len: c })
    } else if a == SYS_FUTEX {
        forward(k, be, Op::Futex { addr: b, op: c, val: d, val2: e, addr2: f })
    } else if a == SYS_MPROTECT {
        forward(k, be, Op::Mprotect { addr: b, len: c, flags: d & MAP_FLAGS_MASK })
    } else if a == SYS_MREMAP {
        forward(k, be, Op::Mremap { old_addr: b, old_len: c, new_addr: d, new_len: e, flags: f })
    } else {
        fail(k, be, Error::NoSuchSyscall)
    }
}

impl Kernel {
    /// Runs one request to its typed result; operations beyond the
    /// kernel's own table go to `be` with their decoded arguments.
    #[verifier::rlimit(80)]
    pub fn dispatch<B: Backend>(&mut self, be: &mut B, a: usize, b: usize, c: usize, d: usize, e: usize, f: usize) -> (r: Result<usize, Error>)
        requires
            old(self).wf(),
        ensures
            final(self).wf(),
            (final(self).state(), *final(be), r) == step(old(self).state(), *old(be), a, b, c, d, e, f),
    {
        if a == SYS_WRITE2 {
            self.sys_write2(b, c, d, e, f)
        } else if a == SYS_WRITE {
            self.sys_write(b, c, d)
        } else if a == SYS_FMAP {
            let s = UserSlice::ro(c, d)?;
            let _map = self.mem.read_exact(&s, MAP_SIZE)?;
            let m = UserSlice::ro(c, MAP_SIZE)?;
            if b == usize::MAX {
                be.invoke(self, Op::FmapAnonymous { map: m })
            } else {
                let n = self.files.resolve(b)?.number;
                be.invoke(self, Op::Fmap { number: n, map: m })
            }
        } else if a == SYS_GETDENTS {
            if e != DIRENT_HEADER_SIZE {
                return Err(Error::InvalidArgument);
            }
            let n = self.files.resolve(b)?.number;
            let s = UserSlice::wo(c, d)?;
            be.invoke(self, Op::Getdents { number: n, buf: s, header_size: e as u16, cursor: f as u64 })
        } else if a == SYS_FUTIMENS || a == SYS_FPATH || a == SYS_FSTATVFS {
            let n = self.files.resolve(b)?.number;
            if a == SYS_FUTIMENS {
                let s = UserSlice::ro(c, d)?;
                be.invoke(self, Op::Futimens { number: n, times: s })
            } else if a == SYS_FPATH {
                let s = UserSlice::wo(c, d)?;
                be.invoke(self, Op::Fpath { number: n, buf: s })
            } else {
                let s = UserSlice::wo(c, d)?;
                be.invoke(self, Op::Fstatvfs { number: n, buf: s })
            }
        } else if a == SYS_READ2 {
            self.sys_read2(b, c, d, e, f)
        } else if a == SYS_READ {
            self.sys_read(b, c, d)
        } else if a == SYS_FSTAT {
            let s = UserSlice::wo(c, d)?;
            let n = self.files.resolve(b)?.number;
            be.invoke(self, Op::Fstat { number: n, buf: s })
        } else if a == SYS_FLINK {
            let s = UserSlice::ro(c, d)?;
            let n = self.files.resolve(b)?.number;
            be.invoke(self, Op::Flink { number: n, path: s })
        } else if a == SYS_FRENAME {
            let s = UserSlice::ro(c, d)?;
            let n = self.files.resolve(b)?.number;
            be.invoke(self, Op::Frename { number: n, path: s })
        } else if a == SYS_DUP {
            let s = UserSlice::ro(c, d)?;
            if d == 0 {
                self.files.dup(b)
            } else {
                let n = self.files.resolve(b)?.number;
                be.invoke(self, Op::Dup { number: n, buf: s })
            }
        } else if a == SYS_DUP2 {
            let s = UserSlice::ro(d, e)?;
            if e == 0 {
                self.files.dup2(b, c)
            } else {
                let n = self.files.resolve(b)?.number;
                be.invoke(self, Op::Dup2 { number: n, target: c, buf: s })
            }
        } else if a == SYS_SENDFD {
            let n = self.files.resolve(b)?.number;
            be.invoke(self, Op::Sendfd { number: n, target: c, flags: d, arg: e as u64 })
        } else if a == SYS_FCHMOD {
            let n = self.files.resolve(b)?.number;
            be.invoke(self, Op::Fchmod { number: n, mode: c as u16 })
        } else if a == SYS_FCHOWN {
            let n = self.files.resolve(b)?.number;
            be.invoke(self, Op::Fchown { number: n, uid: c as u32, gid: d as u32 })
        } else if a == SYS_FCNTL {
            let n = self.files.resolve(b)?.number;
            be.invoke(self, Op::Fcntl { number: n, cmd: c, arg: d })
        } else if a == SYS_FEVENT {
            let n = self.files.resolve(b)?.number;
            let bits = be.invoke(self, Op::Fevent { number: n, flags: c & EVENT_MASK })?;
            Ok(bits & EVENT_MASK)
        } else if a == SYS_LSEEK {
            self.sys_lseek(b, c, d)
        } else if a == SYS_FSYNC {
            let n = self.files.resolve(b)?.number;
            be.invoke(self, Op::Fsync { number: n })
        } else if a == SYS_FTRUNCATE {
            self.sys_ftruncate(b, c)
        } else if a == SYS_CLOSE {
            self.files.close(b)
        } else if a == SYS_CALL {
            let p = UserSlice::rw(c, d)?;
            if e >= CALL_FLAGS_LIMIT {
                return Err(Error::InvalidArgument);
            }
            let m = UserSlice::ro(f, e % 256 * 8)?;
            let n = self.files.resolve(b)?.number;
            be.invoke(self, Op::Call { number: n, payload: p, flags: e - e % 256, meta: m })
        } else if a == SYS_OPEN {
            let s = UserSlice::ro(c, d)?;
            let path = self.mem.read(&s)?;
            Ok(self.files.open(path, e))
        } else if a == SYS_OPENAT {
            let s = UserSlice::ro(c, d)?;
            let n = self.files.resolve(b)?.number;
            be.invoke(self, Op::Openat { number: n, path: s, flags: e, fcntl_flags: f })
        } else if a == SYS_RMDIR {
            let s = UserSlice::ro(b, c)?;
            be.invoke(self, Op::Rmdir { path: s })
        } else if a == SYS_UNLINK {
            let s = UserSlice::ro(b, c)?;
            be.invoke(self, Op::Unlink { path: s })
        } else if a == SYS_YIELD {
            be.invoke(self, Op::Yield)
        } else if a == SYS_NANOSLEEP {
            let q = UserSlice::ro(b, TIMESPEC_SIZE)?;
            let rem = UserSlice::wo(c, TIMESPEC_SIZE)?.none_if_null();
            be.invoke(self, Op::Nanosleep { req: q, rem })
        } else if a == SYS_CLOCK_GETTIME {
            let s = UserSlice::wo(c, TIMESPEC_SIZE)?;
            be.invoke(self, Op::ClockGettime { clock: b, buf: s })
        } else if a == SYS_MKNS {
            if c > usize::MAX / PAIR_SIZE {
                return Err(Error::Overflow);
            }
            let s = UserSlice::ro(b, c * PAIR_SIZE)?;
            be.invoke(self, Op::Mkns { pairs: s })
        } else if a == SYS_FUNMAP {
            be.invoke(self, Op::Funmap { addr: b, len: c })
        } else if a == SYS_FUTEX {
            be.invoke(self, Op::Futex { addr: b, op: c, val: d, val2: e, addr2: f })
        } else if a == SYS_MPROTECT {
            be.invoke(self, Op::Mprotect { addr: b, len: c, flags: d & MAP_FLAGS_MASK })
        } else if a == SYS_MREMAP {
            be.invoke(self, Op::Mremap { old_addr: b, old_len: c, new_addr: d, new_len: e, flags: f })
        } else {
            Err(Error::NoSuchSyscall)
        }
    }
}

/// What the caller of the entry is left to do.
#[derive(Clone, Copy, Debug, PartialEq, Eq, Structural)]
pub enum Outcome {
    /// Resume user space with this word.
    Return(usize),
    /// Tear the context down; it does not resume.
    Exit,
}

/// Everything one request does: kernel state, per-core block, trace
/// records and outcome.
pub open spec fn syscall_spec<B: Backend>(
    k: KernelState,
    be: B,
    p: PercpuBlock,
    enabled: bool,
    recs: Seq<TraceRecord>,
    w: [usize; 6],
) -> (KernelState, B, PercpuBlock, Seq<TraceRecord>, Outcome) {
    let (k1, be1, res) = step(k, be, w[0], w[1], w[2], w[3], w[4], w[5]);
    let recs1 = record_spec(enabled, recs, TraceRecord { words: w, result: None });
    let recs2 = record_spec(enabled, recs1, TraceRecord { words: w, result: Some(res) });
    let (p1, kill) = leave_spec(enter_spec(p));
    (k1, be1, p1, recs2, if kill { Outcome::Exit } else { Outcome::Return(mux_spec(res)) })
}

/// The entry point: marks the core, traces, dispatches, clears the mark,
/// checks for a kill, and encodes the result.
pub fn syscall<B: Backend>(
    kernel: &mut Kernel,
    be: &mut B,
    percpu: &mut PercpuBlock,
    trace: &mut Trace,
    a: usize,
    b: usize,
    c: usize,
    d: usize,
    e: usize,
    f: usize,
) -> (r: Outcome)
    requires
        old(kernel).wf(),
    ensures
        final(kernel).wf(),
        final(trace).enabled == old(trace).enabled,
        (final(kernel).state(), *final(be), *final(percpu), final(trace).records@, r) == syscall_spec(
            old(kernel).state(), *old(be), *old(percpu), old(trace).enabled, old(trace).records@, [a, b, c, d, e, f]),
{
    percpu.enter_syscall();
    trace.debug_start([a, b, c, d, e, f]);
    let result = kernel.dispatch(be, a, b, c, d, e, f);
    trace.debug_end([a, b, c, d, e, f], result);
    finish_syscall(percpu, result)
}

/// The checkpoint after a dispatch: leaves the system call, then reads the
/// kill request once; a killed context is torn down, any other gets its
/// result encoded.
pub fn finish_syscall(percpu: &mut PercpuBlock, result: Result<usize, Error>) -> (r: Outcome)
    ensures
        *final(percpu) == leave_spec(*old(percpu)).0,
        r == (if leave_spec(*old(percpu)).1 { Outcome::Exit } else { Outcome::Return(mux_spec(result)) }),
{
    if percpu.leave_syscall() {
        Outcome::Exit
    } else {
        Outcome::Return(Error::mux(result))
    }
}

/// Any number outside the table fails as an unknown call and leaves the
/// kernel and the backend as they were.
pub proof fn lemma_unknown_number<B: Backend>(k: KernelState, be: B, a: usize, b: usize, c: usize, d: usize, e: usize, f: usize)
    requires
        !is_known(a),
    ensures
        step(k, be, a, b, c, d, e, f) == (k, be, Err::<usize, Error>(Error::NoSuchSyscall)),
{
}

/// Directory enumeration with any header size but the fixed one fails as
/// an invalid argument and changes nothing.
pub proof fn lemma_getdents_header<B: Backend>(k: KernelState, be: B, b: usize, c: usize, d: usize, e: usize, f: usize)
    requires
        e != DIRENT_HEADER_SIZE,
    ensures
        step(k, be, SYS_GETDENTS, b, c, d, e, f) == (k, be, Err::<usize, Error>(Error::InvalidArgument)),
{
}

/// Trace hooks are a side channel: with the hooks on or off, and whatever
/// they recorded before, a request leaves the same kernel state, backend
/// and per-core block, and has the same outcome.
pub proof fn lemma_trace_transparent<B: Backend>(
    k: KernelState,
    be: B,
    p: PercpuBlock,
    en1: bool,
    recs1: Seq<TraceRecord>,
    en2: bool,
    recs2: Seq<TraceRecord>,
    w: [usize; 6],
)
    ensures
        syscall_spec(k, be, p, en1, recs1, w).0 == syscall_spec(k, be, p, en2, recs2, w).0,
        syscall_spec(k, be, p, en1, recs1, w).1 == syscall_spec(k, be, p, en2, recs2, w).1,
        syscall_spec(k, be, p, en1, recs1, w).2 == syscall_spec(k, be, p, en2, recs2, w).2,
        syscall_spec(k, be, p, en1, recs1, w).4 == syscall_spec(k, be, p, en2, recs2, w).4,
        !en1 ==> syscall_spec(k, be, p, en1, recs1, w).3 == recs1,
{
}

/// A pending kill turns every request into a teardown, and the core is
/// out of the system call when that happens.
pub proof fn lemma_kill_checked_after_every_call<B: Backend>(
    k: KernelState,
    be: B,
    p: PercpuBlock,
    en: bool,
    recs: Seq<TraceRecord>,
    w: [usize; 6],
)
    ensures
        p.being_killed ==> syscall_spec(k, be, p, en, recs, w).4 == Outcome::Exit,
        !p.being_killed ==> syscall_spec(k, be, p, en, recs, w).4 == Outcome::Return(
            mux_spec(step(k, be, w[0], w[1], w[2], w[3], w[4], w[5]).2)),
        !syscall_spec(k, be, p, en, recs, w).2.inside_syscall,
{
}

/// After `dup`, a write through the new handle is seen through the old
/// one: both name one node, which holds what the write produced, and a
/// positioned read through the old handle hands back that node's bytes.
pub proof fn lemma_dup_write_shared<B: Backend>(k: KernelState, be: B, fd: usize, c: usize, c2: usize, d2: usize,
    c3: usize, d3: usize, e3: usize)
    requires
        kernel_wf(k),
        step(k, be, SYS_DUP, fd, c, 0, 0, 0).2 is Ok,
    ensures
        ({
            let (k1, be1, r) = step(k, be, SYS_DUP, fd, c, 0, 0, 0);
            let h = r.unwrap();
            let (k2, be2, w) = step(k1, be1, SYS_WRITE, h, c2, d2, 0, 0);
            &&& h != fd
            &&& resolve_spec(k1.files, fd) matches Ok(d0)
            &&& resolve_spec(k1.files, h) matches Ok(d1)
            &&& d0.number == d1.number
            &&& w is Ok ==> (resolve_spec(k2.files, fd) matches Ok(d3)
                && d3.number == d0.number
                && (UserSlice::spec_new(c2, d2, Access::ReadOnly) matches Ok(s)
                    && mem_read(k1, s) matches Ok(bytes)
                    && k2.files.data[d0.number as int] == written(
                        k1.files.data[d0.number as int],
                        write_pos(d1.flags, k1.files.data[d0.number as int], d1.offset) as nat,
                        bytes)))
            &&& w is Ok ==> (UserSlice::spec_new(c3, d3, Access::WriteOnly) matches Ok(s3) ==> (
                mapped(k2.base, k2.mem, s3) ==> ({
                    let (k3, _be3, r3) = step(k2, be2, SYS_READ2, fd, c3, d3, e3, usize::MAX);
                    let got = read_at(k2.files.data[d0.number as int], e3 as nat, d3 as nat);
                    &&& r3 == Ok::<usize, Error>(got.len() as usize)
                    &&& k3.mem == write_spec(k2.base, k2.mem, s3, got)
                })))
        }),
{
    lemma_resolution(k.files, fd, fd);
}

/// A positioned read or write never changes the handle's stored flags
/// (nor anything else of the table). The all-ones flags word runs the call
/// under the descriptor's own flags; any other accepted word runs it under
/// the descriptor's flags with that word's per-call bits.
pub proof fn lemma_flags_word<B: Backend>(k: KernelState, be: B, a: usize, fd: usize, c: usize, d: usize, e: usize, f: usize, flags: u32)
    requires
        a == SYS_READ2 || a == SYS_WRITE2,
    ensures
        step(k, be, a, fd, c, d, e, f).0.files.handles == k.files.handles,
        call_flags(flags, usize::MAX) == flags,
        f != usize::MAX && f <= 3 ==> call_flags(flags, f) == rw_flags_spec(flags, f as u32),
        f != usize::MAX && f > 3 && resolve_spec(k.files, fd) is Ok
            ==> step(k, be, a, fd, c, d, e, f) == (k, be, Err::<usize, Error>(Error::InvalidArgument)),
{
}

/// Bytes a read delivers into a region are the bytes a later request
/// reads back from the same place: a read of `d` bytes at `c` that
/// returned `n` leaves exactly the bytes it took from the node in
/// `[c, c + n)`, and a read-only view of that range succeeds.
pub proof fn lemma_read_then_write_back<B: Backend>(k: KernelState, be: B, fd: usize, c: usize, d: usize)
    requires
        kernel_wf(k),
        step(k, be, SYS_READ, fd, c, d, 0, 0).2 is Ok,
    ensures
        ({
            let (k1, _be1, r) = step(k, be, SYS_READ, fd, c, d, 0, 0);
            let desc = resolve_spec(k.files, fd).unwrap();
            let bytes = read_at(k.files.data[desc.number as int], desc.offset as nat, d as nat);
            &&& r == Ok::<usize, Error>(bytes.len() as usize)
            &&& UserSlice::spec_new(c, bytes.len() as usize, Access::ReadOnly) matches Ok(s)
            &&& mem_read(k1, s) == Ok::<Seq<u8>, Error>(bytes)
        }),
{
    let desc = resolve_spec(k.files, fd).unwrap();
    let bytes = read_at(k.files.data[desc.number as int], desc.offset as nat, d as nat);
    if !in_user_space(c, d) {
        lemma_outside_user_space_refused(c, d, Access::WriteOnly);
    }
    lemma_inside_user_space_accepted(c, d, Access::WriteOnly);
    lemma_inside_user_space_accepted(c, bytes.len() as usize, Access::ReadOnly);
    let w = UserSlice::spec_new(c, d, Access::WriteOnly).unwrap();
    let rd = UserSlice::spec_new(c, bytes.len() as usize, Access::ReadOnly).unwrap();
    lemma_round_trip(k.base, k.mem, w, rd, bytes);
}

} // verus!
