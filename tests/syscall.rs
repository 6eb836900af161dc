use syscall_core::backend::{Backend, MemServices, Op};
use syscall_core::dispatch::{finish_syscall, syscall, Outcome, DIRENT_HEADER_SIZE};
use syscall_core::error::{Error, EBADF, EFAULT, EINVAL, ENOSYS, EOPNOTSUPP, EOVERFLOW};
use syscall_core::kernel::{Kernel, KernelState, SEEK_CUR, SEEK_END, SEEK_SET};
use syscall_core::number::{
    SYS_FCHMOD, SYS_FCHOWN, SYS_FEVENT, SYS_FPATH, SYS_FSTAT, SYS_MPROTECT, SYS_NANOSLEEP,
    SYS_CALL, SYS_CLOSE, SYS_DUP, SYS_DUP2, SYS_FMAP, SYS_FSYNC, SYS_FTRUNCATE, SYS_GETDENTS,
    SYS_LSEEK, SYS_MKNS, SYS_OPEN, SYS_READ, SYS_READ2, SYS_WRITE, SYS_WRITE2, SYS_YIELD,
};
use syscall_core::percpu::PercpuBlock;
use syscall_core::scheme::O_APPEND;
use syscall_core::trace::Trace;
use syscall_core::usercopy::{Access, UserSlice, USER_END};

const BASE: usize = 0x1000;

fn kernel() -> Kernel {
    Kernel::new(BASE, vec![0u8; 4096]).unwrap()
}

fn put(k: &mut Kernel, addr: usize, data: &[u8]) {
    let s = UserSlice::wo(addr, data.len()).unwrap();
    k.mem.write(&s, data).unwrap();
}

fn get(k: &Kernel, addr: usize, len: usize) -> Vec<u8> {
    let s = UserSlice::ro(addr, len).unwrap();
    k.mem.read(&s).unwrap()
}

fn err(code: usize) -> usize {
    0usize.wrapping_sub(code)
}

fn call(k: &mut Kernel, w: [usize; 6]) -> usize {
    let mut p = PercpuBlock::new();
    let mut t = Trace::new(false);
    match syscall(k, &mut MemServices {}, &mut p, &mut t, w[0], w[1], w[2], w[3], w[4], w[5]) {
        Outcome::Return(r) => r,
        Outcome::Exit => panic!("context torn down"),
    }
}

fn open(k: &mut Kernel, path: &[u8], flags: usize) -> usize {
    put(k, BASE, path);
    call(k, [SYS_OPEN, 0, BASE, path.len(), flags, 0])
}

#[test]
fn mux_success_and_failure() {
    assert_eq!(Error::mux(Ok(7)), 7);
    assert_eq!(Error::mux(Err(Error::BadFileDescriptor)), usize::MAX - 8);
    assert_eq!(Error::mux(Err(Error::NoSuchSyscall)) as isize, -38);
    assert_eq!(Error::InvalidArgument.errno(), 22);
    assert_eq!(Error::BadAddress.errno(), 14);
    assert_eq!(Error::Overflow.errno(), 75);
    assert_eq!(Error::WouldBlock.errno(), 11);
    assert_eq!(Error::NotSupported.errno(), 95);
}

#[test]
fn unknown_numbers_are_no_such_syscall() {
    let mut k = kernel();
    for a in [0usize, 1, 2, 999, 0x2000_0000, usize::MAX] {
        assert_eq!(call(&mut k, [a, 1, 2, 3, 4, 5]), err(ENOSYS));
    }
}

#[test]
fn regions_outside_user_space_are_refused() {
    for (addr, len) in [(USER_END, 1usize), (USER_END - 4, 5), (usize::MAX, 2), (0, USER_END + 1)] {
        assert_eq!(UserSlice::ro(addr, len), Err(Error::BadAddress));
        assert_eq!(UserSlice::wo(addr, len), Err(Error::BadAddress));
        assert_eq!(UserSlice::rw(addr, len), Err(Error::BadAddress));
    }
    let s = UserSlice::rw(USER_END - 4, 4).unwrap();
    assert_eq!((s.addr(), s.len(), s.access()), (USER_END - 4, 4, Access::ReadWrite));
    assert_eq!(USER_END, 0x0000_8000_0000_0000);
}

#[test]
fn region_round_trips_bytes() {
    let mut k = kernel();
    let w = UserSlice::wo(BASE + 100, 5).unwrap();
    assert_eq!(k.mem.write(&w, b"hello"), Ok(5));
    let r = UserSlice::ro(BASE + 100, 5).unwrap();
    assert_eq!(k.mem.read(&r).unwrap(), b"hello".to_vec());
    let unmapped = UserSlice::ro(BASE + 4094, 4).unwrap();
    assert_eq!(k.mem.read(&unmapped), Err(Error::BadAddress));
    assert_eq!(k.mem.write(&UserSlice::wo(BASE, 2).unwrap(), b"abc"), Err(Error::InvalidArgument));
}

#[test]
fn null_optional_region_is_none() {
    assert_eq!(UserSlice::wo(0, 16).unwrap().none_if_null(), None);
    let s = UserSlice::wo(8, 16).unwrap();
    assert_eq!(s.none_if_null(), Some(s));
}

#[test]
fn open_close_close() {
    let mut k = kernel();
    let h = open(&mut k, b"/tmp/a", 0);
    assert_eq!(h, 0);
    assert_eq!(call(&mut k, [SYS_CLOSE, h, 0, 0, 0, 0]), 0);
    assert_eq!(call(&mut k, [SYS_CLOSE, h, 0, 0, 0, 0]), err(EBADF));
}

#[test]
fn unopened_handles_do_not_resolve() {
    let mut k = kernel();
    assert_eq!(k.files.resolve(0), Err(Error::BadFileDescriptor));
    assert_eq!(call(&mut k, [SYS_FSYNC, 3, 0, 0, 0, 0]), err(EBADF));
    let h = open(&mut k, b"f", 0);
    assert_eq!(call(&mut k, [SYS_FSYNC, h, 0, 0, 0, 0]), 0);
    assert_eq!(call(&mut k, [SYS_CLOSE, h, 0, 0, 0, 0]), 0);
    assert_eq!(k.files.resolve(h), Err(Error::BadFileDescriptor));
    assert_eq!(call(&mut k, [SYS_READ, h, BASE, 4, 0, 0]), err(EBADF));
}

#[test]
fn dup_shares_state() {
    let mut k = kernel();
    let h = open(&mut k, b"shared", 0);
    let h2 = call(&mut k, [SYS_DUP, h, 0, 0, 0, 0]);
    assert_eq!(h2, 1);
    put(&mut k, BASE + 200, b"xyz");
    assert_eq!(call(&mut k, [SYS_WRITE, h2, BASE + 200, 3, 0, 0]), 3);
    assert_eq!(call(&mut k, [SYS_READ2, h, BASE + 300, 8, 0, usize::MAX]), 3);
    assert_eq!(get(&k, BASE + 300, 3), b"xyz".to_vec());
    assert_eq!(call(&mut k, [SYS_CLOSE, h2, 0, 0, 0, 0]), 0);
    assert_eq!(call(&mut k, [SYS_READ2, h, BASE + 300, 8, 1, usize::MAX]), 2);
    assert_eq!(call(&mut k, [SYS_CLOSE, h, 0, 0, 0, 0]), 0);
}

#[test]
fn dup2_targets_a_chosen_handle() {
    let mut k = kernel();
    let h = open(&mut k, b"x", 0);
    assert_eq!(call(&mut k, [SYS_DUP2, h, 5, 0, 0, 0]), 5);
    assert_eq!(k.files.resolve(5).unwrap().number, k.files.resolve(h).unwrap().number);
    assert_eq!(call(&mut k, [SYS_DUP2, 9, 5, 0, 0, 0]), err(EBADF));
    assert_eq!(call(&mut k, [SYS_DUP, 9, BASE, 4, 0, 0]), err(EBADF));
}

#[test]
fn reopening_a_path_finds_the_same_node() {
    let mut k = kernel();
    let a = open(&mut k, b"same", 0);
    put(&mut k, BASE + 64, b"hi");
    assert_eq!(call(&mut k, [SYS_WRITE, a, BASE + 64, 2, 0, 0]), 2);
    let b = open(&mut k, b"same", 0);
    assert_eq!(b, 1);
    assert_eq!(call(&mut k, [SYS_READ, b, BASE + 400, 10, 0, 0]), 2);
    assert_eq!(get(&k, BASE + 400, 2), b"hi".to_vec());
    assert_eq!(call(&mut k, [SYS_READ, b, BASE + 400, 10, 0, 0]), 0);
}

#[test]
fn getdents_header_size_must_match() {
    let mut k = kernel();
    let h = open(&mut k, b"d", 0);
    for e in [0usize, 1, 18, 20, 24, 0x1_0013, usize::MAX] {
        assert_eq!(call(&mut k, [SYS_GETDENTS, h, BASE, 64, e, 0]), err(EINVAL));
    }
    assert_eq!(call(&mut k, [SYS_GETDENTS, h, BASE, 64, DIRENT_HEADER_SIZE, 0]), err(EOPNOTSUPP));
    assert_eq!(call(&mut k, [SYS_GETDENTS, 7, BASE, 64, DIRENT_HEADER_SIZE, 0]), err(EBADF));
}

#[test]
fn sentinel_flags_keep_descriptor_flags() {
    let mut k = kernel();
    let h = open(&mut k, b"log", O_APPEND as usize);
    put(&mut k, BASE + 100, b"abcd");
    assert_eq!(call(&mut k, [SYS_WRITE2, h, BASE + 100, 4, 0, usize::MAX]), 4);
    // The descriptor appends, so the positioned offset is not used.
    assert_eq!(call(&mut k, [SYS_WRITE2, h, BASE + 100, 2, 0, usize::MAX]), 2);
    assert_eq!(k.files.node_data(0), &b"abcdab".to_vec());
    // A per-call word without the append bit overrides it for this call.
    put(&mut k, BASE + 100, b"Z");
    assert_eq!(call(&mut k, [SYS_WRITE2, h, BASE + 100, 1, 1, 0]), 1);
    assert_eq!(k.files.node_data(0), &b"aZcdab".to_vec());
    assert_eq!(k.files.resolve(h).unwrap().flags, O_APPEND);
    // The next call runs under the descriptor's flags again.
    assert_eq!(call(&mut k, [SYS_WRITE2, h, BASE + 100, 1, 0, usize::MAX]), 1);
    assert_eq!(k.files.node_data(0), &b"aZcdabZ".to_vec());
    assert_eq!(call(&mut k, [SYS_WRITE2, h, BASE + 100, 1, 0, 4]), err(EINVAL));
    assert_eq!(call(&mut k, [SYS_READ2, h, BASE + 100, 1, 0, 8]), err(EINVAL));
}

#[test]
fn write2_gap_is_zero_filled() {
    let mut k = kernel();
    let h = open(&mut k, b"g", 0);
    put(&mut k, BASE + 100, b"q");
    assert_eq!(call(&mut k, [SYS_WRITE2, h, BASE + 100, 1, 3, 0]), 1);
    assert_eq!(k.files.node_data(0), &vec![0u8, 0, 0, b'q']);
}

#[test]
fn kill_during_call_tears_down_after_it() {
    let mut k = kernel();
    let mut p = PercpuBlock::new();
    let mut t = Trace::new(false);
    p.enter_syscall();
    p.request_kill();
    assert!(p.inside_syscall);
    assert!(p.leave_syscall());
    assert!(!p.inside_syscall);
    let r = syscall(&mut k, &mut MemServices {}, &mut p, &mut t, SYS_YIELD, 0, 0, 0, 0, 0);
    assert_eq!(r, Outcome::Exit);
    assert!(!p.inside_syscall);
    let mut q = PercpuBlock::new();
    assert_eq!(syscall(&mut k, &mut MemServices {}, &mut q, &mut t, SYS_YIELD, 0, 0, 0, 0, 0), Outcome::Return(0));
    assert!(!q.inside_syscall);
}

#[test]
fn trace_hooks_do_not_change_results() {
    let words = [
        [SYS_OPEN, 0, BASE, 3, 0, 0],
        [SYS_CLOSE, 0, 0, 0, 0, 0],
        [SYS_CLOSE, 0, 0, 0, 0, 0],
        [SYS_READ, 0, BASE, 4, 0, 0],
        [12345, 0, 0, 0, 0, 0],
    ];
    let mut k1 = kernel();
    let mut k2 = kernel();
    put(&mut k1, BASE, b"abc");
    put(&mut k2, BASE, b"abc");
    let mut on = Trace::new(true);
    let mut off = Trace::new(false);
    for w in words {
        let mut p1 = PercpuBlock::new();
        let mut p2 = PercpuBlock::new();
        let r1 = syscall(&mut k1, &mut MemServices {}, &mut p1, &mut on, w[0], w[1], w[2], w[3], w[4], w[5]);
        let r2 = syscall(&mut k2, &mut MemServices {}, &mut p2, &mut off, w[0], w[1], w[2], w[3], w[4], w[5]);
        assert_eq!(r1, r2);
    }
    assert_eq!(on.records.len(), 10);
    assert_eq!(off.records.len(), 0);
    assert_eq!(on.records[0].words, words[0]);
    assert_eq!(on.records[0].result, None);
    assert_eq!(on.records[1].result, Some(Ok(0)));
    assert_eq!(on.records[5].result, Some(Err(Error::BadFileDescriptor)));
}

#[test]
fn lseek_moves_the_offset() {
    let mut k = kernel();
    let h = open(&mut k, b"s", 0);
    put(&mut k, BASE + 100, b"0123456789");
    assert_eq!(call(&mut k, [SYS_WRITE, h, BASE + 100, 10, 0, 0]), 10);
    assert_eq!(call(&mut k, [SYS_LSEEK, h, 2, SEEK_SET, 0, 0]), 2);
    assert_eq!(call(&mut k, [SYS_LSEEK, h, 3, SEEK_CUR, 0, 0]), 5);
    assert_eq!(call(&mut k, [SYS_LSEEK, h, (-4isize) as usize, SEEK_END, 0, 0]), 6);
    assert_eq!(call(&mut k, [SYS_READ, h, BASE + 500, 2, 0, 0]), 2);
    assert_eq!(get(&k, BASE + 500, 2), b"67".to_vec());
    assert_eq!(call(&mut k, [SYS_LSEEK, h, (-1isize) as usize, SEEK_SET, 0, 0]), err(EINVAL));
    assert_eq!(call(&mut k, [SYS_LSEEK, h, 0, 7, 0, 0]), err(EINVAL));
    assert_eq!(call(&mut k, [SYS_LSEEK, h, usize::MAX / 2, SEEK_SET, 0, 0]), usize::MAX / 2);
    assert_eq!(call(&mut k, [SYS_LSEEK, h, usize::MAX / 2, SEEK_CUR, 0, 0]), usize::MAX - 1);
    assert_eq!(call(&mut k, [SYS_LSEEK, h, 2, SEEK_CUR, 0, 0]), err(EOVERFLOW));
}

#[test]
fn ftruncate_cuts_and_extends() {
    let mut k = kernel();
    let h = open(&mut k, b"t", 0);
    put(&mut k, BASE + 100, b"abcdef");
    assert_eq!(call(&mut k, [SYS_WRITE, h, BASE + 100, 6, 0, 0]), 6);
    assert_eq!(call(&mut k, [SYS_FTRUNCATE, h, 2, 0, 0, 0]), 0);
    assert_eq!(k.files.node_data(0), &b"ab".to_vec());
    assert_eq!(call(&mut k, [SYS_FTRUNCATE, h, 4, 0, 0, 0]), 0);
    assert_eq!(k.files.node_data(0), &vec![b'a', b'b', 0, 0]);
}

#[test]
fn bad_addresses_fail_before_use() {
    let mut k = kernel();
    let h = open(&mut k, b"b", 0);
    assert_eq!(call(&mut k, [SYS_WRITE, h, USER_END, 1, 0, 0]), err(EFAULT));
    assert_eq!(call(&mut k, [SYS_WRITE, 9, USER_END, 1, 0, 0]), err(EFAULT));
    assert_eq!(call(&mut k, [SYS_WRITE, h, 0x10, 1, 0, 0]), err(EFAULT));
    assert_eq!(call(&mut k, [SYS_READ, h, 0x10, 1, 0, 0]), err(EFAULT));
    assert_eq!(call(&mut k, [SYS_OPEN, 0, 0x10, 3, 0, 0]), err(EFAULT));
}

#[test]
fn mkns_count_overflow() {
    let mut k = kernel();
    assert_eq!(call(&mut k, [SYS_MKNS, BASE, usize::MAX / 8, 0, 0, 0]), err(EOVERFLOW));
    assert_eq!(call(&mut k, [SYS_MKNS, BASE, 2, 0, 0, 0]), err(EOPNOTSUPP));
    assert_eq!(call(&mut k, [SYS_MKNS, USER_END, 2, 0, 0, 0]), err(EFAULT));
}

#[test]
fn fmap_anonymous_skips_resolution() {
    let mut k = kernel();
    assert_eq!(call(&mut k, [SYS_FMAP, usize::MAX, BASE, 32, 0, 0]), err(EOPNOTSUPP));
    assert_eq!(call(&mut k, [SYS_FMAP, 4, BASE, 32, 0, 0]), err(EBADF));
    assert_eq!(call(&mut k, [SYS_FMAP, 4, BASE, 16, 0, 0]), err(EINVAL));
    assert_eq!(call(&mut k, [SYS_FMAP, 4, 0x10, 32, 0, 0]), err(EFAULT));
}

#[test]
fn call_flags_are_checked() {
    let mut k = kernel();
    assert_eq!(call(&mut k, [SYS_CALL, 0, BASE, 8, 0x1000, BASE]), err(EINVAL));
    assert_eq!(call(&mut k, [SYS_CALL, 0, BASE, 8, 0x102, BASE]), err(EBADF));
    assert_eq!(call(&mut k, [SYS_CALL, 0, USER_END, 8, 0x102, BASE]), err(EFAULT));
}

#[test]
fn kernel_memory_must_fit_user_space() {
    assert!(Kernel::new(USER_END - 2, vec![0u8; 2]).is_some());
    assert!(Kernel::new(USER_END - 1, vec![0u8; 2]).is_none());
}

#[test]
fn read_exact_takes_a_prefix() {
    let mut k = kernel();
    put(&mut k, BASE + 8, b"abcdef");
    let s = UserSlice::ro(BASE + 8, 6).unwrap();
    assert_eq!(k.mem.read_exact(&s, 4).unwrap(), b"abcd".to_vec());
    assert_eq!(k.mem.read_exact(&s, 7), Err(Error::InvalidArgument));
    let edge = UserSlice::ro(BASE + 4094, 8).unwrap();
    assert_eq!(k.mem.read_exact(&edge, 4), Err(Error::BadAddress));
    assert_eq!(k.mem.read_exact(&edge, 2).unwrap(), vec![0u8, 0]);
}

#[test]
fn kill_after_result_before_check_tears_down() {
    let mut k = kernel();
    let mut p = PercpuBlock::new();
    p.enter_syscall();
    let result = k.dispatch(&mut MemServices {}, SYS_YIELD, 0, 0, 0, 0, 0);
    assert_eq!(result, Ok(0));
    p.request_kill();
    assert_eq!(finish_syscall(&mut p, result), Outcome::Exit);
    assert!(!p.inside_syscall);
    let mut q = PercpuBlock::new();
    q.enter_syscall();
    assert_eq!(finish_syscall(&mut q, Err(Error::WouldBlock)), Outcome::Return(err(11)));
}

/// Records what reaches it and answers with a fixed word.
struct Recorder {
    seen: Vec<Op>,
    answer: usize,
}

impl Backend for Recorder {
    // Only the verifier reads this item; it is never called.
    fn invoke_spec(&self, _k: KernelState, _op: Op) -> (Self, KernelState, Result<usize, Error>) {
        unreachable!()
    }

    fn invoke(&mut self, _k: &mut Kernel, op: Op) -> Result<usize, Error> {
        self.seen.push(op);
        Ok(self.answer)
    }
}

fn forwarded(k: &mut Kernel, w: [usize; 6], answer: usize) -> (Result<usize, Error>, Vec<Op>) {
    let mut rec = Recorder { seen: Vec::new(), answer };
    let r = k.dispatch(&mut rec, w[0], w[1], w[2], w[3], w[4], w[5]);
    (r, rec.seen)
}

#[test]
fn forwarded_operations_get_decoded_arguments() {
    let mut k = kernel();
    let h = open(&mut k, b"obj", 0);
    let (r, seen) = forwarded(&mut k, [SYS_FCHMOD, h, 0x1_01ED, 0, 0, 0], 0);
    assert_eq!(r, Ok(0));
    assert_eq!(seen, vec![Op::Fchmod { number: 0, mode: 0x01ED }]);
    let (r, seen) = forwarded(&mut k, [SYS_FCHOWN, h, 0x1_0000_0007, 9, 0, 0], 5);
    assert_eq!(r, Ok(5));
    assert_eq!(seen, vec![Op::Fchown { number: 0, uid: 7, gid: 9 }]);
    let (r, seen) = forwarded(&mut k, [SYS_FEVENT, h, 0xFF, 0, 0, 0], 0x17);
    assert_eq!(r, Ok(0x7 & 0x3));
    assert_eq!(seen, vec![Op::Fevent { number: 0, flags: 3 }]);
    let (r, seen) = forwarded(&mut k, [SYS_MPROTECT, BASE, 4096, usize::MAX, 0, 0], 0);
    assert_eq!(r, Ok(0));
    assert_eq!(seen, vec![Op::Mprotect { addr: BASE, len: 4096, flags: 0x0007_000F }]);
    let (r, seen) = forwarded(&mut k, [SYS_GETDENTS, h, BASE, 64, DIRENT_HEADER_SIZE, 42], 3);
    assert_eq!(r, Ok(3));
    assert_eq!(seen, vec![Op::Getdents { number: 0, buf: UserSlice::wo(BASE, 64).unwrap(), header_size: 19, cursor: 42 }]);
    let (_, seen) = forwarded(&mut k, [SYS_FSTAT, h, BASE, 8, 0, 0], 0);
    assert_eq!(seen, vec![Op::Fstat { number: 0, buf: UserSlice::wo(BASE, 8).unwrap() }]);
    let (_, seen) = forwarded(&mut k, [SYS_NANOSLEEP, BASE, 0, 0, 0, 0], 0);
    assert_eq!(seen, vec![Op::Nanosleep { req: UserSlice::ro(BASE, 16).unwrap(), rem: None }]);
    let (_, seen) = forwarded(&mut k, [SYS_FMAP, usize::MAX, BASE, 32, 0, 0], 0);
    assert_eq!(seen, vec![Op::FmapAnonymous { map: UserSlice::ro(BASE, 32).unwrap() }]);
    let (r, seen) = forwarded(&mut k, [SYS_FCHMOD, 7, 0, 0, 0, 0], 0);
    assert_eq!(r, Err(Error::BadFileDescriptor));
    assert!(seen.is_empty());
}

#[test]
fn fpath_copies_the_node_path() {
    let mut k = kernel();
    let h = open(&mut k, b"/scheme/file", 0);
    assert_eq!(call(&mut k, [SYS_FPATH, h, BASE + 100, 64, 0, 0]), 12);
    assert_eq!(get(&k, BASE + 100, 12), b"/scheme/file".to_vec());
    assert_eq!(call(&mut k, [SYS_FPATH, h, BASE + 100, 4, 0, 0]), 4);
    assert_eq!(call(&mut k, [SYS_FPATH, h, 0x10, 4, 0, 0]), err(EFAULT));
}
