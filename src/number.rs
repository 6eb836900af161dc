//! Operation numbers of the system-call table.
use vstd::prelude::*;

verus! {

pub const SYS_OPEN: usize = 0x1010_0005;
pub const SYS_RMDIR: usize = 0x1000_0054;
pub const SYS_UNLINK: usize = 0x1000_000A;

pub const SYS_CLOSE: usize = 0x2000_0006;
pub const SYS_OPENAT: usize = 0x2010_0007;
pub const SYS_DUP: usize = 0x2010_0029;
pub const SYS_DUP2: usize = 0x2010_003F;
pub const SYS_READ: usize = 0x2200_0003;
pub const SYS_READ2: usize = 0x2200_0023;
pub const SYS_WRITE: usize = 0x2100_0004;
pub const SYS_WRITE2: usize = 0x2100_0024;
pub const SYS_LSEEK: usize = 0x2000_0013;
pub const SYS_FCHMOD: usize = 0x2000_005E;
pub const SYS_FCHOWN: usize = 0x2000_00CF;
pub const SYS_FCNTL: usize = 0x2000_0037;
pub const SYS_FEVENT: usize = 0x2000_039F;
pub const SYS_SENDFD: usize = 0x2000_0022;
pub const SYS_GETDENTS: usize = 0x2200_0028;
pub const SYS_FMAP: usize = 0x2100_0384;
pub const SYS_FUNMAP: usize = 0x2000_005C;
pub const SYS_FPATH: usize = 0x2200_03A0;
pub const SYS_FLINK: usize = 0x2300_0009;
pub const SYS_FRENAME: usize = 0x2300_0026;
pub const SYS_FSTAT: usize = 0x2200_001C;
pub const SYS_FSTATVFS: usize = 0x2200_0064;
pub const SYS_FSYNC: usize = 0x2000_0076;
pub const SYS_FTRUNCATE: usize = 0x2000_005D;
pub const SYS_FUTIMENS: usize = 0x2100_0140;
pub const SYS_CALL: usize = 0x2000_0030;

pub const SYS_CLOCK_GETTIME: usize = 265;
pub const SYS_FUTEX: usize = 240;
pub const SYS_MPROTECT: usize = 125;
pub const SYS_MKNS: usize = 984;
pub const SYS_MREMAP: usize = 155;
pub const SYS_NANOSLEEP: usize = 162;
pub const SYS_YIELD: usize = 158;

/// Whether `a` names an operation of the table.
pub open spec fn is_known(a: usize) -> bool {
    a == SYS_OPEN || a == SYS_RMDIR || a == SYS_UNLINK || a == SYS_CLOSE || a == SYS_OPENAT
        || a == SYS_DUP || a == SYS_DUP2 || a == SYS_READ || a == SYS_READ2 || a == SYS_WRITE
        || a == SYS_WRITE2 || a == SYS_LSEEK || a == SYS_FCHMOD || a == SYS_FCHOWN
        || a == SYS_FCNTL || a == SYS_FEVENT || a == SYS_SENDFD || a == SYS_GETDENTS
        || a == SYS_FMAP || a == SYS_FUNMAP || a == SYS_FPATH || a == SYS_FLINK
        || a == SYS_FRENAME || a == SYS_FSTAT || a == SYS_FSTATVFS || a == SYS_FSYNC
        || a == SYS_FTRUNCATE || a == SYS_FUTIMENS || a == SYS_CALL || a == SYS_CLOCK_GETTIME
        || a == SYS_FUTEX || a == SYS_MPROTECT || a == SYS_MKNS || a == SYS_MREMAP
        || a == SYS_NANOSLEEP || a == SYS_YIELD
}

} // verus!
