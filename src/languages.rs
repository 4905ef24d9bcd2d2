//! Per-language configuration of the sandbox.
use vstd::prelude::*;

verus! {

/// What the sandbox needs to know of a programming language.
pub trait Language {
    /// The system calls, by name, that a program of the language may make.
    spec fn syscall_names() -> Seq<&'static str>;

    /// The system calls, by name, that a program of the language may make.
    fn allowed_syscalls() -> (r: Vec<&'static str>)
        ensures
            r@ == Self::syscall_names();
}

/// The system calls that a C++ program may make: process startup, memory
/// management, I/O on its descriptors, time, and exit.
pub open spec fn cpp_syscalls() -> Seq<&'static str> {
    seq![
        "read", "write", "access", "futex", "mmap", "rt_sigprocmask", "execve", "brk",
        "arch_prctl", "newfstatat", "close", "pread64", "mprotect", "munmap", "exit_group",
        "set_tid_address", "set_robust_list", "rt_sigaction", "prlimit64", "lseek",
        "clock_gettime", "openat", "readlink", "getpid", "clone", "gettimeofday",
        "getdents64", "sysinfo", "sched_getaffinity", "clock_getres", "geteuid", "socket",
        "connect", "gettid", "rt_sigreturn", "fcntl", "prctl", "uname", "ioctl", "getuid",
        "getcwd", "faccessat2", "madvise", "getrusage", "exit",
    ]
}

/// C++, and runtimes with the same needs.
pub struct Cpp;

impl Language for Cpp {
    open spec fn syscall_names() -> Seq<&'static str> {
        cpp_syscalls()
    }

    fn allowed_syscalls() -> (r: Vec<&'static str>) {
        let r = vec![
            "read", "write", "access", "futex", "mmap", "rt_sigprocmask", "execve", "brk",
            "arch_prctl", "newfstatat", "close", "pread64", "mprotect", "munmap", "exit_group",
            "set_tid_address", "set_robust_list", "rt_sigaction", "prlimit64", "lseek",
            "clock_gettime", "openat", "readlink", "getpid", "clone", "gettimeofday",
            "getdents64", "sysinfo", "sched_getaffinity", "clock_getres", "geteuid", "socket",
            "connect", "gettid", "rt_sigreturn", "fcntl", "prctl", "uname", "ioctl", "getuid",
            "getcwd", "faccessat2", "madvise", "getrusage", "exit",
        ];
        assert(r@ =~= cpp_syscalls());
        r
    }
}

} // verus!
