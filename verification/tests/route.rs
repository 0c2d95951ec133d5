use syscall_dispatch::error::{Error, EFAULT, ENOSYS};
use syscall_dispatch::handle::{ContextId, FileHandle, SchemeNamespace};
use syscall_dispatch::invocation::{exit_status, word_size, Invocation, Layout};
use syscall_dispatch::memory::{AddressSpace, Region, Span};
use syscall_dispatch::number::{
    SYS_BRK, SYS_CHDIR, SYS_CHMOD, SYS_CLASS_FILE, SYS_CLOCK_GETTIME, SYS_CLONE, SYS_CLOSE, SYS_DUP,
    SYS_DUP2, SYS_EXECVE, SYS_EXIT, SYS_FCNTL, SYS_FEVENT, SYS_FUNMAP, SYS_FUTEX, SYS_GETCWD,
    SYS_GETEGID, SYS_GETENS, SYS_GETEUID, SYS_GETGID, SYS_GETNS, SYS_GETPGID, SYS_GETPID,
    SYS_GETPPID, SYS_GETUID, SYS_IOPL, SYS_KILL, SYS_LSEEK, SYS_MKNS, SYS_NANOSLEEP, SYS_OPEN,
    SYS_PHYSALLOC, SYS_PHYSFREE, SYS_PHYSMAP, SYS_PHYSUNMAP, SYS_PIPE2, SYS_READ, SYS_RMDIR,
    SYS_SETPGID, SYS_SETREGID, SYS_SETRENS, SYS_SETREUID, SYS_SIGACTION, SYS_SIGRETURN, SYS_UNLINK,
    SYS_VIRTTOPHYS, SYS_WAITPID, SYS_WRITE, SYS_YIELD,
};
use syscall_dispatch::route::route;

const TEXT: usize = 0x1000;
const DATA: usize = 0x2000;
const HOLE: usize = 0x9000;
const LAYOUT: Layout = Layout { time_spec: 16, sig_action: 32 };

/// Read-only text at 0x1000 and data to write at 0x2000, one page each. The
/// space is never freed, so that a view of it can leave the function that
/// asked for it.
fn space() -> &'static AddressSpace {
    let mut space = AddressSpace::new();
    assert!(space.map(Region { start: TEXT, last: TEXT + 0xfff, user: true, writable: false }));
    assert!(space.map(Region { start: DATA, last: DATA + 0xfff, user: true, writable: true }));
    Box::leak(Box::new(space))
}

fn go(a: usize, b: usize, c: usize, d: usize, e: usize, f: usize) -> Result<Invocation<'static>, Error> {
    route(a, b, c, d, e, f, 0xb000, space(), LAYOUT)
}

fn bad_address() -> Result<Invocation<'static>, Error> {
    Err(Error::new(EFAULT))
}

fn span(address: usize, len: usize, size: usize) -> Span {
    Span { address, len, size }
}

#[test]
fn native_layout_is_that_of_the_syscall_crate() {
    let layout = Layout::native();
    assert_eq!(layout.time_spec, core::mem::size_of::<syscall::data::TimeSpec>());
    assert_eq!(layout.sig_action, core::mem::size_of::<syscall::data::SigAction>());
    assert_eq!(word_size(), core::mem::size_of::<usize>());
    assert_ne!(layout.time_spec, 0);
    assert_ne!(layout.sig_action, 0);
}

#[test]
fn native_layout_has_sizes_that_the_structures_can_have() {
    let layout = Layout::native();
    let word = core::mem::size_of::<usize>();
    assert!(layout.time_spec == 12 || layout.time_spec == 16);
    assert!(layout.sig_action == 16 + 2 * word || layout.sig_action == 32);
    if word == 8 {
        assert_eq!(layout, Layout { time_spec: 16, sig_action: 32 });
    }
}

#[test]
fn exit_status_is_the_low_byte_moved_up() {
    assert_eq!(exit_status(0x00), 0x0000);
    assert_eq!(exit_status(0xFF), 0xFF00);
    assert_eq!(exit_status(0x01), 0x0100);
    assert_eq!(exit_status(0x1234), 0x3400);
    assert_eq!(exit_status(0x100), 0);
    assert_eq!(exit_status(usize::MAX), 0xFF00);
}

#[test]
fn exit_packs_the_status() {
    assert_eq!(go(SYS_EXIT, 0x00, 0, 0, 0, 0), Ok(Invocation::Exit { status: 0x0000 }));
    assert_eq!(go(SYS_EXIT, 0xFF, 0, 0, 0, 0), Ok(Invocation::Exit { status: 0xFF00 }));
    assert_eq!(go(SYS_EXIT, 0x1234, 9, 9, 9, 9), Ok(Invocation::Exit { status: 0x3400 }));
}

#[test]
fn file_operation_on_a_region_to_read() {
    match go(SYS_WRITE, 3, TEXT, 16, 0, 0) {
        Ok(Invocation::FileOpSlice { number, fd, buf }) => {
            assert_eq!(number, SYS_WRITE);
            assert_eq!(fd, FileHandle::from(3));
            assert_eq!(buf.span(), span(TEXT, 16, 1));
        },
        other => panic!("{:?}", other),
    }
    assert!(go(SYS_WRITE, 3, DATA, 16, 0, 0).is_ok());
    assert!(go(SYS_WRITE, 3, HOLE, 0, 0, 0).is_ok());
    assert_eq!(go(SYS_WRITE, 3, HOLE, 16, 0, 0), bad_address());
    assert_eq!(go(SYS_WRITE, 3, TEXT + 0xff8, 0x1009, 0, 0), bad_address());
    assert!(go(SYS_CLASS_FILE | 0x0100_0000 | 320, 3, TEXT, 32, 0, 0).is_ok());
}

#[test]
fn file_operation_on_a_region_to_write() {
    match go(SYS_READ, 4, DATA + 8, 0x100, 0, 0) {
        Ok(Invocation::FileOpMutSlice { number, fd, buf }) => {
            assert_eq!(number, SYS_READ);
            assert_eq!(fd, FileHandle::from(4));
            assert_eq!(buf.span(), span(DATA + 8, 0x100, 1));
        },
        other => panic!("{:?}", other),
    }
    assert_eq!(go(SYS_READ, 4, TEXT, 16, 0, 0), bad_address());
    assert_eq!(go(SYS_READ, 4, 0, 16, 0, 0), bad_address());
    assert!(go(SYS_READ, 4, 0, 0, 0, 0).is_ok());
}

#[test]
fn file_operations_on_plain_values() {
    let fd = FileHandle::from(5);
    assert_eq!(go(SYS_CLOSE, 5, 1, 2, 3, 4), Ok(Invocation::Close { fd }));
    assert_eq!(go(SYS_FCNTL, 5, 1, 2, 3, 4), Ok(Invocation::Fcntl { fd, cmd: 1, arg: 2 }));
    assert_eq!(go(SYS_FEVENT, 5, 7, 2, 3, 4), Ok(Invocation::Fevent { fd, flags: 7 }));
    assert_eq!(go(SYS_FUNMAP, 0x7000, 1, 2, 3, 4), Ok(Invocation::Funmap { virtual_address: 0x7000 }));
    assert_eq!(
        go(SYS_LSEEK, 5, 100, 2, 3, 4),
        Ok(Invocation::FileOp { number: SYS_LSEEK, fd, c: 100, d: 2 })
    );
    assert_eq!(
        go(SYS_CLASS_FILE | 0xABCDE, 5, HOLE, usize::MAX, 3, 4),
        Ok(Invocation::FileOp { number: SYS_CLASS_FILE | 0xABCDE, fd, c: HOLE, d: usize::MAX })
    );
}

#[test]
fn duplicating_reads_its_buffer() {
    match go(SYS_DUP, 5, TEXT, 4, 0, 0) {
        Ok(Invocation::Dup { fd, buf }) => {
            assert_eq!(fd, FileHandle::from(5));
            assert_eq!(buf.span(), span(TEXT, 4, 1));
        },
        other => panic!("{:?}", other),
    }
    assert_eq!(go(SYS_DUP, 5, HOLE, 4, 0, 0), bad_address());
    match go(SYS_DUP2, 5, 6, DATA, 8, 0) {
        Ok(Invocation::Dup2 { fd, new_fd, buf }) => {
            assert_eq!(fd, FileHandle::from(5));
            assert_eq!(new_fd, FileHandle::from(6));
            assert_eq!(buf.span(), span(DATA, 8, 1));
        },
        other => panic!("{:?}", other),
    }
    assert_eq!(go(SYS_DUP2, 5, 6, HOLE, 8, 0), bad_address());
    assert!(go(SYS_DUP2, 5, HOLE, 0, 0, 0).is_ok());
}

#[test]
fn path_operations_read_the_path() {
    match go(SYS_OPEN, TEXT + 0x10, 12, 0x42, 0, 0) {
        Ok(Invocation::Open { path, flags }) => {
            assert_eq!(path.span(), span(TEXT + 0x10, 12, 1));
            assert_eq!(flags, 0x42);
        },
        other => panic!("{:?}", other),
    }
    match go(SYS_CHMOD, TEXT, 5, 0o755, 0, 0) {
        Ok(Invocation::Chmod { path, mode }) => {
            assert_eq!(path.span(), span(TEXT, 5, 1));
            assert_eq!(mode, 0o755);
        },
        other => panic!("{:?}", other),
    }
    match go(SYS_RMDIR, TEXT, 5, 0, 0, 0) {
        Ok(Invocation::Rmdir { path }) => assert_eq!(path.span(), span(TEXT, 5, 1)),
        other => panic!("{:?}", other),
    }
    match go(SYS_UNLINK, DATA, 6, 0, 0, 0) {
        Ok(Invocation::Unlink { path }) => assert_eq!(path.span(), span(DATA, 6, 1)),
        other => panic!("{:?}", other),
    }
    match go(SYS_CHDIR, DATA, 7, 0, 0, 0) {
        Ok(Invocation::Chdir { path }) => assert_eq!(path.span(), span(DATA, 7, 1)),
        other => panic!("{:?}", other),
    }
}

#[test]
fn path_operations_refuse_a_path_out_of_reach() {
    for number in [SYS_OPEN, SYS_CHMOD, SYS_RMDIR, SYS_UNLINK, SYS_CHDIR] {
        assert_eq!(go(number, HOLE, 4, 0, 0, 0), bad_address());
        assert_eq!(go(number, 0, 4, 0, 0, 0), bad_address());
        assert_eq!(go(number, DATA + 0xffc, 5, 0, 0, 0), bad_address());
        assert_eq!(go(number, TEXT, usize::MAX, 0, 0, 0), bad_address());
        assert!(go(number, TEXT, 4, 0, 0, 0).is_ok());
    }
}

#[test]
fn chmod_keeps_the_low_sixteen_bits_of_the_mode() {
    match go(SYS_CHMOD, TEXT, 5, 0x1_01ff, 0, 0) {
        Ok(Invocation::Chmod { mode, .. }) => assert_eq!(mode, 0x01ff),
        other => panic!("{:?}", other),
    }
    match go(SYS_CHMOD, TEXT, 5, usize::MAX, 0, 0) {
        Ok(Invocation::Chmod { mode, .. }) => assert_eq!(mode, 0xffff),
        other => panic!("{:?}", other),
    }
}

#[test]
fn calls_without_arguments() {
    assert_eq!(go(SYS_YIELD, 1, 2, 3, 4, 5), Ok(Invocation::Yield));
    assert_eq!(go(SYS_GETPID, 1, 2, 3, 4, 5), Ok(Invocation::Getpid));
    assert_eq!(go(SYS_GETPPID, 1, 2, 3, 4, 5), Ok(Invocation::Getppid));
    assert_eq!(go(SYS_GETEGID, 1, 2, 3, 4, 5), Ok(Invocation::Getegid));
    assert_eq!(go(SYS_GETENS, 1, 2, 3, 4, 5), Ok(Invocation::Getens));
    assert_eq!(go(SYS_GETEUID, 1, 2, 3, 4, 5), Ok(Invocation::Geteuid));
    assert_eq!(go(SYS_GETGID, 1, 2, 3, 4, 5), Ok(Invocation::Getgid));
    assert_eq!(go(SYS_GETNS, 1, 2, 3, 4, 5), Ok(Invocation::Getns));
    assert_eq!(go(SYS_GETUID, 1, 2, 3, 4, 5), Ok(Invocation::Getuid));
    assert_eq!(go(SYS_SIGRETURN, 1, 2, 3, 4, 5), Ok(Invocation::Sigreturn));
}

#[test]
fn calls_on_plain_values() {
    let pid = ContextId::from(11);
    assert_eq!(go(SYS_BRK, 0x8000, 0, 0, 0, 0), Ok(Invocation::Brk { address: 0x8000 }));
    assert_eq!(go(SYS_GETPGID, 11, 0, 0, 0, 0), Ok(Invocation::Getpgid { pid }));
    assert_eq!(go(SYS_CLONE, 0x100, 0, 0, 0, 0), Ok(Invocation::Clone { flags: 0x100, stack_base: 0xb000 }));
    assert_eq!(go(SYS_KILL, 11, 9, 0, 0, 0), Ok(Invocation::Kill { pid, sig: 9 }));
    assert_eq!(
        go(SYS_WAITPID, 11, HOLE, 1, 0, 0),
        Ok(Invocation::Waitpid { pid, status_ptr: HOLE, flags: 1 })
    );
    assert_eq!(go(SYS_IOPL, 3, 0, 0, 0, 0), Ok(Invocation::Iopl { level: 3 }));
    assert_eq!(
        go(SYS_SETPGID, 11, 12, 0, 0, 0),
        Ok(Invocation::Setpgid { pid, pgid: ContextId::from(12) })
    );
    assert_eq!(
        go(SYS_SETRENS, 1, 2, 0, 0, 0),
        Ok(Invocation::Setrens { rns: SchemeNamespace::from(1), ens: SchemeNamespace::from(2) })
    );
    assert_eq!(go(SYS_PHYSALLOC, 0x4000, 0, 0, 0, 0), Ok(Invocation::Physalloc { size: 0x4000 }));
    assert_eq!(
        go(SYS_PHYSFREE, 0xa000, 0x4000, 0, 0, 0),
        Ok(Invocation::Physfree { physical_address: 0xa000, size: 0x4000 })
    );
    assert_eq!(
        go(SYS_PHYSMAP, 0xa000, 0x4000, 1, 0, 0),
        Ok(Invocation::Physmap { physical_address: 0xa000, size: 0x4000, flags: 1 })
    );
    assert_eq!(go(SYS_PHYSUNMAP, 0xc000, 0, 0, 0, 0), Ok(Invocation::Physunmap { virtual_address: 0xc000 }));
    assert_eq!(go(SYS_VIRTTOPHYS, 0xc000, 0, 0, 0, 0), Ok(Invocation::Virttophys { virtual_address: 0xc000 }));
}

#[test]
fn credentials_keep_the_low_thirty_two_bits() {
    assert_eq!(go(SYS_SETREUID, 1000, 1001, 0, 0, 0), Ok(Invocation::Setreuid { ruid: 1000, euid: 1001 }));
    assert_eq!(go(SYS_SETREGID, 100, 101, 0, 0, 0), Ok(Invocation::Setregid { rgid: 100, egid: 101 }));
    assert_eq!(
        go(SYS_SETREUID, usize::MAX, 0xffff_ffff, 0, 0, 0),
        Ok(Invocation::Setreuid { ruid: u32::MAX, euid: u32::MAX })
    );
    if usize::BITS > 32 {
        assert_eq!(
            go(SYS_SETREGID, (1 << 32) | 5, 1 << 32, 0, 0, 0),
            Ok(Invocation::Setregid { rgid: 5, egid: 0 })
        );
    }
}

#[test]
fn sleeping_reads_the_request_and_may_write_the_rest() {
    match go(SYS_NANOSLEEP, TEXT, 0, 0, 0, 0) {
        Ok(Invocation::Nanosleep { req, rem }) => {
            assert_eq!(req.span(), span(TEXT, 1, 16));
            assert_eq!(rem, None);
        },
        other => panic!("{:?}", other),
    }
    match go(SYS_NANOSLEEP, TEXT, DATA + 0x20, 0, 0, 0) {
        Ok(Invocation::Nanosleep { req, rem }) => {
            assert_eq!(req.span(), span(TEXT, 1, 16));
            assert_eq!(rem.unwrap().span(), span(DATA + 0x20, 1, 16));
        },
        other => panic!("{:?}", other),
    }
    assert_eq!(go(SYS_NANOSLEEP, HOLE, 0, 0, 0, 0), bad_address());
    assert_eq!(go(SYS_NANOSLEEP, 0, 0, 0, 0, 0), bad_address());
    assert_eq!(go(SYS_NANOSLEEP, TEXT, HOLE, 0, 0, 0), bad_address());
    assert_eq!(go(SYS_NANOSLEEP, TEXT, TEXT, 0, 0, 0), bad_address());
    assert_eq!(go(SYS_NANOSLEEP, HOLE, DATA, 0, 0, 0), bad_address());
    assert_eq!(go(SYS_NANOSLEEP, TEXT, DATA + 0xff8, 0, 0, 0), bad_address());
    assert!(go(SYS_NANOSLEEP, TEXT, DATA + 0xff0, 0, 0, 0).is_ok());
}

#[test]
fn the_size_of_a_time_value_comes_from_the_layout() {
    let narrow = Layout { time_spec: 12, sig_action: 24 };
    match route(SYS_NANOSLEEP, DATA + 0xff4, 0, 0, 0, 0, 0, space(), narrow) {
        Ok(Invocation::Nanosleep { req, .. }) => assert_eq!(req.span(), span(DATA + 0xff4, 1, 12)),
        other => panic!("{:?}", other),
    }
    assert_eq!(go(SYS_NANOSLEEP, DATA + 0xff4, 0, 0, 0, 0), bad_address());
    match route(SYS_SIGACTION, 2, 0, DATA + 0xfe8, 0, 0, 0, space(), narrow) {
        Ok(Invocation::Sigaction { oldact, .. }) => {
            assert_eq!(oldact.unwrap().span(), span(DATA + 0xfe8, 1, 24))
        },
        other => panic!("{:?}", other),
    }
    assert_eq!(go(SYS_SIGACTION, 2, 0, DATA + 0xfe8, 0, 0), bad_address());
}

#[test]
fn reading_the_clock_writes_a_time_value() {
    match go(SYS_CLOCK_GETTIME, 4, DATA, 0, 0, 0) {
        Ok(Invocation::ClockGettime { clock, time }) => {
            assert_eq!(clock, 4);
            assert_eq!(time.span(), span(DATA, 1, 16));
        },
        other => panic!("{:?}", other),
    }
    assert_eq!(go(SYS_CLOCK_GETTIME, 4, TEXT, 0, 0, 0), bad_address());
    assert_eq!(go(SYS_CLOCK_GETTIME, 4, 0, 0, 0, 0), bad_address());
}

#[test]
fn futex_writes_one_word_of_thirty_two_bits() {
    match go(SYS_FUTEX, DATA + 0xffc, 1, 0xffff_ffff, 7, HOLE) {
        Ok(Invocation::Futex { addr, op, val, val2, addr2 }) => {
            assert_eq!(addr.span(), span(DATA + 0xffc, 1, 4));
            assert_eq!(op, 1);
            assert_eq!(val, -1);
            assert_eq!(val2, 7);
            assert_eq!(addr2, HOLE);
        },
        other => panic!("{:?}", other),
    }
    match go(SYS_FUTEX, DATA, 0, 5, 0, 0) {
        Ok(Invocation::Futex { val, .. }) => assert_eq!(val, 5),
        other => panic!("{:?}", other),
    }
    assert_eq!(go(SYS_FUTEX, DATA + 0xffd, 1, 0, 0, 0), bad_address());
    assert_eq!(go(SYS_FUTEX, TEXT, 1, 0, 0, 0), bad_address());
}

#[test]
fn replacing_the_image_reads_the_path_and_the_arguments() {
    let pair = 2 * core::mem::size_of::<usize>();
    match go(SYS_EXECVE, TEXT, 8, DATA, 3, 0) {
        Ok(Invocation::Exec { path, args }) => {
            assert_eq!(path.span(), span(TEXT, 8, 1));
            assert_eq!(args.span(), span(DATA, 3, pair));
        },
        other => panic!("{:?}", other),
    }
    assert!(go(SYS_EXECVE, TEXT, 8, DATA, 0x1000 / pair, 0).is_ok());
    assert_eq!(go(SYS_EXECVE, TEXT, 8, DATA, 0x1000 / pair + 1, 0), bad_address());
    assert_eq!(go(SYS_EXECVE, HOLE, 8, DATA, 3, 0), bad_address());
    assert_eq!(go(SYS_EXECVE, TEXT, 8, HOLE, 3, 0), bad_address());
    assert_eq!(go(SYS_EXECVE, TEXT, 8, DATA, usize::MAX, 0), bad_address());
    assert!(go(SYS_EXECVE, TEXT, 8, 0, 0, 0).is_ok());
}

#[test]
fn making_a_namespace_reads_pairs_of_words() {
    let pair = 2 * core::mem::size_of::<usize>();
    match go(SYS_MKNS, TEXT, 4, 0, 0, 0) {
        Ok(Invocation::Mkns { names }) => assert_eq!(names.span(), span(TEXT, 4, pair)),
        other => panic!("{:?}", other),
    }
    assert!(go(SYS_MKNS, TEXT + 0xff8, 1, 0, 0, 0).is_ok());
    assert!(go(SYS_MKNS, DATA + 0x1000 - pair, 1, 0, 0, 0).is_ok());
    assert_eq!(go(SYS_MKNS, DATA + 0x1000 - pair + 1, 1, 0, 0, 0), bad_address());
    assert_eq!(go(SYS_MKNS, HOLE, 1, 0, 0, 0), bad_address());
}

#[test]
fn the_working_directory_is_written_to_the_buffer() {
    match go(SYS_GETCWD, DATA, 0x100, 0, 0, 0) {
        Ok(Invocation::Getcwd { buf }) => assert_eq!(buf.span(), span(DATA, 0x100, 1)),
        other => panic!("{:?}", other),
    }
    assert_eq!(go(SYS_GETCWD, TEXT, 0x100, 0, 0, 0), bad_address());
}

#[test]
fn a_pipe_writes_two_words() {
    let word = core::mem::size_of::<usize>();
    match go(SYS_PIPE2, DATA, 0x80, 0, 0, 0) {
        Ok(Invocation::Pipe2 { fds, flags }) => {
            assert_eq!(fds.span(), span(DATA, 2, word));
            assert_eq!(flags, 0x80);
        },
        other => panic!("{:?}", other),
    }
    assert!(go(SYS_PIPE2, DATA + 0x1000 - 2 * word, 0, 0, 0, 0).is_ok());
    assert_eq!(go(SYS_PIPE2, DATA + 0x1000 - word, 0, 0, 0, 0), bad_address());
    assert_eq!(go(SYS_PIPE2, TEXT, 0, 0, 0, 0), bad_address());
}

#[test]
fn signal_actions_are_optional() {
    assert_eq!(
        go(SYS_SIGACTION, 2, 0, 0, 0x7777, 0),
        Ok(Invocation::Sigaction { sig: 2, act: None, oldact: None, restorer: 0x7777 })
    );
    match go(SYS_SIGACTION, 2, TEXT, 0, 0x7777, 0) {
        Ok(Invocation::Sigaction { sig, act, oldact, restorer }) => {
            assert_eq!(sig, 2);
            assert_eq!(act.unwrap().span(), span(TEXT, 1, 32));
            assert_eq!(oldact, None);
            assert_eq!(restorer, 0x7777);
        },
        other => panic!("{:?}", other),
    }
    match go(SYS_SIGACTION, 2, 0, DATA, 0, 0) {
        Ok(Invocation::Sigaction { act, oldact, .. }) => {
            assert_eq!(act, None);
            assert_eq!(oldact.unwrap().span(), span(DATA, 1, 32));
        },
        other => panic!("{:?}", other),
    }
    match go(SYS_SIGACTION, 2, TEXT + 0x40, DATA + 0x40, 0, 0) {
        Ok(Invocation::Sigaction { act, oldact, .. }) => {
            assert_eq!(act.unwrap().span(), span(TEXT + 0x40, 1, 32));
            assert_eq!(oldact.unwrap().span(), span(DATA + 0x40, 1, 32));
        },
        other => panic!("{:?}", other),
    }
    assert_eq!(go(SYS_SIGACTION, 2, HOLE, 0, 0, 0), bad_address());
    assert_eq!(go(SYS_SIGACTION, 2, 0, HOLE, 0, 0), bad_address());
    assert_eq!(go(SYS_SIGACTION, 2, 0, TEXT, 0, 0), bad_address());
    assert_eq!(go(SYS_SIGACTION, 2, HOLE, DATA, 0, 0), bad_address());
    assert_eq!(go(SYS_SIGACTION, 2, TEXT, HOLE, 0, 0), bad_address());
}

#[test]
fn a_number_that_names_no_service_is_not_implemented() {
    let not_implemented = Err(Error::new(ENOSYS));
    assert_eq!(go(0, 0, 0, 0, 0, 0), not_implemented);
    assert_eq!(go(2, TEXT, 4, 0, 0, 0), not_implemented);
    assert_eq!(go(0x1000_0000, TEXT, 4, 0, 0, 0), not_implemented);
    assert_eq!(go(0x1000_0000 | 9, HOLE, 4, 0, 0, 0), not_implemented);
    assert_eq!(go(0x3000_0000 | SYS_YIELD, 0, 0, 0, 0, 0), not_implemented);
    assert_eq!(go(usize::MAX, usize::MAX, usize::MAX, usize::MAX, usize::MAX, usize::MAX), not_implemented);
}

#[test]
fn plain_values_are_not_checked_as_addresses() {
    let empty = AddressSpace::new();
    assert!(route(SYS_CLOSE, HOLE, HOLE, HOLE, HOLE, HOLE, 0, &empty, LAYOUT).is_ok());
    assert!(route(SYS_BRK, 0, 0, 0, 0, 0, 0, &empty, LAYOUT).is_ok());
    assert!(route(SYS_WAITPID, 1, HOLE, 0, 0, 0, 0, &empty, LAYOUT).is_ok());
    assert!(route(SYS_PHYSMAP, 0, usize::MAX, 0, 0, 0, 0, &empty, LAYOUT).is_ok());
    assert_eq!(route(SYS_OPEN, TEXT, 1, 0, 0, 0, 0, &empty, LAYOUT), bad_address());
}
