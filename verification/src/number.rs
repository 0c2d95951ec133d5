//! The numbers of the system calls.
//!
//! The high four bits of a call number give the class of the call, the next
//! four the shape of its arguments, the next four the kind of value it returns.
//! The low bits number the call within its class.

use vstd::prelude::*;

verus! {

/// Mask of the class bits.
pub const SYS_CLASS: usize = 0xF000_0000;

/// Class of the calls that name a path.
pub const SYS_CLASS_PATH: usize = 0x1000_0000;

/// Class of the calls on an open file.
pub const SYS_CLASS_FILE: usize = 0x2000_0000;

/// Mask of the argument-shape bits.
pub const SYS_ARG: usize = 0x0F00_0000;

/// Shape of a call whose arguments are a region to read.
pub const SYS_ARG_SLICE: usize = 0x0100_0000;

/// Shape of a call whose arguments are a region to write.
pub const SYS_ARG_MSLICE: usize = 0x0200_0000;

/// Shape of a call whose arguments are a path.
pub const SYS_ARG_PATH: usize = 0x0300_0000;

/// Mask of the return-kind bits.
pub const SYS_RET: usize = 0x00F0_0000;

/// Return kind of a call that hands back a file handle.
pub const SYS_RET_FILE: usize = 0x0010_0000;

/// Open the file at a path; returns a file handle.
pub const SYS_OPEN: usize = SYS_CLASS_PATH | SYS_RET_FILE | 5;

/// Change the mode of the file at a path.
pub const SYS_CHMOD: usize = SYS_CLASS_PATH | 15;

/// Remove the directory at a path.
pub const SYS_RMDIR: usize = SYS_CLASS_PATH | 84;

/// Remove the file at a path.
pub const SYS_UNLINK: usize = SYS_CLASS_PATH | 10;

/// Close a file.
pub const SYS_CLOSE: usize = SYS_CLASS_FILE | 6;

/// Duplicate a file handle; returns the new handle.
pub const SYS_DUP: usize = SYS_CLASS_FILE | SYS_RET_FILE | 41;

/// Duplicate a file handle onto a chosen handle; returns that handle.
pub const SYS_DUP2: usize = SYS_CLASS_FILE | SYS_RET_FILE | 63;

/// Read from a file into a region.
pub const SYS_READ: usize = SYS_CLASS_FILE | SYS_ARG_MSLICE | 3;

/// Write a region to a file.
pub const SYS_WRITE: usize = SYS_CLASS_FILE | SYS_ARG_SLICE | 4;

/// Move the position in a file.
pub const SYS_LSEEK: usize = SYS_CLASS_FILE | 19;

/// Read or change the flags of a file handle.
pub const SYS_FCNTL: usize = SYS_CLASS_FILE | 55;

/// Register for events on a file.
pub const SYS_FEVENT: usize = SYS_CLASS_FILE | 927;

/// Unmap memory that a file was mapped to.
pub const SYS_FUNMAP: usize = SYS_CLASS_FILE | 91;

/// Move the end of the heap.
pub const SYS_BRK: usize = 45;

/// Change the working directory.
pub const SYS_CHDIR: usize = 12;

/// Read a clock.
pub const SYS_CLOCK_GETTIME: usize = 265;

/// Duplicate the calling process.
pub const SYS_CLONE: usize = 120;

/// Replace the image of the calling process.
pub const SYS_EXECVE: usize = 11;

/// End the calling process.
pub const SYS_EXIT: usize = 1;

/// Wait on, or wake the waiters of, a word in memory.
pub const SYS_FUTEX: usize = 240;

/// Read the working directory.
pub const SYS_GETCWD: usize = 183;

/// Read the effective group of the caller.
pub const SYS_GETEGID: usize = 202;

/// Read the effective namespace of the caller.
pub const SYS_GETENS: usize = 951;

/// Read the effective user of the caller.
pub const SYS_GETEUID: usize = 201;

/// Read the group of the caller.
pub const SYS_GETGID: usize = 200;

/// Read the namespace of the caller.
pub const SYS_GETNS: usize = 950;

/// Read the identifier of the calling process.
pub const SYS_GETPID: usize = 20;

/// Read the process group of a process.
pub const SYS_GETPGID: usize = 132;

/// Read the identifier of the parent of the calling process.
pub const SYS_GETPPID: usize = 64;

/// Read the user of the caller.
pub const SYS_GETUID: usize = 199;

/// Change the privilege level for port input and output.
pub const SYS_IOPL: usize = 110;

/// Send a signal to a process.
pub const SYS_KILL: usize = 37;

/// Make a namespace of schemes.
pub const SYS_MKNS: usize = 984;

/// Sleep for a time.
pub const SYS_NANOSLEEP: usize = 162;

/// Allocate physical memory.
pub const SYS_PHYSALLOC: usize = 945;

/// Free physical memory.
pub const SYS_PHYSFREE: usize = 946;

/// Map physical memory into the address space of the caller.
pub const SYS_PHYSMAP: usize = 947;

/// Unmap physical memory.
pub const SYS_PHYSUNMAP: usize = 948;

/// Translate a virtual address to a physical one.
pub const SYS_VIRTTOPHYS: usize = 949;

/// Make a pipe.
pub const SYS_PIPE2: usize = 331;

/// Change the process group of a process.
pub const SYS_SETPGID: usize = 57;

/// Change the real and effective group of the caller.
pub const SYS_SETREGID: usize = 204;

/// Change the real and effective namespace of the caller.
pub const SYS_SETRENS: usize = 952;

/// Change the real and effective user of the caller.
pub const SYS_SETREUID: usize = 203;

/// Install or read the action for a signal.
pub const SYS_SIGACTION: usize = 67;

/// Return from a signal handler.
pub const SYS_SIGRETURN: usize = 119;

/// Wait for a child process.
pub const SYS_WAITPID: usize = 7;

/// Give up the processor.
pub const SYS_YIELD: usize = 158;

} // verus!
