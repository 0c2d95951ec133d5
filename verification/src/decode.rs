//! Decoding of the call number into the service it names.
//!
//! The bit layout of the call number is read here and nowhere else: the rest of
//! the crate works on the decoded [`Operation`].

use vstd::prelude::*;
use crate::number::{
    SYS_ARG, SYS_ARG_MSLICE, SYS_ARG_SLICE, SYS_BRK, SYS_CHDIR, SYS_CHMOD, SYS_CLASS, SYS_CLASS_FILE, SYS_CLASS_PATH, SYS_CLOCK_GETTIME, SYS_CLONE, SYS_CLOSE, SYS_DUP, SYS_DUP2, SYS_EXECVE, SYS_EXIT, SYS_FCNTL, SYS_FEVENT, SYS_FUNMAP, SYS_FUTEX, SYS_GETCWD, SYS_GETEGID, SYS_GETENS, SYS_GETEUID, SYS_GETGID, SYS_GETNS, SYS_GETPGID, SYS_GETPID, SYS_GETPPID, SYS_GETUID, SYS_IOPL, SYS_KILL, SYS_MKNS, SYS_NANOSLEEP, SYS_OPEN, SYS_PHYSALLOC, SYS_PHYSFREE, SYS_PHYSMAP, SYS_PHYSUNMAP, SYS_PIPE2, SYS_RMDIR, SYS_SETPGID, SYS_SETREGID, SYS_SETRENS, SYS_SETREUID, SYS_SIGACTION, SYS_SIGRETURN, SYS_UNLINK, SYS_VIRTTOPHYS, SYS_WAITPID, SYS_YIELD,
};

verus! {

/// The class of a call, which decides how its arguments are read.
#[derive(Clone, Copy, Debug, PartialEq, Eq, Structural)]
pub enum Class {
    /// A call on an open file: the second word is a file handle.
    File,
    /// A call that names a path: the second and third words are the region
    /// that holds the path.
    Path,
    /// Every other call.
    Control,
}

/// The shape of the arguments of a call on an open file.
#[derive(Clone, Copy, Debug, PartialEq, Eq, Structural)]
pub enum Shape {
    /// The third and fourth words are a region to read.
    Slice,
    /// The third and fourth words are a region to write.
    MutSlice,
    /// The words are plain values, or are read as the call itself prescribes.
    Fixed,
}

/// The service that a call number names.
#[derive(Clone, Copy, Debug, PartialEq, Eq, Structural)]
pub enum Operation {
    /// A file operation that reads a region, whatever its number.
    FileOpSlice,
    /// A file operation that writes a region, whatever its number.
    FileOpMutSlice,
    Close,
    Dup,
    Dup2,
    Fcntl,
    Fevent,
    Funmap,
    /// Any other file operation on plain values.
    FileOp,
    Open,
    Chmod,
    Rmdir,
    Unlink,
    Yield,
    Nanosleep,
    ClockGettime,
    Futex,
    Brk,
    Getpid,
    Getpgid,
    Getppid,
    Clone,
    Exit,
    Kill,
    Waitpid,
    Chdir,
    Exec,
    Iopl,
    Getcwd,
    Getegid,
    Getens,
    Geteuid,
    Getgid,
    Getns,
    Getuid,
    Mkns,
    Setpgid,
    Setreuid,
    Setrens,
    Setregid,
    Sigaction,
    Sigreturn,
    Pipe2,
    Physalloc,
    Physfree,
    Physmap,
    Physunmap,
    Virttophys,
    /// The number names no service.
    Unknown,
}

/// The class that the class bits of `a` select.
pub open spec fn spec_class(a: usize) -> Class {
    if a & SYS_CLASS == SYS_CLASS_FILE {
        Class::File
    } else if a & SYS_CLASS == SYS_CLASS_PATH {
        Class::Path
    } else {
        Class::Control
    }
}

/// The shape that the argument bits of `a` select.
pub open spec fn spec_shape(a: usize) -> Shape {
    if a & SYS_ARG == SYS_ARG_SLICE {
        Shape::Slice
    } else if a & SYS_ARG == SYS_ARG_MSLICE {
        Shape::MutSlice
    } else {
        Shape::Fixed
    }
}

/// The file operation on plain values with number `a`; every number names one.
pub open spec fn spec_file_operation(a: usize) -> Operation {
    if a == SYS_CLOSE {
        Operation::Close
    } else if a == SYS_DUP {
        Operation::Dup
    } else if a == SYS_DUP2 {
        Operation::Dup2
    } else if a == SYS_FCNTL {
        Operation::Fcntl
    } else if a == SYS_FEVENT {
        Operation::Fevent
    } else if a == SYS_FUNMAP {
        Operation::Funmap
    } else {
        Operation::FileOp
    }
}

/// The path operation with number `a`, if there is one.
pub open spec fn spec_path_operation(a: usize) -> Operation {
    if a == SYS_OPEN {
        Operation::Open
    } else if a == SYS_CHMOD {
        Operation::Chmod
    } else if a == SYS_RMDIR {
        Operation::Rmdir
    } else if a == SYS_UNLINK {
        Operation::Unlink
    } else {
        Operation::Unknown
    }
}

/// The control operation with number `a`, if there is one.
pub open spec fn spec_control_operation(a: usize) -> Operation {
    if a == SYS_YIELD {
        Operation::Yield
    } else if a == SYS_NANOSLEEP {
        Operation::Nanosleep
    } else if a == SYS_CLOCK_GETTIME {
        Operation::ClockGettime
    } else if a == SYS_FUTEX {
        Operation::Futex
    } else if a == SYS_BRK {
        Operation::Brk
    } else if a == SYS_GETPID {
        Operation::Getpid
    } else if a == SYS_GETPGID {
        Operation::Getpgid
    } else if a == SYS_GETPPID {
        Operation::Getppid
    } else if a == SYS_CLONE {
        Operation::Clone
    } else if a == SYS_EXIT {
        Operation::Exit
    } else if a == SYS_KILL {
        Operation::Kill
    } else if a == SYS_WAITPID {
        Operation::Waitpid
    } else if a == SYS_CHDIR {
        Operation::Chdir
    } else if a == SYS_EXECVE {
        Operation::Exec
    } else if a == SYS_IOPL {
        Operation::Iopl
    } else if a == SYS_GETCWD {
        Operation::Getcwd
    } else if a == SYS_GETEGID {
        Operation::Getegid
    } else if a == SYS_GETENS {
        Operation::Getens
    } else if a == SYS_GETEUID {
        Operation::Geteuid
    } else if a == SYS_GETGID {
        Operation::Getgid
    } else if a == SYS_GETNS {
        Operation::Getns
    } else if a == SYS_GETUID {
        Operation::Getuid
    } else if a == SYS_MKNS {
        Operation::Mkns
    } else if a == SYS_SETPGID {
        Operation::Setpgid
    } else if a == SYS_SETREUID {
        Operation::Setreuid
    } else if a == SYS_SETRENS {
        Operation::Setrens
    } else if a == SYS_SETREGID {
        Operation::Setregid
    } else if a == SYS_SIGACTION {
        Operation::Sigaction
    } else if a == SYS_SIGRETURN {
        Operation::Sigreturn
    } else if a == SYS_PIPE2 {
        Operation::Pipe2
    } else if a == SYS_PHYSALLOC {
        Operation::Physalloc
    } else if a == SYS_PHYSFREE {
        Operation::Physfree
    } else if a == SYS_PHYSMAP {
        Operation::Physmap
    } else if a == SYS_PHYSUNMAP {
        Operation::Physunmap
    } else if a == SYS_VIRTTOPHYS {
        Operation::Virttophys
    } else {
        Operation::Unknown
    }
}

/// The service that the call number `a` names. In the file class the shape
/// decides first: a call with a region to read or to write is a file operation
/// on that region whatever its low bits say, and only a call on plain values is
/// looked up by its number.
pub open spec fn spec_decode(a: usize) -> Operation {
    match spec_class(a) {
        Class::File => match spec_shape(a) {
            Shape::Slice => Operation::FileOpSlice,
            Shape::MutSlice => Operation::FileOpMutSlice,
            Shape::Fixed => spec_file_operation(a),
        },
        Class::Path => spec_path_operation(a),
        Class::Control => spec_control_operation(a),
    }
}

impl Operation {
    /// The class of the calls that name this service; none for `Unknown`.
    pub open spec fn class(self) -> Option<Class> {
        match self {
            Operation::FileOpSlice
            | Operation::FileOpMutSlice
            | Operation::Close
            | Operation::Dup
            | Operation::Dup2
            | Operation::Fcntl
            | Operation::Fevent
            | Operation::Funmap
            | Operation::FileOp => Some(Class::File),
            Operation::Open | Operation::Chmod | Operation::Rmdir | Operation::Unlink => Some(
                Class::Path,
            ),
            Operation::Unknown => None,
            _ => Some(Class::Control),
        }
    }
}

/// Reads the class bits of a call number.
pub fn class_of(a: usize) -> (class: Class)
    ensures
        class == spec_class(a),
{
    let bits = a & SYS_CLASS;
    if bits == SYS_CLASS_FILE {
        Class::File
    } else if bits == SYS_CLASS_PATH {
        Class::Path
    } else {
        Class::Control
    }
}

/// Reads the argument-shape bits of a call number.
pub fn shape_of(a: usize) -> (shape: Shape)
    ensures
        shape == spec_shape(a),
{
    let bits = a & SYS_ARG;
    if bits == SYS_ARG_SLICE {
        Shape::Slice
    } else if bits == SYS_ARG_MSLICE {
        Shape::MutSlice
    } else {
        Shape::Fixed
    }
}

/// Looks up a file operation on plain values by its number.
fn file_operation(a: usize) -> (operation: Operation)
    ensures
        operation == spec_file_operation(a),
{
    if a == SYS_CLOSE {
        Operation::Close
    } else if a == SYS_DUP {
        Operation::Dup
    } else if a == SYS_DUP2 {
        Operation::Dup2
    } else if a == SYS_FCNTL {
        Operation::Fcntl
    } else if a == SYS_FEVENT {
        Operation::Fevent
    } else if a == SYS_FUNMAP {
        Operation::Funmap
    } else {
        Operation::FileOp
    }
}

/// Looks up a path operation by its number.
fn path_operation(a: usize) -> (operation: Operation)
    ensures
        operation == spec_path_operation(a),
{
    if a == SYS_OPEN {
        Operation::Open
    } else if a == SYS_CHMOD {
        Operation::Chmod
    } else if a == SYS_RMDIR {
        Operation::Rmdir
    } else if a == SYS_UNLINK {
        Operation::Unlink
    } else {
        Operation::Unknown
    }
}

/// Looks up a control operation by its number.
fn control_operation(a: usize) -> (operation: Operation)
    ensures
        operation == spec_control_operation(a),
{
    if a == SYS_YIELD {
        Operation::Yield
    } else if a == SYS_NANOSLEEP {
        Operation::Nanosleep
    } else if a == SYS_CLOCK_GETTIME {
        Operation::ClockGettime
    } else if a == SYS_FUTEX {
        Operation::Futex
    } else if a == SYS_BRK {
        Operation::Brk
    } else if a == SYS_GETPID {
        Operation::Getpid
    } else if a == SYS_GETPGID {
        Operation::Getpgid
    } else if a == SYS_GETPPID {
        Operation::Getppid
    } else if a == SYS_CLONE {
        Operation::Clone
    } else if a == SYS_EXIT {
        Operation::Exit
    } else if a == SYS_KILL {
        Operation::Kill
    } else if a == SYS_WAITPID {
        Operation::Waitpid
    } else if a == SYS_CHDIR {
        Operation::Chdir
    } else if a == SYS_EXECVE {
        Operation::Exec
    } else if a == SYS_IOPL {
        Operation::Iopl
    } else if a == SYS_GETCWD {
        Operation::Getcwd
    } else if a == SYS_GETEGID {
        Operation::Getegid
    } else if a == SYS_GETENS {
        Operation::Getens
    } else if a == SYS_GETEUID {
        Operation::Geteuid
    } else if a == SYS_GETGID {
        Operation::Getgid
    } else if a == SYS_GETNS {
        Operation::Getns
    } else if a == SYS_GETUID {
        Operation::Getuid
    } else if a == SYS_MKNS {
        Operation::Mkns
    } else if a == SYS_SETPGID {
        Operation::Setpgid
    } else if a == SYS_SETREUID {
        Operation::Setreuid
    } else if a == SYS_SETRENS {
        Operation::Setrens
    } else if a == SYS_SETREGID {
        Operation::Setregid
    } else if a == SYS_SIGACTION {
        Operation::Sigaction
    } else if a == SYS_SIGRETURN {
        Operation::Sigreturn
    } else if a == SYS_PIPE2 {
        Operation::Pipe2
    } else if a == SYS_PHYSALLOC {
        Operation::Physalloc
    } else if a == SYS_PHYSFREE {
        Operation::Physfree
    } else if a == SYS_PHYSMAP {
        Operation::Physmap
    } else if a == SYS_PHYSUNMAP {
        Operation::Physunmap
    } else if a == SYS_VIRTTOPHYS {
        Operation::Virttophys
    } else {
        Operation::Unknown
    }
}

/// Decodes a call number.
pub fn decode(a: usize) -> (operation: Operation)
    ensures
        operation == spec_decode(a),
{
    match class_of(a) {
        Class::File => match shape_of(a) {
            Shape::Slice => Operation::FileOpSlice,
            Shape::MutSlice => Operation::FileOpMutSlice,
            Shape::Fixed => file_operation(a),
        },
        Class::Path => path_operation(a),
        Class::Control => control_operation(a),
    }
}

/// A decoded service belongs to the class that the class bits select: no
/// number of one class reaches a service of another, and a number of the file
/// class always names a service.
pub proof fn lemma_decode_keeps_class(a: usize)
    ensures
        spec_decode(a) != Operation::Unknown ==> spec_decode(a).class() == Some(spec_class(a)),
        spec_class(a) == Class::File ==> spec_decode(a) != Operation::Unknown,
{
}

} // verus!
