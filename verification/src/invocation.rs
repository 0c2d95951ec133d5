//! What a call asks for: the handler to run, with its typed arguments.

use vstd::prelude::*;
use crate::decode::Operation;
use crate::handle::{ContextId, FileHandle, SchemeNamespace};
use crate::memory::{AddressSpace, Slice, SliceMut, Span};

verus! {

/// The six words of a call as the caller passed them.
#[derive(Clone, Copy, Debug, PartialEq, Eq, Structural)]
pub struct Call {
    pub a: usize,
    pub b: usize,
    pub c: usize,
    pub d: usize,
    pub e: usize,
    pub f: usize,
}

/// The sizes in bytes of the structures that calls pass by address. They are
/// those of the machine that the handlers are built for.
#[derive(Clone, Copy, Debug, PartialEq, Eq, Structural)]
pub struct Layout {
    /// Size of a time value.
    pub time_spec: usize,
    /// Size of a signal action.
    pub sig_action: usize,
}

/// A region of caller memory that a call names, with the access it needs.
pub struct Claim {
    pub span: Span,
    pub write: bool,
}

/// One handler with the arguments it is to be called with. Every view in it
/// was checked against the caller's address space.
#[allow(inconsistent_fields)]
#[derive(Debug, PartialEq, Eq)]
pub enum Invocation<'a> {
    FileOpSlice { number: usize, fd: FileHandle, buf: Slice<'a> },
    FileOpMutSlice { number: usize, fd: FileHandle, buf: SliceMut<'a> },
    Close { fd: FileHandle },
    Dup { fd: FileHandle, buf: Slice<'a> },
    Dup2 { fd: FileHandle, new_fd: FileHandle, buf: Slice<'a> },
    Fcntl { fd: FileHandle, cmd: usize, arg: usize },
    Fevent { fd: FileHandle, flags: usize },
    Funmap { virtual_address: usize },
    FileOp { number: usize, fd: FileHandle, c: usize, d: usize },
    Open { path: Slice<'a>, flags: usize },
    Chmod { path: Slice<'a>, mode: u16 },
    Rmdir { path: Slice<'a> },
    Unlink { path: Slice<'a> },
    Yield,
    Nanosleep { req: Slice<'a>, rem: Option<SliceMut<'a>> },
    ClockGettime { clock: usize, time: SliceMut<'a> },
    /// `addr2` is passed on as a raw address: the handler checks it if it uses it.
    Futex { addr: SliceMut<'a>, op: usize, val: i32, val2: usize, addr2: usize },
    Brk { address: usize },
    Getpid,
    Getpgid { pid: ContextId },
    Getppid,
    Clone { flags: usize, stack_base: usize },
    Exit { status: usize },
    Kill { pid: ContextId, sig: usize },
    Waitpid { pid: ContextId, status_ptr: usize, flags: usize },
    Chdir { path: Slice<'a> },
    Exec { path: Slice<'a>, args: Slice<'a> },
    /// The handler is also given the registers that the trap saved.
    Iopl { level: usize },
    Getcwd { buf: SliceMut<'a> },
    Getegid,
    Getens,
    Geteuid,
    Getgid,
    Getns,
    Getuid,
    Mkns { names: Slice<'a> },
    Setpgid { pid: ContextId, pgid: ContextId },
    Setreuid { ruid: u32, euid: u32 },
    Setrens { rns: SchemeNamespace, ens: SchemeNamespace },
    Setregid { rgid: u32, egid: u32 },
    Sigaction { sig: usize, act: Option<Slice<'a>>, oldact: Option<SliceMut<'a>>, restorer: usize },
    Sigreturn,
    Pipe2 { fds: SliceMut<'a>, flags: usize },
    Physalloc { size: usize },
    Physfree { physical_address: usize, size: usize },
    Physmap { physical_address: usize, size: usize, flags: usize },
    Physunmap { virtual_address: usize },
    Virttophys { virtual_address: usize },
}

/// Size in bytes of a machine word.
pub open spec fn spec_word_size() -> usize {
    (usize::BITS / 8) as usize
}

/// Size in bytes of a machine word.
pub fn word_size() -> (size: usize)
    ensures
        size == spec_word_size(),
        size == 4 || size == 8,
{
    broadcast use vstd::layout::layout_of_primitives;

    core::mem::size_of::<usize>()
}

impl Layout {
    /// Whether the sizes are ones that the two structures can have on a machine
    /// with words of this size. A time value holds twelve bytes, and is padded to
    /// sixteen where values of eight bytes are aligned to eight. A signal action
    /// holds a mask of sixteen bytes between two words, and is padded to
    /// thirty-two likewise.
    pub open spec fn possible(self) -> bool {
        &&& (self.time_spec == 12 || self.time_spec == 16)
        &&& (self.sig_action == 16 + 2 * spec_word_size() || self.sig_action == 32)
    }
}

// The two sizes below are read from the structures themselves, so that a view
// checked for one of them is as large as what the handler then reads or writes.
// They differ between machines; a caller may hand in other sizes as well.

impl Layout {
    /// The sizes of the two structures on the machine at hand.
    pub fn native() -> (layout: Layout)
        ensures
            layout.possible(),
    {
        Layout { time_spec: time_spec_size(), sig_action: sig_action_size() }
    }
}

/// `core::mem::size_of` at `TimeSpec` of the syscall crate, the time value that
/// sleeping and reading a clock pass by address. That structure is laid out as
/// in C and holds an `i64` and an `i32`: twelve bytes, which come to sixteen
/// where an `i64` is aligned to eight bytes. Which of the two it is depends on
/// the machine.
#[verifier::external_body]
fn time_spec_size() -> (size: usize)
    ensures
        size == 12 || size == 16,
{
    core::mem::size_of::<syscall::data::TimeSpec>()
}

/// `core::mem::size_of` at `SigAction` of the syscall crate, the signal action
/// that installing a handler passes by address. That structure is laid out as
/// in C and holds a handler of one word, a mask of two `u64` and flags of one
/// word: sixteen bytes and two words, which come to thirty-two where a `u64`
/// is aligned to eight bytes. Which of the two it is depends on the machine.
#[verifier::external_body]
fn sig_action_size() -> (size: usize)
    ensures
        size == 16 + 2 * spec_word_size() || size == 32,
{
    core::mem::size_of::<syscall::data::SigAction>()
}

/// The status that a process leaves when it exits with the word `b`: the low
/// byte of the word, moved up by one byte.
pub open spec fn spec_exit_status(b: usize) -> usize {
    (b & 0xFF) << 8
}

/// The status that a process leaves when it exits with the word `b`.
pub fn exit_status(b: usize) -> (status: usize)
    ensures
        status == spec_exit_status(b),
        status == (b % 256) * 256,
{
    assert((b & 0xFF) << 8 == (b % 256) * 256) by (bit_vector);
    (b & 0xFF) << 8
}

/// The exit status is the low byte of the word times 256: nothing above the
/// low byte of the word reaches it, and its own low byte is clear.
pub proof fn lemma_exit_status(b: usize)
    ensures
        spec_exit_status(b) == (b % 256) * 256,
        spec_exit_status(b) <= 0xFF00,
        spec_exit_status(b) % 256 == 0,
{
    assert((b & 0xFF) << 8 == (b % 256) * 256) by (bit_vector);
}

/// A region of `len` elements of `size` bytes at `address`, to read.
pub open spec fn reads(address: usize, len: usize, size: usize) -> Claim {
    Claim { span: Span { address, len, size }, write: false }
}

/// A region of `len` elements of `size` bytes at `address`, to write.
pub open spec fn writes(address: usize, len: usize, size: usize) -> Claim {
    Claim { span: Span { address, len, size }, write: true }
}

/// The read-only view of `len` elements of `size` bytes at `address`.
pub open spec fn slice<'a>(address: usize, len: usize, size: usize) -> Slice<'a> {
    Slice::spec_over(Span { address, len, size })
}

/// The writable view of `len` elements of `size` bytes at `address`.
pub open spec fn slice_mut<'a>(address: usize, len: usize, size: usize) -> SliceMut<'a> {
    SliceMut::spec_over(Span { address, len, size })
}

/// The regions of caller memory that a call of `operation` names, in the order
/// of its arguments. A zero address for the remaining time of a sleep, or for
/// either signal action, stands for an argument that was not supplied and
/// names no region.
pub open spec fn claims(operation: Operation, call: Call, layout: Layout) -> Seq<Claim> {
    match operation {
        Operation::FileOpSlice => seq![reads(call.c, call.d, 1)],
        Operation::FileOpMutSlice => seq![writes(call.c, call.d, 1)],
        Operation::Dup => seq![reads(call.c, call.d, 1)],
        Operation::Dup2 => seq![reads(call.d, call.e, 1)],
        Operation::Open | Operation::Chmod | Operation::Rmdir | Operation::Unlink | Operation::Chdir => seq![
            reads(call.b, call.c, 1),
        ],
        Operation::Nanosleep => if call.c == 0 {
            seq![reads(call.b, 1, layout.time_spec)]
        } else {
            seq![reads(call.b, 1, layout.time_spec), writes(call.c, 1, layout.time_spec)]
        },
        Operation::ClockGettime => seq![writes(call.c, 1, layout.time_spec)],
        Operation::Futex => seq![writes(call.b, 1, 4)],
        Operation::Exec => seq![
            reads(call.b, call.c, 1),
            reads(call.d, call.e, (2 * spec_word_size()) as usize),
        ],
        Operation::Getcwd => seq![writes(call.b, call.c, 1)],
        Operation::Mkns => seq![reads(call.b, call.c, (2 * spec_word_size()) as usize)],
        Operation::Sigaction => if call.c == 0 {
            if call.d == 0 {
                seq![]
            } else {
                seq![writes(call.d, 1, layout.sig_action)]
            }
        } else {
            if call.d == 0 {
                seq![reads(call.c, 1, layout.sig_action)]
            } else {
                seq![reads(call.c, 1, layout.sig_action), writes(call.d, 1, layout.sig_action)]
            }
        },
        Operation::Pipe2 => seq![writes(call.b, 2, spec_word_size())],
        _ => seq![],
    }
}

/// The handler call that a call of `operation` with the words `call` and the
/// frame pointer `bp` asks for, once its regions are granted. There is none for
/// an unknown operation.
pub open spec fn invocation<'a>(operation: Operation, call: Call, bp: usize, layout: Layout) -> Option<
    Invocation<'a>,
> {
    let fd = FileHandle::spec_from(call.b);
    let pid = ContextId::spec_from(call.b);
    let path = slice(call.b, call.c, 1);
    match operation {
        Operation::FileOpSlice => Some(
            Invocation::FileOpSlice { number: call.a, fd, buf: slice(call.c, call.d, 1) },
        ),
        Operation::FileOpMutSlice => Some(
            Invocation::FileOpMutSlice { number: call.a, fd, buf: slice_mut(call.c, call.d, 1) },
        ),
        Operation::Close => Some(Invocation::Close { fd }),
        Operation::Dup => Some(Invocation::Dup { fd, buf: slice(call.c, call.d, 1) }),
        Operation::Dup2 => Some(
            Invocation::Dup2 {
                fd,
                new_fd: FileHandle::spec_from(call.c),
                buf: slice(call.d, call.e, 1),
            },
        ),
        Operation::Fcntl => Some(Invocation::Fcntl { fd, cmd: call.c, arg: call.d }),
        Operation::Fevent => Some(Invocation::Fevent { fd, flags: call.c }),
        Operation::Funmap => Some(Invocation::Funmap { virtual_address: call.b }),
        Operation::FileOp => Some(Invocation::FileOp { number: call.a, fd, c: call.c, d: call.d }),
        Operation::Open => Some(Invocation::Open { path, flags: call.d }),
        Operation::Chmod => Some(Invocation::Chmod { path, mode: call.d as u16 }),
        Operation::Rmdir => Some(Invocation::Rmdir { path }),
        Operation::Unlink => Some(Invocation::Unlink { path }),
        Operation::Yield => Some(Invocation::Yield),
        Operation::Nanosleep => Some(
            Invocation::Nanosleep {
                req: slice(call.b, 1, layout.time_spec),
                rem: if call.c == 0 {
                    None
                } else {
                    Some(slice_mut(call.c, 1, layout.time_spec))
                },
            },
        ),
        Operation::ClockGettime => Some(
            Invocation::ClockGettime {
                clock: call.b,
                time: slice_mut(call.c, 1, layout.time_spec),
            },
        ),
        Operation::Futex => Some(
            Invocation::Futex {
                addr: slice_mut(call.b, 1, 4),
                op: call.c,
                val: call.d as i32,
                val2: call.e,
                addr2: call.f,
            },
        ),
        Operation::Brk => Some(Invocation::Brk { address: call.b }),
        Operation::Getpid => Some(Invocation::Getpid),
        Operation::Getpgid => Some(Invocation::Getpgid { pid }),
        Operation::Getppid => Some(Invocation::Getppid),
        Operation::Clone => Some(Invocation::Clone { flags: call.b, stack_base: bp }),
        Operation::Exit => Some(Invocation::Exit { status: spec_exit_status(call.b) }),
        Operation::Kill => Some(Invocation::Kill { pid, sig: call.c }),
        Operation::Waitpid => Some(Invocation::Waitpid { pid, status_ptr: call.c, flags: call.d }),
        Operation::Chdir => Some(Invocation::Chdir { path }),
        Operation::Exec => Some(
            Invocation::Exec {
                path,
                args: slice(call.d, call.e, (2 * spec_word_size()) as usize),
            },
        ),
        Operation::Iopl => Some(Invocation::Iopl { level: call.b }),
        Operation::Getcwd => Some(Invocation::Getcwd { buf: slice_mut(call.b, call.c, 1) }),
        Operation::Getegid => Some(Invocation::Getegid),
        Operation::Getens => Some(Invocation::Getens),
        Operation::Geteuid => Some(Invocation::Geteuid),
        Operation::Getgid => Some(Invocation::Getgid),
        Operation::Getns => Some(Invocation::Getns),
        Operation::Getuid => Some(Invocation::Getuid),
        Operation::Mkns => Some(
            Invocation::Mkns { names: slice(call.b, call.c, (2 * spec_word_size()) as usize) },
        ),
        Operation::Setpgid => Some(Invocation::Setpgid { pid, pgid: ContextId::spec_from(call.c) }),
        Operation::Setreuid => Some(Invocation::Setreuid { ruid: call.b as u32, euid: call.c as u32 }),
        Operation::Setrens => Some(
            Invocation::Setrens {
                rns: SchemeNamespace::spec_from(call.b),
                ens: SchemeNamespace::spec_from(call.c),
            },
        ),
        Operation::Setregid => Some(Invocation::Setregid { rgid: call.b as u32, egid: call.c as u32 }),
        Operation::Sigaction => Some(
            Invocation::Sigaction {
                sig: call.b,
                act: if call.c == 0 {
                    None
                } else {
                    Some(slice(call.c, 1, layout.sig_action))
                },
                oldact: if call.d == 0 {
                    None
                } else {
                    Some(slice_mut(call.d, 1, layout.sig_action))
                },
                restorer: call.e,
            },
        ),
        Operation::Sigreturn => Some(Invocation::Sigreturn),
        Operation::Pipe2 => Some(
            Invocation::Pipe2 { fds: slice_mut(call.b, 2, spec_word_size()), flags: call.c },
        ),
        Operation::Physalloc => Some(Invocation::Physalloc { size: call.b }),
        Operation::Physfree => Some(Invocation::Physfree { physical_address: call.b, size: call.c }),
        Operation::Physmap => Some(
            Invocation::Physmap { physical_address: call.b, size: call.c, flags: call.d },
        ),
        Operation::Physunmap => Some(Invocation::Physunmap { virtual_address: call.b }),
        Operation::Virttophys => Some(Invocation::Virttophys { virtual_address: call.b }),
        Operation::Unknown => None,
    }
}

/// The claim that a read-only view stands for.
pub open spec fn held(slice: Slice) -> Claim {
    Claim { span: slice@, write: false }
}

/// The claim that a writable view stands for.
pub open spec fn held_mut(slice: SliceMut) -> Claim {
    Claim { span: slice@, write: true }
}

impl<'a> Invocation<'a> {
    /// The views of caller memory that the handler call carries, in the order
    /// of its arguments, each as the claim it stands for.
    pub open spec fn views(self) -> Seq<Claim> {
        match self {
            Invocation::FileOpSlice { buf, .. } => seq![held(buf)],
            Invocation::FileOpMutSlice { buf, .. } => seq![held_mut(buf)],
            Invocation::Dup { buf, .. } => seq![held(buf)],
            Invocation::Dup2 { buf, .. } => seq![held(buf)],
            Invocation::Open { path, .. } => seq![held(path)],
            Invocation::Chmod { path, .. } => seq![held(path)],
            Invocation::Rmdir { path } => seq![held(path)],
            Invocation::Unlink { path } => seq![held(path)],
            Invocation::Chdir { path } => seq![held(path)],
            Invocation::Nanosleep { req, rem } => match rem {
                Some(rem) => seq![held(req), held_mut(rem)],
                None => seq![held(req)],
            },
            Invocation::ClockGettime { time, .. } => seq![held_mut(time)],
            Invocation::Futex { addr, .. } => seq![held_mut(addr)],
            Invocation::Exec { path, args } => seq![held(path), held(args)],
            Invocation::Getcwd { buf } => seq![held_mut(buf)],
            Invocation::Mkns { names } => seq![held(names)],
            Invocation::Sigaction { act, oldact, .. } => match (act, oldact) {
                (Some(act), Some(oldact)) => seq![held(act), held_mut(oldact)],
                (Some(act), None) => seq![held(act)],
                (None, Some(oldact)) => seq![held_mut(oldact)],
                (None, None) => seq![],
            },
            Invocation::Pipe2 { fds, .. } => seq![held_mut(fds)],
            _ => seq![],
        }
    }
}

/// The views that a handler call carries are the regions that the call named,
/// one for one and with the same access: a handler is given no view of memory
/// that was not checked, and none that it may write where the call was checked
/// for reading.
pub proof fn lemma_views_are_claims(operation: Operation, call: Call, bp: usize, layout: Layout)
    requires
        operation != Operation::Unknown,
    ensures
        invocation(operation, call, bp, layout) is Some,
        invocation(operation, call, bp, layout).unwrap().views() == claims(operation, call, layout),
{
    assert forall|span: Span| (#[trigger] Slice::spec_over(span))@ == span by {
        Slice::lemma_span(span, Slice::spec_over(span));
    }
    assert forall|span: Span| (#[trigger] SliceMut::spec_over(span))@ == span by {
        SliceMut::lemma_span(span, SliceMut::spec_over(span));
    }
    let held_views = invocation(operation, call, bp, layout).unwrap().views();
    assert(held_views =~= claims(operation, call, layout));
}

/// A call names at most two regions, and at most one of them to write: no
/// handler is given two writable views.
pub proof fn lemma_one_writable_claim(operation: Operation, call: Call, layout: Layout)
    ensures
        claims(operation, call, layout).len() <= 2,
        forall|i: int, j: int|
            0 <= i < j < claims(operation, call, layout).len() ==> !(
            #[trigger] claims(operation, call, layout)[i]).write || !(#[trigger] claims(
                operation,
                call,
                layout,
            )[j]).write,
{
}

impl AddressSpace {
    /// Whether the space grants every one of `claims`.
    pub open spec fn grants_all(&self, claims: Seq<Claim>) -> bool {
        forall|i: int| 0 <= i < claims.len() ==> self.grants((#[trigger] claims[i]).span, claims[i].write)
    }
}

} // verus!
