//! From the raw words of a call to the handler call it asks for.

use vstd::prelude::*;
use crate::decode::{decode, spec_decode, Operation};
use crate::error::{Error, EFAULT, ENOSYS};
use crate::handle::{ContextId, FileHandle, SchemeNamespace};
use crate::invocation::{
    claims, exit_status, invocation, lemma_views_are_claims, word_size, Call, Claim, Invocation, Layout,
};
use crate::memory::{validate_slice, validate_slice_mut, AddressSpace};

verus! {

/// What a call leads to. A number that names no service is not implemented. A
/// call that names a region which the caller may not access as the call needs
/// is a bad address. Every other call leads to its handler call.
pub open spec fn spec_route<'a>(call: Call, bp: usize, space: AddressSpace, layout: Layout) -> Result<
    Invocation<'a>,
    Error,
> {
    let operation = spec_decode(call.a);
    if operation == Operation::Unknown {
        Err(Error { errno: ENOSYS })
    } else if !space.grants_all(claims(operation, call, layout)) {
        Err(Error { errno: EFAULT })
    } else {
        Ok(invocation(operation, call, bp, layout).unwrap())
    }
}

/// A call is not implemented exactly when its number names no service,
/// whatever its other words hold and whatever is mapped. It is a bad address
/// exactly when its number names a service and some region it names is not
/// granted. In both cases no handler call comes out; in every other case one
/// does, and these are the only refusals.
pub proof fn lemma_refusals(call: Call, bp: usize, space: AddressSpace, layout: Layout)
    ensures
        spec_route(call, bp, space, layout) == Err::<Invocation, Error>(Error { errno: ENOSYS })
            <==> spec_decode(call.a) == Operation::Unknown,
        spec_route(call, bp, space, layout) == Err::<Invocation, Error>(Error { errno: EFAULT })
            <==> spec_decode(call.a) != Operation::Unknown && exists|i: int|
            0 <= i < claims(spec_decode(call.a), call, layout).len() && !space.grants(
                (#[trigger] claims(spec_decode(call.a), call, layout)[i]).span,
                claims(spec_decode(call.a), call, layout)[i].write,
            ),
        spec_route(call, bp, space, layout) is Ok <==> !(spec_route(call, bp, space, layout)
            == Err::<Invocation, Error>(Error { errno: ENOSYS })) && !(spec_route(
            call,
            bp,
            space,
            layout,
        ) == Err::<Invocation, Error>(Error { errno: EFAULT })),
        spec_route(call, bp, space, layout) matches Ok(handler_call) ==> Some(handler_call)
            == invocation(spec_decode(call.a), call, bp, layout) && space.grants_all(
            handler_call.views(),
        ),
{
    let operation = spec_decode(call.a);
    if operation != Operation::Unknown {
        lemma_views_are_claims(operation, call, bp, layout);
    }
}

/// What granting all of a short list of claims comes to.
proof fn lemma_grants_all(space: AddressSpace, claims: Seq<Claim>)
    ensures
        claims.len() == 0 ==> space.grants_all(claims),
        claims.len() == 1 ==> (space.grants_all(claims) <==> space.grants(
            claims[0].span,
            claims[0].write,
        )),
        claims.len() == 2 ==> (space.grants_all(claims) <==> space.grants(
            claims[0].span,
            claims[0].write,
        ) && space.grants(claims[1].span, claims[1].write)),
{
}

/// Decodes the call, checks each region it names against `space`, in the order
/// of the arguments, and gives the handler call to make. No handler call comes
/// back unless every region was granted.
pub fn route<'a>(
    a: usize,
    b: usize,
    c: usize,
    d: usize,
    e: usize,
    f: usize,
    bp: usize,
    space: &'a AddressSpace,
    layout: Layout,
) -> (result: Result<Invocation<'a>, Error>)
    ensures
        result == spec_route(Call { a, b, c, d, e, f }, bp, *space, layout),
{
    let operation = decode(a);
    let ghost call = Call { a, b, c, d, e, f };
    proof {
        lemma_grants_all(*space, claims(operation, call, layout));
    }
    match operation {
        Operation::FileOpSlice => {
            let buf = validate_slice(space, c, d, 1)?;
            Ok(Invocation::FileOpSlice { number: a, fd: FileHandle::from(b), buf })
        },
        Operation::FileOpMutSlice => {
            let buf = validate_slice_mut(space, c, d, 1)?;
            Ok(Invocation::FileOpMutSlice { number: a, fd: FileHandle::from(b), buf })
        },
        Operation::Close => Ok(Invocation::Close { fd: FileHandle::from(b) }),
        Operation::Dup => {
            let buf = validate_slice(space, c, d, 1)?;
            Ok(Invocation::Dup { fd: FileHandle::from(b), buf })
        },
        Operation::Dup2 => {
            let buf = validate_slice(space, d, e, 1)?;
            Ok(Invocation::Dup2 { fd: FileHandle::from(b), new_fd: FileHandle::from(c), buf })
        },
        Operation::Fcntl => Ok(Invocation::Fcntl { fd: FileHandle::from(b), cmd: c, arg: d }),
        Operation::Fevent => Ok(Invocation::Fevent { fd: FileHandle::from(b), flags: c }),
        Operation::Funmap => Ok(Invocation::Funmap { virtual_address: b }),
        Operation::FileOp => Ok(Invocation::FileOp { number: a, fd: FileHandle::from(b), c, d }),
        Operation::Open => {
            let path = validate_slice(space, b, c, 1)?;
            Ok(Invocation::Open { path, flags: d })
        },
        Operation::Chmod => {
            let path = validate_slice(space, b, c, 1)?;
            Ok(Invocation::Chmod { path, mode: #[verifier::truncate] (d as u16) })
        },
        Operation::Rmdir => {
            let path = validate_slice(space, b, c, 1)?;
            Ok(Invocation::Rmdir { path })
        },
        Operation::Unlink => {
            let path = validate_slice(space, b, c, 1)?;
            Ok(Invocation::Unlink { path })
        },
        Operation::Yield => Ok(Invocation::Yield),
        Operation::Nanosleep => {
            let req = validate_slice(space, b, 1, layout.time_spec)?;
            let rem = if c == 0 {
                None
            } else {
                Some(validate_slice_mut(space, c, 1, layout.time_spec)?)
            };
            Ok(Invocation::Nanosleep { req, rem })
        },
        Operation::ClockGettime => {
            let time = validate_slice_mut(space, c, 1, layout.time_spec)?;
            Ok(Invocation::ClockGettime { clock: b, time })
        },
        Operation::Futex => {
            let addr = validate_slice_mut(space, b, 1, 4)?;
            Ok(
                Invocation::Futex {
                    addr,
                    op: c,
                    val: #[verifier::truncate] (d as i32),
                    val2: e,
                    addr2: f,
                },
            )
        },
        Operation::Brk => Ok(Invocation::Brk { address: b }),
        Operation::Getpid => Ok(Invocation::Getpid),
        Operation::Getpgid => Ok(Invocation::Getpgid { pid: ContextId::from(b) }),
        Operation::Getppid => Ok(Invocation::Getppid),
        Operation::Clone => Ok(Invocation::Clone { flags: b, stack_base: bp }),
        Operation::Exit => Ok(Invocation::Exit { status: exit_status(b) }),
        Operation::Kill => Ok(Invocation::Kill { pid: ContextId::from(b), sig: c }),
        Operation::Waitpid => Ok(
            Invocation::Waitpid { pid: ContextId::from(b), status_ptr: c, flags: d },
        ),
        Operation::Chdir => {
            let path = validate_slice(space, b, c, 1)?;
            Ok(Invocation::Chdir { path })
        },
        Operation::Exec => {
            let path = validate_slice(space, b, c, 1)?;
            let args = validate_slice(space, d, e, 2 * word_size())?;
            Ok(Invocation::Exec { path, args })
        },
        Operation::Iopl => Ok(Invocation::Iopl { level: b }),
        Operation::Getcwd => {
            let buf = validate_slice_mut(space, b, c, 1)?;
            Ok(Invocation::Getcwd { buf })
        },
        Operation::Getegid => Ok(Invocation::Getegid),
        Operation::Getens => Ok(Invocation::Getens),
        Operation::Geteuid => Ok(Invocation::Geteuid),
        Operation::Getgid => Ok(Invocation::Getgid),
        Operation::Getns => Ok(Invocation::Getns),
        Operation::Getuid => Ok(Invocation::Getuid),
        Operation::Mkns => {
            let names = validate_slice(space, b, c, 2 * word_size())?;
            Ok(Invocation::Mkns { names })
        },
        Operation::Setpgid => Ok(
            Invocation::Setpgid { pid: ContextId::from(b), pgid: ContextId::from(c) },
        ),
        Operation::Setreuid => Ok(
            Invocation::Setreuid {
                ruid: #[verifier::truncate] (b as u32),
                euid: #[verifier::truncate] (c as u32),
            },
        ),
        Operation::Setrens => Ok(
            Invocation::Setrens { rns: SchemeNamespace::from(b), ens: SchemeNamespace::from(c) },
        ),
        Operation::Setregid => Ok(
            Invocation::Setregid {
                rgid: #[verifier::truncate] (b as u32),
                egid: #[verifier::truncate] (c as u32),
            },
        ),
        Operation::Sigaction => {
            let act = if c == 0 {
                None
            } else {
                Some(validate_slice(space, c, 1, layout.sig_action)?)
            };
            let oldact = if d == 0 {
                None
            } else {
                Some(validate_slice_mut(space, d, 1, layout.sig_action)?)
            };
            Ok(Invocation::Sigaction { sig: b, act, oldact, restorer: e })
        },
        Operation::Sigreturn => Ok(Invocation::Sigreturn),
        Operation::Pipe2 => {
            let fds = validate_slice_mut(space, b, 2, word_size())?;
            Ok(Invocation::Pipe2 { fds, flags: c })
        },
        Operation::Physalloc => Ok(Invocation::Physalloc { size: b }),
        Operation::Physfree => Ok(Invocation::Physfree { physical_address: b, size: c }),
        Operation::Physmap => Ok(Invocation::Physmap { physical_address: b, size: c, flags: d }),
        Operation::Physunmap => Ok(Invocation::Physunmap { virtual_address: b }),
        Operation::Virttophys => Ok(Invocation::Virttophys { virtual_address: b }),
        Operation::Unknown => Err(Error::new(ENOSYS)),
    }
}

} // verus!
