//! One dispatch, from the raw words of a call to the word that goes back.

use vstd::prelude::*;
use crate::context::{enter, leave, spec_enter, spec_leave, Context};
use crate::error::{spec_mux, Error};
use crate::invocation::{Call, Invocation, Layout};
use crate::memory::AddressSpace;
use crate::route::{route, spec_route};

verus! {

/// Handles one system call.
///
/// The six words are put on record in the current context entry, the call is
/// routed, the handler call it asks for is made through `handler`, the record
/// is emptied, and the outcome is folded into the return word. `handler` is
/// called at most once, and only if every region that the call names was
/// granted; it is handed the context entry as it stands while the call is in
/// flight. Where the call is refused, the return word is the word of the
/// refusal and `handler` is dropped uncalled.
pub fn syscall<'a, H>(
    a: usize,
    b: usize,
    c: usize,
    d: usize,
    e: usize,
    f: usize,
    bp: usize,
    space: &'a AddressSpace,
    layout: Layout,
    current: &mut Option<Context>,
    handler: H,
) -> (word: usize) where H: FnOnce(Option<Context>, Invocation<'a>) -> Result<usize, Error>
    requires
        forall|invocation: Invocation<'a>|
            spec_route(Call { a, b, c, d, e, f }, bp, *space, layout) == Ok::<Invocation<'a>, Error>(invocation)
                ==> handler.requires((spec_enter(*old(current), Call { a, b, c, d, e, f }), invocation)),
    ensures
        *final(current) == spec_leave(*old(current)),
        match spec_route(Call { a, b, c, d, e, f }, bp, *space, layout) {
            Ok(invocation) => exists|outcome: Result<usize, Error>|
                handler.ensures(
                    (spec_enter(*old(current), Call { a, b, c, d, e, f }), invocation),
                    outcome,
                ) && word == spec_mux(outcome),
            Err(error) => word == spec_mux(Err(error)),
        },
{
    enter(current, Call { a, b, c, d, e, f });
    let outcome = match route(a, b, c, d, e, f, bp, space, layout) {
        Ok(invocation) => handler(*current, invocation),
        Err(error) => Err(error),
    };
    leave(current);
    Error::mux(outcome)
}

} // verus!
