//! The record of the call in flight that a context entry carries.
//!
//! The dispatcher writes the six words of a call into the entry of the context
//! that made it before it routes the call, and empties the record when the call
//! is done, so that whoever looks at the entry in between sees what the context
//! is waiting for.

use vstd::prelude::*;
use crate::invocation::Call;

verus! {

/// What the dispatcher keeps in a context entry.
#[derive(Clone, Copy, Debug, PartialEq, Eq)]
pub struct Context {
    /// The call that the context has in flight, if any.
    pub syscall: Option<Call>,
}

/// The current entry, if there is one, with `call` on record.
pub open spec fn spec_enter(current: Option<Context>, call: Call) -> Option<Context> {
    match current {
        Some(context) => Some(Context { syscall: Some(call) }),
        None => None,
    }
}

/// The current entry, if there is one, with nothing on record.
pub open spec fn spec_leave(current: Option<Context>) -> Option<Context> {
    match current {
        Some(context) => Some(Context { syscall: None }),
        None => None,
    }
}

impl Context {
    /// An entry with nothing on record.
    pub fn new() -> (context: Context)
        ensures
            context.syscall is None,
    {
        Context { syscall: None }
    }
}

/// Puts `call` on record in the current entry. Where there is no current
/// entry, as early in boot, nothing is recorded.
pub fn enter(current: &mut Option<Context>, call: Call)
    ensures
        *final(current) == spec_enter(*old(current), call),
{
    if current.is_some() {
        *current = Some(Context { syscall: Some(call) });
    }
}

/// Empties the record of the current entry, whatever it held.
pub fn leave(current: &mut Option<Context>)
    ensures
        *final(current) == spec_leave(*old(current)),
{
    if current.is_some() {
        *current = Some(Context { syscall: None });
    }
}

/// The record brackets the call: after `enter` it holds exactly the six words,
/// after `leave` it is empty, and `leave` undoes `enter` on an entry whose
/// record was empty.
pub proof fn lemma_record_brackets_call(current: Option<Context>, call: Call)
    ensures
        spec_enter(current, call) matches Some(context) ==> context.syscall == Some(call),
        spec_leave(spec_enter(current, call)) matches Some(context) ==> context.syscall is None,
        spec_leave(spec_enter(current, call)) == spec_leave(current),
        spec_enter(current, call) is Some <==> current is Some,
        (current matches Some(context) ==> context.syscall is None) ==> spec_leave(
            spec_enter(current, call),
        ) == current,
{
}

} // verus!
