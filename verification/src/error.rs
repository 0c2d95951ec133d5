//! Outcomes of a system call and their encoding in one machine word.

use vstd::prelude::*;

verus! {

/// Bad address: a region named by the call is not accessible to the caller.
pub const EFAULT: i32 = 14;

/// Function not implemented: the call number matches no service.
pub const ENOSYS: i32 = 38;

/// The largest error number that names an error kind.
pub const ENOTRECOVERABLE: i32 = 131;

/// The failure of a system call, by its error number.
#[derive(Clone, Copy, Debug, PartialEq, Eq, Structural)]
pub struct Error {
    pub errno: i32,
}

/// The word that carries the error number `errno`: its negative in two's
/// complement at the width of a machine word.
pub open spec fn error_word(errno: i32) -> usize {
    if errno <= 0 {
        (-errno) as usize
    } else {
        (usize::MAX - errno + 1) as usize
    }
}

/// The return word of an outcome: the payload itself, or the word of the error.
pub open spec fn spec_mux(result: Result<usize, Error>) -> usize {
    match result {
        Ok(value) => value,
        Err(error) => error_word(error.errno),
    }
}

/// The outcome that a return word stands for: the words that negate an error
/// kind's number are failures, every other word is a payload.
pub open spec fn spec_demux(word: usize) -> Result<usize, Error> {
    if word > usize::MAX - ENOTRECOVERABLE {
        Err(Error { errno: (usize::MAX - word + 1) as i32 })
    } else {
        Ok(word)
    }
}

/// Whether a word reads as negative, that is, has its highest bit set.
pub open spec fn negative_word(word: usize) -> bool {
    word > isize::MAX
}

/// `Error::mux` of the syscall crate, on a copy of `result` that carries the
/// same error number. That function returns a payload unchanged and, for a
/// failure, negates the error number as an `i32` and widens it with its sign.
/// The negation overflows on `i32::MIN`, which is left out.
#[verifier::external_body]
fn mux_outside(result: Result<usize, Error>) -> (word: usize)
    requires
        result matches Err(error) ==> error.errno > i32::MIN,
    ensures
        word == spec_mux(result),
{
    syscall::error::Error::mux(result.map_err(|error| syscall::error::Error::new(error.errno)))
}

impl Error {
    /// Whether the error number names an error kind.
    pub open spec fn defined(self) -> bool {
        1 <= self.errno <= ENOTRECOVERABLE
    }

    /// The error with number `errno`.
    pub fn new(errno: i32) -> (error: Error)
        ensures
            error == (Error { errno }),
    {
        Error { errno }
    }

    /// Folds an outcome into the return word.
    pub fn mux(result: Result<usize, Error>) -> (word: usize)
        ensures
            word == spec_mux(result),
    {
        match result {
            Err(error) if error.errno == i32::MIN => 0x8000_0000,
            _ => mux_outside(result),
        }
    }

    /// Reads a return word back into an outcome.
    pub fn demux(word: usize) -> (result: Result<usize, Error>)
        ensures
            result == spec_demux(word),
    {
        if word > usize::MAX - 131 {
            let errno: usize = usize::MAX - word + 1;
            Err(Error { errno: errno as i32 })
        } else {
            Ok(word)
        }
    }
}

/// Decoding then encoding gives back the word: every word is the encoding of the
/// outcome it decodes to.
pub proof fn lemma_mux_of_demux(word: usize)
    ensures
        spec_mux(spec_demux(word)) == word,
        spec_demux(word) matches Err(error) ==> error.defined() && negative_word(word),
        !negative_word(word) ==> spec_demux(word) == Ok::<usize, Error>(word),
{
}

/// An error kind is encoded as a negative word, and decoding that word recovers
/// the same kind.
pub proof fn lemma_demux_of_mux_error(error: Error)
    requires
        error.defined(),
    ensures
        negative_word(spec_mux(Err(error))),
        spec_mux(Err(error)) == usize::MAX - error.errno + 1,
        spec_demux(spec_mux(Err(error))) == Err::<usize, Error>(error),
{
}

/// A non-negative payload is encoded as itself, a non-negative word, and
/// decoding that word recovers the payload.
pub proof fn lemma_demux_of_mux_payload(value: usize)
    requires
        !negative_word(value),
    ensures
        spec_mux(Ok(value)) == value,
        !negative_word(spec_mux(Ok(value))),
        spec_demux(spec_mux(Ok(value))) == Ok::<usize, Error>(value),
{
}

/// Two error kinds with the same word are the same kind, and no error kind
/// shares its word with a non-negative payload.
pub proof fn lemma_mux_distinguishes(first: Error, second: Error, value: usize)
    requires
        first.defined(),
        second.defined(),
        !negative_word(value),
    ensures
        spec_mux(Err(first)) == spec_mux(Err(second)) ==> first == second,
        spec_mux(Err(first)) != spec_mux(Ok(value)),
{
}

} // verus!
