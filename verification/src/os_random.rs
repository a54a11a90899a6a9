//! The operating system's secure random source.

use vstd::prelude::*;

verus! {

/// The error type of the rand crate, carried through opaquely.
#[verifier::external_type_specification]
#[verifier::external_body]
pub struct ExRandError(rand::Error);

/// Two fresh random bytes.  Relies on rand::rngs::OsRng with
/// rand::RngCore::try_fill_bytes: the buffer is filled from the operating
/// system's secure random source, or the source's failure is reported.
/// Nothing is promised of the bytes themselves: they are random.
#[verifier::external_body]
pub(crate) fn os_random_pair() -> (r: Result<(u8, u8), rand::Error>) {
    let mut buf = [0u8; 2];
    match rand::RngCore::try_fill_bytes(&mut rand::rngs::OsRng, &mut buf) {
        Ok(()) => Ok((buf[0], buf[1])),
        Err(e) => Err(e),
    }
}

} // verus!
