//! Drawing random values from the operating system's random source. A
//! failure of the source is reported, never a panic.

use vstd::prelude::*;

verus! {

#[verifier::external_type_specification]
#[verifier::external_body]
pub struct ExSysError(rand::rngs::SysError);

/// The operating system's random source could not be read.
#[derive(Debug, Clone, Copy, PartialEq, Eq, Structural)]
pub enum RandomSourceError {
    Unavailable,
}

/// Calls `rand::TryRng::try_next_u32` on `rand::rngs::SysRng` (the
/// operating-system source, `getrandom::u32`). Its failure comes back as
/// `Err`; nothing is claimed of the number drawn.
#[verifier::external_body]
fn system_u32() -> (r: Result<u32, rand::rngs::SysError>) {
    rand::TryRng::try_next_u32(&mut rand::rngs::SysRng)
}

/// Calls `rand::TryRng::try_fill_bytes` on `rand::rngs::SysRng` for sixteen
/// bytes (`getrandom::fill`). Its failure comes back as `Err`; nothing is
/// claimed of the bytes drawn.
#[verifier::external_body]
fn system_bytes16() -> (r: Result<[u8; 16], rand::rngs::SysError>) {
    let mut bytes = [0u8; 16];
    match rand::TryRng::try_fill_bytes(&mut rand::rngs::SysRng, &mut bytes) {
        Ok(()) => Ok(bytes),
        Err(e) => Err(e),
    }
}

/// Draws a random 32-bit number.
pub fn draw_u32() -> (r: Result<u32, RandomSourceError>)
    ensures
        r matches Err(e) ==> e == RandomSourceError::Unavailable,
{
    match system_u32() {
        Ok(n) => Ok(n),
        Err(_) => Err(RandomSourceError::Unavailable),
    }
}

/// Draws sixteen random bytes.
pub fn draw_bytes16() -> (r: Result<[u8; 16], RandomSourceError>)
    ensures
        r matches Err(e) ==> e == RandomSourceError::Unavailable,
{
    match system_bytes16() {
        Ok(b) => Ok(b),
        Err(_) => Err(RandomSourceError::Unavailable),
    }
}

} // verus!
