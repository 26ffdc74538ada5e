use vstd::prelude::*;

verus! {

/// What can go wrong in this library.
#[derive(PartialEq, Eq, Structural, Clone, Copy, Debug)]
pub enum Error {
    /// A narrowing was asked of an entity whose kind does not allow it.
    InvalidData,
    /// A native call reported failure with this negative status code.
    Other(i32),
}

/// The outcome of a native call from its status code: zero is success, any
/// other code is passed on unchanged.
pub fn status_to_result(code: i32) -> (r: Result<(), Error>)
    ensures
        code == 0 ==> r is Ok,
        code != 0 ==> r == Err::<(), Error>(Error::Other(code)),
{
    if code == 0 {
        Ok(())
    } else {
        Err(Error::Other(code))
    }
}

} // verus!
