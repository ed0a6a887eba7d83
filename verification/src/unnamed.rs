//! Anonymous temporary files: a handle with no externally addressable name.

use vstd::prelude::*;

use crate::error::ErrorKind;

verus! {

/// An anonymous temporary file: it owns exactly one open handle and has no
/// externally meaningful path. The creation primitive either never links the
/// file into the filesystem or removes its directory entry before the owner
/// is handed out, so the operating system reclaims the file once the last
/// handle is released — destruction of the handle is the whole cleanup, and
/// no explicit deletion step exists.
pub struct TempFile<H>(pub H);

impl<H> TempFile<H> {
    /// Create an anonymous temporary file in `dir` through `create_anon`,
    /// the caller's create-anonymous primitive. No retry protocol is needed:
    /// the primitive does not depend on a name staying free. The owner holds
    /// exactly the handle the primitive returned.
    pub fn new_in<C: FnOnce(String) -> Result<H, ErrorKind>>(dir: String, create_anon: C) -> (r:
        Result<TempFile<H>, ErrorKind>)
        requires
            call_requires(create_anon, (dir,)),
        ensures
            match r {
                Ok(t) => call_ensures(create_anon, (dir,), Result::<H, ErrorKind>::Ok(t.0)),
                Err(e) => call_ensures(create_anon, (dir,), Result::<H, ErrorKind>::Err(e)),
            },
    {
        match create_anon(dir) {
            Ok(h) => Ok(TempFile(h)),
            Err(e) => Err(e),
        }
    }

    /// Convert the owner into its bare handle. Nothing else is needed to
    /// clean the file up.
    pub fn into_file(self) -> (r: H)
        ensures
            r == self.0,
    {
        self.0
    }
}

} // verus!
