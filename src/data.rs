//! Loading and unloading kernels: data files the native library reads into its global pool.
use vstd::prelude::*;
use crate::lock::Spice;
use crate::string::{nul_free, NulError, SpiceString};
use vstd::string::StringSliceAdditionalSpecFns;

verus! {

/// Functions for loading and unloading kernels. The native call is made with the returned
/// argument, and its outcome read by an error check.
impl Spice {
    /// The argument that loads the kernel `file`: its path, nul-terminated.
    ///
    /// Fails when the path holds a nul byte, rather than loading a file of a shorter name.
    pub fn furnish(&self, file: &str) -> (r: Result<SpiceString, NulError>)
        ensures
            r is Ok <==> nul_free(file.spec_bytes()),
            r matches Ok(s) ==> s@ == file.spec_bytes(),
            r matches Err(e) ==> e.position < file.spec_bytes().len() && file.spec_bytes()[e.position as int]
                == 0,
    {
        SpiceString::new(file)
    }

    /// The argument that unloads the kernel `file`: its path, nul-terminated.
    ///
    /// Fails when the path holds a nul byte.
    pub fn unload(&self, file: &str) -> (r: Result<SpiceString, NulError>)
        ensures
            r is Ok <==> nul_free(file.spec_bytes()),
            r matches Ok(s) ==> s@ == file.spec_bytes(),
            r matches Err(e) ==> e.position < file.spec_bytes().len() && file.spec_bytes()[e.position as int]
                == 0,
    {
        SpiceString::new(file)
    }
}

} // verus!
