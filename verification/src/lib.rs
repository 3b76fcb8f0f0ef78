//! A Mach-O linker front end built on GNU bfd, together with the logic that
//! fetches, configures and builds the autotools-based libraries it links.
use vstd::prelude::*;

pub mod autotools;
pub mod autotools_install;
pub mod bfd;
pub mod command;

verus! {

/// Produces a Mach-O main executable at `out_path` from the object file
/// `object` and the clang runtime archive `clang_rt`. Nothing is linked yet:
/// the result is the output path.
pub fn make_executable(object: &str, clang_rt: &str, out_path: &str) -> (res: Result<
    String,
    std::io::Error,
>)
    ensures
        res is Ok,
        res.unwrap()@ == out_path@,
{
    Ok(String::from_str(out_path))
}

} // verus!
