use vstd::prelude::*;

verus! {

/// Declares `nix::Error`, the error that a failed change of directory
/// carries; nothing inside it is relied on.
#[verifier::external_type_specification]
#[verifier::external_body]
pub struct ExNixError(nix::Error);

/// Relies on `nix::unistd::chdir`: changes the working directory of the
/// process to `dir`; whether that succeeds depends on the file system.
#[verifier::external_body]
pub(crate) fn change_dir(dir: &str) -> (r: Result<(), nix::Error>) {
    nix::unistd::chdir(dir)
}

} // verus!
