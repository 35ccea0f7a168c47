//! Derivation of the build output paths from resolved inputs.
//!
//! From the kernel's build descriptor and a target triple the resolver
//! derives the release target directory, and from that directory and the
//! package name the expected path of the compiled kernel binary. Both
//! derivations are pure functions of their inputs.

use vstd::prelude::*;
use vstd::string::StringExecFns;

use crate::errors::PipelineError;
use crate::paths::join_spec;
use crate::paths::parent_spec;
use crate::paths::path_join;
use crate::paths::path_parent;

verus! {

/// The release target directory below a descriptor's root:
/// `root/target/{triple}/release`.
pub open spec fn target_dir_from_root(root: Seq<char>, triple: Seq<char>) -> Seq<char> {
    join_spec(join_spec(join_spec(root, "target"@), triple), "release"@)
}

/// The target directory derived from a build descriptor, or nothing for a
/// degenerate descriptor path without a parent.
pub open spec fn derive_target_dir_spec(descriptor: Seq<char>, triple: Seq<char>) -> Option<
    Seq<char>,
> {
    match parent_spec(descriptor) {
        Some(root) => Some(target_dir_from_root(root, triple)),
        None => None,
    }
}

/// The expected compiled-binary path: `target_dir/{package}.elf`.
pub open spec fn derive_binary_path_spec(target_dir: Seq<char>, package: Seq<char>) -> Seq<char> {
    join_spec(target_dir, package + ".elf"@)
}

/// Derive the release target directory from the kernel's build descriptor
/// and the target triple. Fails exactly when the descriptor has no parent.
pub fn derive_target_dir(descriptor: &str, triple: &str) -> (r: Result<String, PipelineError>)
    ensures
        match r {
            Ok(dir) => derive_target_dir_spec(descriptor@, triple@) == Some(dir@),
            Err(e) => derive_target_dir_spec(descriptor@, triple@) is None && e
                == PipelineError::RootNotFound,
        },
{
    match path_parent(descriptor) {
        Some(root) => {
            let with_target = path_join(root.as_str(), "target");
            let with_triple = path_join(with_target.as_str(), triple);
            let dir = path_join(with_triple.as_str(), "release");
            Ok(dir)
        },
        None => Err(PipelineError::RootNotFound),
    }
}

/// Derive the expected compiled-binary path from the target directory and
/// the package name.
pub fn derive_binary_path(target_dir: &str, package: &str) -> (r: String)
    ensures
        r@ == derive_binary_path_spec(target_dir@, package@),
{
    let mut name = String::from_str(package);
    name.append(".elf");
    path_join(target_dir, name.as_str())
}

/// Path derivation is pure: two derivations from identical inputs yield
/// identical paths.
pub proof fn lemma_derivation_is_pure(
    descriptor: Seq<char>,
    triple: Seq<char>,
    target_dir: Seq<char>,
    package: Seq<char>,
    d1: Option<Seq<char>>,
    d2: Option<Seq<char>>,
    b1: Seq<char>,
    b2: Seq<char>,
)
    requires
        d1 == derive_target_dir_spec(descriptor, triple),
        d2 == derive_target_dir_spec(descriptor, triple),
        b1 == derive_binary_path_spec(target_dir, package),
        b2 == derive_binary_path_spec(target_dir, package),
    ensures
        d1 == d2,
        b1 == b2,
{
}

} // verus!
