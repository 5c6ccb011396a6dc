//! Build-time identity: the version string that describes the running
//! binary, resolved from build-time inputs.
use vstd::prelude::*;

verus! {

/// The build-time version: the version-control describe string when one
/// was captured at build time, else the package-manifest version.
pub open spec fn spec_build_version(describe: Option<Seq<char>>, fallback: Seq<char>) -> Seq<char> {
    match describe {
        Some(d) => d,
        None => fallback,
    }
}

/// Resolves the build-time identity of the binary: prefers the
/// version-control describe string captured at build time and falls back
/// to the statically embedded package version.
pub fn build_version(describe: Option<&str>, fallback: &str) -> (r: String)
    ensures
        describe is Some ==> r@ == spec_build_version(Some(describe->Some_0@), fallback@),
        describe is None ==> r@ == spec_build_version(None, fallback@),
{
    match describe {
        Some(d) => String::from_str(d),
        None => String::from_str(fallback),
    }
}

/// The build-time identity is stable: any two accesses resolved from the
/// same build-time inputs yield the same version string.
pub proof fn lemma_build_version_stable(
    describe: Option<Seq<char>>,
    fallback: Seq<char>,
    r1: Seq<char>,
    r2: Seq<char>,
)
    requires
        r1 == spec_build_version(describe, fallback),
        r2 == spec_build_version(describe, fallback),
    ensures
        r1 == r2,
{
}

} // verus!
