//! Scaffolding for exercising the library: hands a callback the canonical
//! source and target root paths used throughout the test suite. Creating and
//! clearing the real directories is filesystem work and stays with the
//! caller; the planning logic itself only needs the paths.

use vstd::prelude::*;

verus! {

/// The canonical source root the scaffolding hands out.
pub open spec fn spec_test_source() -> Seq<char> {
    "/tmp/source"@
}

/// The canonical target root the scaffolding hands out.
pub open spec fn spec_test_target() -> Seq<char> {
    "/tmp/target"@
}

/// Runs `test` with the canonical source and target root paths.
pub fn with_test_directories<F: FnOnce(String, String)>(test: F)
    requires
        forall|s: String, t: String|
            s@ == spec_test_source() && t@ == spec_test_target() ==> call_requires(test, (s, t)),
{
    let source = String::from_str("/tmp/source");
    let target = String::from_str("/tmp/target");
    test(source, target);
}

} // verus!
