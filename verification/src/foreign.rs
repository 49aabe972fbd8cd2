//! Types of the standard library that the records carry without looking inside.

use vstd::prelude::*;

verus! {

/// `std::time::SystemTime`, a moment on the system clock. It is carried through
/// as an opaque value: nothing is claimed of what it holds.
#[verifier::external_type_specification]
#[verifier::external_body]
pub struct ExSystemTime(std::time::SystemTime);

/// `std::path::PathBuf`, an owned filesystem path. It is carried through as an
/// opaque value: nothing is claimed of what it holds.
#[verifier::external_type_specification]
#[verifier::external_body]
pub struct ExPathBuf(std::path::PathBuf);

/// `Clone::clone` of `std::path::PathBuf`. The clone is a duplicate of the path
/// it was made from.
pub assume_specification[ <std::path::PathBuf as Clone>::clone ](
    path: &std::path::PathBuf,
) -> (copy: std::path::PathBuf)
    ensures
        copy == *path,
;

} // verus!
