//! Where the routes of presigned requests are mounted.
use vstd::prelude::*;

verus! {

/// The path below which the routes of one repository stand. The segment in
/// braces is captured as the repository's id.
pub fn repository_mount() -> (r: &'static str)
    ensures
        r@ == "/{repository_id}"@,
{
    "/{repository_id}"
}

/// The mount is one segment, captured under the name `repository_id`.
pub proof fn mount_captures_the_repository_id(r: &'static str)
    requires
        call_ensures(repository_mount, (), r),
    ensures
        r@.len() >= 3,
        r@[0] == '/',
        r@[1] == '{',
        r@.last() == '}',
        r@.subrange(2, r@.len() - 1) == "repository_id"@,
{
    reveal_strlit("/{repository_id}");
    reveal_strlit("repository_id");
    assert(r@.subrange(2, r@.len() - 1) =~= "repository_id"@);
}

} // verus!
