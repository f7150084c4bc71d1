//! Trusted boundary to the Git access layer. Each item here wraps calls into
//! the `git2` crate; Verus believes the stated contracts without reading the
//! bodies. Everything the rest of the crate learns from a repository — paths,
//! names, endpoint pointers, commit messages, short ids, traversal output —
//! comes through these functions as plain values.

use vstd::prelude::*;

verus! {

#[verifier::external_type_specification]
#[verifier::external_body]
pub struct ExRepository(git2::Repository);

#[verifier::external_type_specification]
#[verifier::external_body]
pub struct ExSubmodule<'a>(git2::Submodule<'a>);

#[verifier::external_type_specification]
#[verifier::external_body]
pub struct ExOid(git2::Oid);

#[verifier::external_type_specification]
#[verifier::external_body]
pub struct ExError(git2::Error);

/// Relies on git2::Submodule::path: the submodule's path relative to the
/// superproject's working directory, as a string when it is valid UTF-8.
#[verifier::external_body]
pub(crate) fn submodule_path_str(sm: &git2::Submodule) -> Option<String> {
    sm.path().to_str().map(|s| s.to_owned())
}

/// Relies on git2::Submodule::name: the submodule's configured name, when it
/// is valid UTF-8.
#[verifier::external_body]
pub(crate) fn submodule_name_str(sm: &git2::Submodule) -> Option<String> {
    sm.name().ok().map(|s| s.to_owned())
}

/// Relies on git2::Submodule::head_id: the commit pointer recorded for the
/// submodule in the superproject's current HEAD tree, when there is one.
#[verifier::external_body]
pub(crate) fn submodule_head_id(sm: &git2::Submodule) -> Option<git2::Oid> {
    sm.head_id()
}

/// Relies on git2::Submodule::workdir_id: the commit pointer checked out in
/// the submodule's working directory, when there is one.
#[verifier::external_body]
pub(crate) fn submodule_workdir_id(sm: &git2::Submodule) -> Option<git2::Oid> {
    sm.workdir_id()
}

/// Relies on git2::Submodule::open: a handle to the submodule's own
/// repository.
#[verifier::external_body]
pub(crate) fn submodule_open(sm: &git2::Submodule) -> Result<git2::Repository, git2::Error> {
    sm.open()
}

/// Relies on git2::Repository::open, applied to git2::Submodule::path: a
/// handle to the repository at the submodule's path.
#[verifier::external_body]
pub(crate) fn open_at_submodule_path(sm: &git2::Submodule) -> Result<
    git2::Repository,
    git2::Error,
> {
    git2::Repository::open(sm.path())
}

/// Relies on git2::Oid's `PartialEq`, which compares the raw object-id bytes:
/// true exactly when the two ids are the same value.
#[verifier::external_body]
pub(crate) fn oid_eq(a: &git2::Oid, b: &git2::Oid) -> (r: bool)
    ensures
        r == (a == b),
{
    a == b
}

/// Relies on git2::Repository::revwalk and git2::Revwalk's set_sorting,
/// push_range and next: the ids of the commits reachable from `start` but not
/// from `exclude`, visited in topological order. Per-id traversal errors drop
/// that id from the walk, as the walk's consumers do; what comes back depends
/// on the repository's object store, so nothing is stated of the contents.
#[verifier::external_body]
pub(crate) fn revwalk_commits(
    repo: &git2::Repository,
    start: &git2::Oid,
    exclude: &git2::Oid,
) -> Result<Vec<git2::Oid>, git2::Error> {
    let mut walk = repo.revwalk()?;
    let _ = walk.set_sorting(git2::Sort::TOPOLOGICAL);
    walk.push_range(&format!("{}..{}", exclude, start))?;
    Ok(walk.filter_map(|o| o.ok()).collect())
}

/// Relies on git2::Repository::find_commit and git2::Commit::message: the
/// commit's full message, when the commit can be loaded and the message is
/// valid UTF-8.
#[verifier::external_body]
pub(crate) fn find_commit_message(repo: &git2::Repository, oid: git2::Oid) -> Option<String> {
    repo.find_commit(oid).ok().and_then(|c| c.message().ok().map(|m| m.to_owned()))
}

/// Relies on git2::Repository::find_object, git2::Object::short_id and
/// git2::Buf::as_str: the shortest prefix of the commit's id that is
/// unambiguous within `repo` at lookup time. Fails when the object does not
/// exist or the short form cannot be computed.
#[verifier::external_body]
pub fn short_id_for_commit_in_repo(
    repo: &git2::Repository,
    oid: git2::Oid,
) -> Result<String, git2::Error> {
    Ok(repo.find_object(oid, Some(git2::ObjectType::Commit))?.short_id()?.as_str()?.to_owned())
}

} // verus!
