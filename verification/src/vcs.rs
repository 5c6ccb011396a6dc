//! The release-commit pipeline: resolves author and committer identities,
//! builds the tagged commit message, and appends one commit onto `HEAD`
//! of an existing repository.
use vstd::prelude::*;

verus! {

#[verifier::external_type_specification]
#[verifier::external_body]
pub struct ExRepository(git2::Repository);

#[verifier::external_type_specification]
#[verifier::external_body]
pub struct ExOid(git2::Oid);

#[verifier::external_type_specification]
#[verifier::external_body]
pub struct ExSignature<'a>(git2::Signature<'a>);

#[verifier::external_type_specification]
#[verifier::external_body]
pub struct ExReference<'a>(git2::Reference<'a>);

#[verifier::external_type_specification]
#[verifier::external_body]
pub struct ExCommitObj<'a>(git2::Commit<'a>);

#[verifier::external_type_specification]
#[verifier::external_body]
pub struct ExTree<'a>(git2::Tree<'a>);

/// What went wrong while building a release commit; one variant per
/// failure condition, each carrying the underlying repository error's
/// message.
#[derive(Debug)]
pub enum VcsError {
    /// The repository has no usable committer identity configured.
    NoCommitterIdentity(String),
    /// `HEAD` could not be resolved to an existing commit.
    HeadUnresolved(String),
    /// The given tree id does not resolve to a tree in the object store.
    TreeMissing(String),
    /// The underlying write to the object database or the reference
    /// update failed.
    WriteFailed(String),
}

/// The failure condition a [`VcsError`] reports, as a bare tag.
#[derive(Clone, Copy, Debug, PartialEq, Eq, Structural)]
pub enum VcsErrorKind {
    NoCommitterIdentity,
    HeadUnresolved,
    TreeMissing,
    WriteFailed,
}

impl VcsError {
    /// The failure condition this error reports.
    pub open spec fn kind_spec(&self) -> VcsErrorKind {
        match self {
            VcsError::NoCommitterIdentity(_) => VcsErrorKind::NoCommitterIdentity,
            VcsError::HeadUnresolved(_) => VcsErrorKind::HeadUnresolved,
            VcsError::TreeMissing(_) => VcsErrorKind::TreeMissing,
            VcsError::WriteFailed(_) => VcsErrorKind::WriteFailed,
        }
    }

    /// The failure condition this error reports.
    pub fn kind(&self) -> (k: VcsErrorKind)
        ensures
            k == self.kind_spec(),
    {
        match self {
            VcsError::NoCommitterIdentity(_) => VcsErrorKind::NoCommitterIdentity,
            VcsError::HeadUnresolved(_) => VcsErrorKind::HeadUnresolved,
            VcsError::TreeMissing(_) => VcsErrorKind::TreeMissing,
            VcsError::WriteFailed(_) => VcsErrorKind::WriteFailed,
        }
    }

    /// The message of the underlying repository error.
    pub open spec fn message_spec(&self) -> Seq<char> {
        match self {
            VcsError::NoCommitterIdentity(m) => m@,
            VcsError::HeadUnresolved(m) => m@,
            VcsError::TreeMissing(m) => m@,
            VcsError::WriteFailed(m) => m@,
        }
    }

    /// The message of the underlying repository error.
    pub fn message(self) -> (m: String)
        ensures
            m@ == self.message_spec(),
    {
        match self {
            VcsError::NoCommitterIdentity(m) => m,
            VcsError::HeadUnresolved(m) => m,
            VcsError::TreeMissing(m) => m,
            VcsError::WriteFailed(m) => m,
        }
    }
}

/// The marker every release-commit message carries, space included.
pub open spec fn spec_message_prefix() -> Seq<char> {
    "[fontship] "@
}

/// The final message of a release commit: the fixed marker followed by
/// the caller-supplied message.
pub open spec fn spec_commit_message(msg: Seq<char>) -> Seq<char> {
    spec_message_prefix() + msg
}

/// Builds the final release-commit message: the caller-supplied message
/// behind the fixed `[fontship] ` marker.
pub fn commit_message(msg: &str) -> (r: String)
    ensures
        r@ == spec_commit_message(msg@),
{
    let mut s = String::from_str("[fontship] ");
    s.append(msg);
    s
}

/// Relies on git2's Repository::discover: walks upward from `path` until
/// a repository root is found and opens it; fails, with the underlying
/// error's message, when none is found.
#[verifier::external_body]
pub fn get_repo(path: &str) -> (r: Result<git2::Repository, String>) {
    match git2::Repository::discover(path) {
        Ok(repo) => Ok(repo),
        Err(e) => Err(e.message().to_string()),
    }
}

/// Relies on git2's Repository::signature: the repository's configured
/// `user.name`/`user.email` identity with the current time, or `NotFound`
/// when either setting is unset.
#[verifier::external_body]
fn repo_signature(repo: &git2::Repository) -> (r: Result<git2::Signature<'static>, String>) {
    match repo.signature() {
        Ok(sig) => Ok(sig),
        Err(e) => Err(e.message().to_string()),
    }
}

/// Relies on git2's Signature::email: the email address carried by the
/// signature, or an error when it is not valid UTF-8.
#[verifier::external_body]
fn signature_email<'a>(sig: &git2::Signature<'a>) -> (r: Result<String, String>) {
    match sig.email() {
        Ok(email) => Ok(email.to_string()),
        Err(e) => Err(e.message().to_string()),
    }
}

/// Relies on git2's Signature::now: a signature with the given name and
/// email and the current timestamp; fails when either contains angle
/// brackets.
#[verifier::external_body]
fn signature_now(name: &str, email: &str) -> (r: Result<git2::Signature<'static>, String>) {
    match git2::Signature::now(name, email) {
        Ok(sig) => Ok(sig),
        Err(e) => Err(e.message().to_string()),
    }
}

/// Relies on git2's Repository::head: the reference `HEAD` currently
/// points at, or an error when it cannot be resolved.
#[verifier::external_body]
fn repo_head<'a>(repo: &'a git2::Repository) -> (r: Result<git2::Reference<'a>, String>) {
    match repo.head() {
        Ok(head) => Ok(head),
        Err(e) => Err(e.message().to_string()),
    }
}

/// Relies on git2's Reference::peel_to_commit: the commit the reference
/// ultimately points at, or an error when it does not peel to a commit.
#[verifier::external_body]
fn peel_to_commit<'a>(r: &git2::Reference<'a>) -> (c: Result<git2::Commit<'a>, String>) {
    match r.peel_to_commit() {
        Ok(commit) => Ok(commit),
        Err(e) => Err(e.message().to_string()),
    }
}

/// Relies on git2's Repository::find_tree: the tree object with the given
/// id, or an error when the object store holds no such tree.
#[verifier::external_body]
fn find_tree<'a>(repo: &'a git2::Repository, oid: git2::Oid) -> (r: Result<
    git2::Tree<'a>,
    String,
>) {
    match repo.find_tree(oid) {
        Ok(tree) => Ok(tree),
        Err(e) => Err(e.message().to_string()),
    }
}

/// Relies on git2's Repository::commit: writes a new commit with the
/// given tree, identities, message and single parent, and advances the
/// named reference to it; the update fails when the parent is no longer
/// that reference's tip.
#[verifier::external_body]
fn write_commit<'a>(
    repo: &git2::Repository,
    update_ref: Option<&str>,
    author: &git2::Signature<'a>,
    committer: &git2::Signature<'a>,
    message: &str,
    tree: &git2::Tree<'a>,
    parent: &git2::Commit<'a>,
) -> (r: Result<git2::Oid, String>) {
    match repo.commit(update_ref, author, committer, message, tree, &[parent]) {
        Ok(oid) => Ok(oid),
        Err(e) => Err(e.message().to_string()),
    }
}

/// Appends one release commit onto `HEAD`: the committer identity comes
/// from the repository's configuration, the author is `Fontship` with the
/// committer's email and the current time, the sole parent is the commit
/// `HEAD` resolves to, the tree is the prepared tree `oid` names, and the
/// message is `msg` behind the fixed marker. Each failure condition is
/// reported as its own [`VcsError`] variant; the repository is only ever
/// appended to, never rewritten.
pub fn commit(repo: git2::Repository, oid: git2::Oid, msg: &str) -> Result<git2::Oid, VcsError> {
    let committer = match repo_signature(&repo) {
        Ok(s) => s,
        Err(e) => {
            return Err(VcsError::NoCommitterIdentity(e));
        },
    };
    let email = match signature_email(&committer) {
        Ok(s) => s,
        Err(e) => {
            return Err(VcsError::NoCommitterIdentity(e));
        },
    };
    let author = match signature_now("Fontship", email.as_str()) {
        Ok(s) => s,
        Err(e) => {
            return Err(VcsError::NoCommitterIdentity(e));
        },
    };
    let head = match repo_head(&repo) {
        Ok(h) => h,
        Err(e) => {
            return Err(VcsError::HeadUnresolved(e));
        },
    };
    let parent = match peel_to_commit(&head) {
        Ok(c) => c,
        Err(e) => {
            return Err(VcsError::HeadUnresolved(e));
        },
    };
    let tree = match find_tree(&repo, oid) {
        Ok(t) => t,
        Err(e) => {
            return Err(VcsError::TreeMissing(e));
        },
    };
    let message = commit_message(msg);
    match write_commit(&repo, Some("HEAD"), &author, &committer, message.as_str(), &tree, &parent) {
        Ok(id) => Ok(id),
        Err(e) => Err(VcsError::WriteFailed(e)),
    }
}

} // verus!
