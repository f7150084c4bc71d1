//! A display record for a single commit: a short textual identifier plus the
//! optional first line of the commit's message.

use vstd::prelude::*;

use crate::git::find_commit_message;
use crate::git::short_id_for_commit_in_repo;
use crate::text::first_line;
use crate::text::lemma_first_line_no_newline;

verus! {

/// Mathematical model of a [`SubmoduleCommit`]: the identifier and optional
/// title as character sequences.
pub struct CommitView {
    pub id: Seq<char>,
    pub title: Option<Seq<char>>,
}

/// One commit, as it is displayed in an update's message body.
#[derive(Debug)]
pub struct SubmoduleCommit {
    pub id: String,
    pub title: Option<String>,
}

impl View for SubmoduleCommit {
    type V = CommitView;

    open spec fn view(&self) -> CommitView {
        CommitView {
            id: self.id@,
            title: match self.title {
                Some(t) => Some(t@),
                None => None,
            },
        }
    }
}

impl SubmoduleCommit {
    /// Builds a commit record from its display id and optional title.
    pub fn new(id: &str, title: Option<&str>) -> (r: SubmoduleCommit)
        ensures
            r@.id == id@,
            match title {
                Some(t) => r@.title == Some(t@),
                None => r@.title is None,
            },
    {
        SubmoduleCommit {
            id: id.to_owned(),
            title: match title {
                Some(t) => Some(t.to_owned()),
                None => None,
            },
        }
    }

    /// Looks the commit up in `r` and builds its display record: the short id
    /// from the repository, and the first line of its message when the commit
    /// and its message can be read. Fails only when the short id cannot be
    /// computed; a missing or unreadable message degrades to no title.
    pub fn from_repository_oid(r: &git2::Repository, oid: git2::Oid) -> (res: Result<
        SubmoduleCommit,
        git2::Error,
    >)
        ensures
            match res {
                Ok(c) => match c@.title {
                    Some(t) => forall|j: int| 0 <= j < t.len() ==> t[j] != '\n',
                    None => true,
                },
                Err(_) => true,
            },
    {
        let id = match short_id_for_commit_in_repo(r, oid) {
            Ok(id) => id,
            Err(e) => {
                return Err(e);
            },
        };
        let title = match find_commit_message(r, oid) {
            Some(m) => {
                let t = first_line(m.as_str());
                proof {
                    lemma_first_line_no_newline(m@);
                }
                Some(t)
            },
            None => None,
        };
        let c = match &title {
            Some(t) => SubmoduleCommit::new(id.as_str(), Some(t.as_str())),
            None => SubmoduleCommit::new(id.as_str(), None),
        };
        Ok(c)
    }
}

} // verus!
