//! The structured record of one submodule's pointer move: a title fragment
//! naming the two endpoints, and an optional message body listing the added
//! and dropped commits.

use vstd::prelude::*;
use vstd::string::StringExecFns;

use crate::git::oid_eq;
use crate::git::open_at_submodule_path;
use crate::git::revwalk_commits;
use crate::git::short_id_for_commit_in_repo;
use crate::git::submodule_head_id;
use crate::git::submodule_name_str;
use crate::git::submodule_open;
use crate::git::submodule_path_str;
use crate::git::submodule_workdir_id;
use crate::submodule_commit::CommitView;
use crate::submodule_commit::SubmoduleCommit;
use crate::text::join_with;
use crate::text::lemma_join_with_push;

verus! {

/// Mathematical model of a [`SubmoduleUpdate`].
pub struct UpdateView {
    pub name: Seq<char>,
    pub title: Seq<char>,
    pub message: Option<Seq<char>>,
}

/// The separator between the two endpoint ids in a title: `".."` when no
/// commits were dropped, `"..."` when at least one was.
pub open spec fn sep_view(dropped_empty: bool) -> Seq<char> {
    if dropped_empty {
        seq!['.', '.']
    } else {
        seq!['.', '.', '.']
    }
}

/// The title fragment `"<name> (<from><sep><to>)"`.
pub open spec fn title_view(
    name: Seq<char>,
    from: Seq<char>,
    to: Seq<char>,
    dropped_empty: bool,
) -> Seq<char> {
    name + seq![' ', '('] + from + sep_view(dropped_empty) + to + seq![')']
}

/// One message line: the sign, the commit's id, and — when the commit has a
/// title — a space and that title.
pub open spec fn line_view(sign: char, c: CommitView) -> Seq<char> {
    match c.title {
        Some(t) => seq![sign] + c.id + seq![' '] + t,
        None => seq![sign] + c.id,
    }
}

/// The message lines of an update: one `'+'` line per added commit in input
/// order, then one `'-'` line per dropped commit in input order.
pub open spec fn lines_view(added: Seq<CommitView>, dropped: Seq<CommitView>) -> Seq<Seq<char>> {
    added.map_values(|c: CommitView| line_view('+', c)) + dropped.map_values(
        |c: CommitView| line_view('-', c),
    )
}

/// The models of a sequence of commit records.
pub open spec fn commit_views(s: Seq<SubmoduleCommit>) -> Seq<CommitView> {
    s.map_values(|c: SubmoduleCommit| c@)
}

/// The full result of building an update: the name kept as given, the title
/// with the separator chosen by whether anything was dropped, and the message
/// absent exactly when both commit lists are empty.
pub open spec fn build_view(
    name: Seq<char>,
    from: Seq<char>,
    to: Seq<char>,
    added: Seq<CommitView>,
    dropped: Seq<CommitView>,
) -> UpdateView {
    UpdateView {
        name: name,
        title: title_view(name, from, to, dropped.len() == 0),
        message: if added.len() == 0 && dropped.len() == 0 {
            None
        } else {
            Some(join_with(lines_view(added, dropped), seq!['\n']))
        },
    }
}

/// One submodule's pointer move, ready for rendering.
#[derive(Debug)]
pub struct SubmoduleUpdate {
    pub name: String,
    pub title: String,
    pub message: Option<String>,
}

impl View for SubmoduleUpdate {
    type V = UpdateView;

    open spec fn view(&self) -> UpdateView {
        UpdateView {
            name: self.name@,
            title: self.title@,
            message: match self.message {
                Some(m) => Some(m@),
                None => None,
            },
        }
    }
}

/// Builds the message line for one commit: `"+<id>[ <title>]"` when `plus`,
/// else `"-<id>[ <title>]"`.
fn commit_line(plus: bool, c: &SubmoduleCommit) -> (r: String)
    ensures
        r@ == line_view(if plus { '+' } else { '-' }, c@),
{
    let mut line = String::new();
    if plus {
        line.append("+");
        proof {
            reveal_strlit("+");
            assert("+"@ =~= seq!['+']);
        }
    } else {
        line.append("-");
        proof {
            reveal_strlit("-");
            assert("-"@ =~= seq!['-']);
        }
    }
    line.append(c.id.as_str());
    match &c.title {
        Some(t) => {
            line.append(" ");
            line.append(t.as_str());
            proof {
                reveal_strlit(" ");
                assert(" "@ =~= seq![' ']);
                assert(line@ =~= line_view(if plus { '+' } else { '-' }, c@));
            }
        },
        None => {
            proof {
                assert(line@ =~= line_view(if plus { '+' } else { '-' }, c@));
            }
        },
    }
    line
}

impl SubmoduleUpdate {
    /// Builds the update record for a submodule move from its name, the two
    /// endpoints' short ids, and the ordered lists of added and dropped
    /// commits.
    pub fn new(
        name: &str,
        from_id: &str,
        to_id: &str,
        added_commits: Vec<SubmoduleCommit>,
        dropped_commits: Vec<SubmoduleCommit>,
    ) -> (r: SubmoduleUpdate)
        ensures
            r@ == build_view(
                name@,
                from_id@,
                to_id@,
                commit_views(added_commits@),
                commit_views(dropped_commits@),
            ),
    {
        let ghost av = commit_views(added_commits@);
        let ghost dv = commit_views(dropped_commits@);

        let mut title = String::new();
        title.append(name);
        title.append(" (");
        title.append(from_id);
        if dropped_commits.is_empty() {
            title.append("..");
        } else {
            title.append("...");
        }
        title.append(to_id);
        title.append(")");
        proof {
            reveal_strlit(" (");
            reveal_strlit("..");
            reveal_strlit("...");
            reveal_strlit(")");
            assert(" ("@ =~= seq![' ', '(']);
            assert(".."@ =~= seq!['.', '.']);
            assert("..."@ =~= seq!['.', '.', '.']);
            assert(")"@ =~= seq![')']);
            assert(title@ =~= title_view(name@, from_id@, to_id@, dv.len() == 0));
        }

        let mut msg = String::new();
        let mut have_lines: bool = false;
        let ghost mut glines: Seq<Seq<char>> = Seq::empty();
        proof {
            reveal_strlit("\n");
            assert("\n"@ =~= seq!['\n']);
        }

        let mut i: usize = 0;
        while i < added_commits.len()
            invariant
                i <= added_commits.len(),
                av == commit_views(added_commits@),
                glines == av.take(i as int).map_values(|c: CommitView| line_view('+', c)),
                have_lines == (glines.len() > 0),
                msg@ == join_with(glines, seq!['\n']),
                "\n"@ =~= seq!['\n'],
            decreases added_commits.len() - i,
        {
            let line = commit_line(true, &added_commits[i]);
            if have_lines {
                msg.append("\n");
            }
            msg.append(line.as_str());
            proof {
                lemma_join_with_push(glines, line@, seq!['\n']);
                glines = glines.push(line@);
                assert(av.take(i + 1) =~= av.take(i as int).push(av[i as int]));
                assert(av.take(i + 1).map_values(|c: CommitView| line_view('+', c)) =~= glines);
            }
            have_lines = true;
            i = i + 1;
        }
        proof {
            assert(av.take(added_commits@.len() as int) =~= av);
        }

        let mut i: usize = 0;
        while i < dropped_commits.len()
            invariant
                i <= dropped_commits.len(),
                av == commit_views(added_commits@),
                dv == commit_views(dropped_commits@),
                glines == av.map_values(|c: CommitView| line_view('+', c)) + dv.take(
                    i as int,
                ).map_values(|c: CommitView| line_view('-', c)),
                have_lines == (glines.len() > 0),
                msg@ == join_with(glines, seq!['\n']),
                "\n"@ =~= seq!['\n'],
            decreases dropped_commits.len() - i,
        {
            let line = commit_line(false, &dropped_commits[i]);
            if have_lines {
                msg.append("\n");
            }
            msg.append(line.as_str());
            proof {
                lemma_join_with_push(glines, line@, seq!['\n']);
                glines = glines.push(line@);
                assert(dv.take(i + 1) =~= dv.take(i as int).push(dv[i as int]));
                assert(av.map_values(|c: CommitView| line_view('+', c)) + dv.take(
                    i + 1,
                ).map_values(|c: CommitView| line_view('-', c)) =~= glines);
            }
            have_lines = true;
            i = i + 1;
        }
        proof {
            assert(dv.take(dropped_commits@.len() as int) =~= dv);
            assert(glines == lines_view(av, dv));
        }

        let message = if !have_lines {
            None
        } else {
            Some(msg)
        };
        let r = SubmoduleUpdate { name: name.to_owned(), title: title, message: message };
        proof {
            assert(r@ == build_view(name@, from_id@, to_id@, av, dv));
        }
        r
    }

    /// Diffs one submodule's two endpoint pointers and builds its update
    /// record. Yields nothing when the submodule's repository cannot be
    /// opened through the submodule entry, when either endpoint pointer is
    /// absent, when the two pointers are equal, or when a history traversal
    /// cannot be constructed. When only the second open — of the repository
    /// at the submodule's path, for the traversals — fails, the update is
    /// still produced, with both commit lists empty (title-only). The display
    /// name is the submodule's path, then its configured name, then a
    /// placeholder; an endpoint whose short id cannot be computed is shown as
    /// seven placeholder characters; a commit whose record cannot be read is
    /// left out of its list. Every update produced is the builder's output
    /// for the values read from the repository.
    pub fn from_submodule(submodule: &git2::Submodule) -> (r: Option<SubmoduleUpdate>)
        ensures
            r matches Some(u) ==> exists|
                n: Seq<char>,
                f: Seq<char>,
                t: Seq<char>,
                a: Seq<CommitView>,
                d: Seq<CommitView>,
            | u@ == #[trigger] build_view(n, f, t, a, d),
    {
        let name = match submodule_path_str(submodule) {
            Some(p) => p,
            None => match submodule_name_str(submodule) {
                Some(n) => n,
                None => "???".to_owned(),
            },
        };

        let submodule_repo = match submodule_open(submodule) {
            Ok(repo) => repo,
            Err(_) => {
                return None;
            },
        };

        let current_id = match submodule_head_id(submodule) {
            Some(id) => id,
            None => {
                return None;
            },
        };
        let new_id = match submodule_workdir_id(submodule) {
            Some(id) => id,
            None => {
                return None;
            },
        };

        if oid_eq(&current_id, &new_id) {
            return None;
        }

        let id_from_str = match short_id_for_commit_in_repo(&submodule_repo, current_id) {
            Ok(s) => s,
            Err(_) => "???????".to_owned(),
        };
        let id_to_str = match short_id_for_commit_in_repo(&submodule_repo, new_id) {
            Ok(s) => s,
            Err(_) => "???????".to_owned(),
        };

        let mut added_commits: Vec<SubmoduleCommit> = Vec::new();
        let mut dropped_commits: Vec<SubmoduleCommit> = Vec::new();

        match open_at_submodule_path(submodule) {
            Ok(repo) => {
                let walk = match revwalk_commits(&repo, &new_id, &current_id) {
                    Ok(v) => v,
                    Err(_) => {
                        return None;
                    },
                };
                let mut i: usize = 0;
                while i < walk.len()
                    decreases walk.len() - i,
                {
                    match SubmoduleCommit::from_repository_oid(&repo, walk[i]) {
                        Ok(c) => added_commits.push(c),
                        Err(_) => {},
                    }
                    i = i + 1;
                }

                let walk = match revwalk_commits(&repo, &current_id, &new_id) {
                    Ok(v) => v,
                    Err(_) => {
                        return None;
                    },
                };
                let mut i: usize = 0;
                while i < walk.len()
                    decreases walk.len() - i,
                {
                    match SubmoduleCommit::from_repository_oid(&repo, walk[i]) {
                        Ok(c) => dropped_commits.push(c),
                        Err(_) => {},
                    }
                    i = i + 1;
                }
            },
            Err(_) => {},
        }

        let ghost ga = commit_views(added_commits@);
        let ghost gd = commit_views(dropped_commits@);
        let u = Self::new(
            name.as_str(),
            id_from_str.as_str(),
            id_to_str.as_str(),
            added_commits,
            dropped_commits,
        );
        proof {
            assert(u@ == build_view(name@, id_from_str@, id_to_str@, ga, gd));
        }
        Some(u)
    }

    /// The submodule's resolved display name.
    pub fn get_name(&self) -> (r: &String)
        ensures
            r@ == self@.name,
    {
        &self.name
    }

    /// The title fragment for this update.
    pub fn get_title(&self) -> (r: &String)
        ensures
            r@ == self@.title,
    {
        &self.title
    }

    /// A copy of the optional message body.
    pub fn get_message(&self) -> (r: Option<String>)
        ensures
            match r {
                Some(m) => self@.message == Some(m@),
                None => self@.message is None,
            },
    {
        match &self.message {
            Some(m) => Some(m.clone()),
            None => None,
        }
    }
}

/// Determinism: two updates whose models arose from identical builder inputs
/// are identical.
pub proof fn lemma_build_deterministic(
    u1: UpdateView,
    u2: UpdateView,
    name: Seq<char>,
    from: Seq<char>,
    to: Seq<char>,
    added: Seq<CommitView>,
    dropped: Seq<CommitView>,
)
    requires
        u1 == build_view(name, from, to, added, dropped),
        u2 == build_view(name, from, to, added, dropped),
    ensures
        u1 == u2,
{
}

/// Separator rule: the built title joins the endpoint ids with `".."` exactly
/// when no commits were dropped, and with `"..."` when at least one was.
pub proof fn lemma_separator_rule(
    name: Seq<char>,
    from: Seq<char>,
    to: Seq<char>,
    added: Seq<CommitView>,
    dropped: Seq<CommitView>,
)
    ensures
        dropped.len() == 0 ==> build_view(name, from, to, added, dropped).title == name + seq![
            ' ',
            '(',
        ] + from + seq!['.', '.'] + to + seq![')'],
        dropped.len() > 0 ==> build_view(name, from, to, added, dropped).title == name + seq![
            ' ',
            '(',
        ] + from + seq!['.', '.', '.'] + to + seq![')'],
{
}

/// Message presence: the built message is absent exactly when both commit
/// lists are empty.
pub proof fn lemma_message_presence(
    name: Seq<char>,
    from: Seq<char>,
    to: Seq<char>,
    added: Seq<CommitView>,
    dropped: Seq<CommitView>,
)
    ensures
        build_view(name, from, to, added, dropped).message is None <==> (added.len() == 0
            && dropped.len() == 0),
{
}

/// Ordering preservation: the built message joins one line per input commit,
/// no more and no fewer; the added commits' `'+'` lines come first, in input
/// order, then the dropped commits' `'-'` lines, in input order.
pub proof fn lemma_ordering_preserved(
    name: Seq<char>,
    from: Seq<char>,
    to: Seq<char>,
    added: Seq<CommitView>,
    dropped: Seq<CommitView>,
)
    ensures
        lines_view(added, dropped).len() == added.len() + dropped.len(),
        forall|i: int|
            0 <= i < added.len() ==> lines_view(added, dropped)[i] == line_view('+', added[i]),
        forall|i: int|
            0 <= i < dropped.len() ==> lines_view(added, dropped)[added.len() + i] == line_view(
                '-',
                dropped[i],
            ),
        added.len() + dropped.len() > 0 ==> build_view(name, from, to, added, dropped).message
            == Some(join_with(lines_view(added, dropped), seq!['\n'])),
{
}

/// Optional-title formatting: a commit without a title renders as the sign
/// followed by the id and nothing more; one with a title gets one space and
/// the title after the id.
pub proof fn lemma_line_formatting(sign: char, c: CommitView)
    ensures
        c.title is None ==> line_view(sign, c) == seq![sign] + c.id,
        c.title matches Some(t) ==> line_view(sign, c) == seq![sign] + c.id + seq![' '] + t,
{
}

} // verus!
