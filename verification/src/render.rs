//! The report renderer: folds an ordered batch of submodule updates into one
//! title line and one message body.

use vstd::prelude::*;
use vstd::string::StringExecFns;

use crate::submodule_update::SubmoduleUpdate;
use crate::submodule_update::UpdateView;
use crate::text::join_with;
use crate::text::lemma_join_with_push;

verus! {

/// The models of a sequence of update records.
pub open spec fn update_views(s: Seq<SubmoduleUpdate>) -> Seq<UpdateView> {
    s.map_values(|u: SubmoduleUpdate| u@)
}

/// The title fragments of a batch of updates.
pub open spec fn titles_view(us: Seq<UpdateView>) -> Seq<Seq<char>> {
    us.map_values(|u: UpdateView| u.title)
}

/// The body blocks of a batch: one block per update that carries a message,
/// in batch order. With more than one update in the batch each block is
/// headed by `"<name>:\n"`; a lone update's block is its message alone.
pub open spec fn blocks_view(us: Seq<UpdateView>, multiple: bool) -> Seq<Seq<char>>
    decreases us.len(),
{
    if us.len() == 0 {
        Seq::empty()
    } else {
        let rest = blocks_view(us.drop_last(), multiple);
        match us.last().message {
            Some(m) => rest.push(
                if multiple {
                    us.last().name + seq![':', '\n'] + m
                } else {
                    m
                },
            ),
            None => rest,
        }
    }
}

/// The rendered title: the updates' title fragments joined with `", "`.
pub open spec fn title_of(us: Seq<UpdateView>) -> Seq<char> {
    join_with(titles_view(us), seq![',', ' '])
}

/// The rendered body: the batch's blocks separated by one blank line.
pub open spec fn body_of(us: Seq<UpdateView>) -> Seq<char> {
    join_with(blocks_view(us, us.len() > 1), seq!['\n', '\n'])
}

/// Taking one more update into account appends its block — when it has one.
proof fn lemma_blocks_view_push(us: Seq<UpdateView>, u: UpdateView, multiple: bool)
    ensures
        blocks_view(us.push(u), multiple) == match u.message {
            Some(m) => blocks_view(us, multiple).push(
                if multiple {
                    u.name + seq![':', '\n'] + m
                } else {
                    m
                },
            ),
            None => blocks_view(us, multiple),
        },
{
    assert(us.push(u).drop_last() =~= us);
    assert(us.push(u).last() == u);
}

/// Renders a batch of updates into the report's title and body: the title
/// fragments joined with `", "`, and the messaged updates' blocks — each
/// headed by its submodule's name when the batch holds more than one update —
/// separated by blank lines.
pub fn render(updates: &Vec<SubmoduleUpdate>) -> (r: (String, String))
    ensures
        r.0@ == title_of(update_views(updates@)),
        r.1@ == body_of(update_views(updates@)),
{
    let ghost uv = update_views(updates@);
    let multiple = updates.len() > 1;

    let mut title = String::new();
    let mut i: usize = 0;
    proof {
        reveal_strlit(", ");
        assert(", "@ =~= seq![',', ' ']);
    }
    while i < updates.len()
        invariant
            i <= updates.len(),
            uv == update_views(updates@),
            title@ == join_with(titles_view(uv.take(i as int)), seq![',', ' ']),
            ", "@ =~= seq![',', ' '],
        decreases updates.len() - i,
    {
        if i > 0 {
            title.append(", ");
        }
        title.append(updates[i].title.as_str());
        proof {
            lemma_join_with_push(titles_view(uv.take(i as int)), uv[i as int].title, seq![',', ' ']);
            assert(uv.take(i + 1) =~= uv.take(i as int).push(uv[i as int]));
            assert(titles_view(uv.take(i + 1)) =~= titles_view(uv.take(i as int)).push(
                uv[i as int].title,
            ));
        }
        i = i + 1;
    }
    proof {
        assert(uv.take(updates@.len() as int) =~= uv);
    }

    let mut body = String::new();
    let mut have_blocks: bool = false;
    let ghost mut gblocks: Seq<Seq<char>> = Seq::empty();
    proof {
        reveal_strlit("\n\n");
        reveal_strlit(":\n");
        assert("\n\n"@ =~= seq!['\n', '\n']);
        assert(":\n"@ =~= seq![':', '\n']);
    }
    let mut i: usize = 0;
    while i < updates.len()
        invariant
            i <= updates.len(),
            uv == update_views(updates@),
            multiple == (updates@.len() > 1),
            gblocks == blocks_view(uv.take(i as int), multiple),
            have_blocks == (gblocks.len() > 0),
            body@ == join_with(gblocks, seq!['\n', '\n']),
            "\n\n"@ =~= seq!['\n', '\n'],
            ":\n"@ =~= seq![':', '\n'],
        decreases updates.len() - i,
    {
        proof {
            assert(uv.take(i + 1) =~= uv.take(i as int).push(uv[i as int]));
            lemma_blocks_view_push(uv.take(i as int), uv[i as int], multiple);
        }
        match &updates[i].message {
            Some(m) => {
                if have_blocks {
                    body.append("\n\n");
                }
                let ghost block: Seq<char>;
                if multiple {
                    body.append(updates[i].name.as_str());
                    body.append(":\n");
                    proof {
                        block = uv[i as int].name + seq![':', '\n'] + m@;
                    }
                } else {
                    proof {
                        block = m@;
                    }
                }
                body.append(m.as_str());
                proof {
                    lemma_join_with_push(gblocks, block, seq!['\n', '\n']);
                    gblocks = gblocks.push(block);
                }
                have_blocks = true;
            },
            None => {},
        }
        i = i + 1;
    }
    proof {
        assert(uv.take(updates@.len() as int) =~= uv);
    }
    (title, body)
}

} // verus!
