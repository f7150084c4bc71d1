use submodule_commitmsg::render::render;
use submodule_commitmsg::submodule_commit::SubmoduleCommit;
use submodule_commitmsg::submodule_update::SubmoduleUpdate;
use submodule_commitmsg::text::first_line;

#[test]
fn test_render_two_updates_only_messaged_one_contributes_a_block() {
    let with_message = SubmoduleUpdate::new(
        "lib/a",
        "from",
        "to",
        vec![SubmoduleCommit::new("0000000", Some("commit"))],
        vec![],
    );
    let without_message = SubmoduleUpdate::new("lib/b", "aaa", "bbb", vec![], vec![]);

    let (title, body) = render(&vec![with_message, without_message]);

    assert_eq!(title, "lib/a (from..to), lib/b (aaa..bbb)");
    assert_eq!(body, "lib/a:\n+0000000 commit");
}

#[test]
fn test_render_single_update_omits_name_header() {
    let update = SubmoduleUpdate::new(
        "lib/a",
        "from",
        "to",
        vec![SubmoduleCommit::new("0000000", Some("commit"))],
        vec![],
    );

    let (title, body) = render(&vec![update]);

    assert_eq!(title, "lib/a (from..to)");
    assert_eq!(body, "+0000000 commit");
}

#[test]
fn test_render_two_messaged_updates_separates_blocks_with_a_blank_line() {
    let first = SubmoduleUpdate::new(
        "lib/a",
        "from",
        "to",
        vec![SubmoduleCommit::new("aaa", Some("x"))],
        vec![],
    );
    let second = SubmoduleUpdate::new(
        "lib/b",
        "ccc",
        "ddd",
        vec![],
        vec![SubmoduleCommit::new("bbb", Some("y"))],
    );

    let (title, body) = render(&vec![first, second]);

    assert_eq!(title, "lib/a (from..to), lib/b (ccc...ddd)");
    assert_eq!(body, "lib/a:\n+aaa x\n\nlib/b:\n-bbb y");
}

#[test]
fn test_render_updates_without_messages_gives_empty_body() {
    let first = SubmoduleUpdate::new("lib/a", "from", "to", vec![], vec![]);
    let second = SubmoduleUpdate::new("lib/b", "ccc", "ddd", vec![], vec![]);

    let (title, body) = render(&vec![first, second]);

    assert_eq!(title, "lib/a (from..to), lib/b (ccc..ddd)");
    assert_eq!(body, "");
}

#[test]
fn test_render_empty_batch() {
    let (title, body) = render(&vec![]);

    assert_eq!(title, "");
    assert_eq!(body, "");
}

#[test]
fn test_first_line_stops_at_newline() {
    assert_eq!(first_line("summary\nbody\nmore"), "summary");
    assert_eq!(first_line("no newline"), "no newline");
    assert_eq!(first_line(""), "");
    assert_eq!(first_line("\nstarts with newline"), "");
}
