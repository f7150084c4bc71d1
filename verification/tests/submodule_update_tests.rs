use submodule_commitmsg::submodule_commit::SubmoduleCommit;
use submodule_commitmsg::submodule_update::SubmoduleUpdate;

#[test]
fn test_degenerate() {
    let update = SubmoduleUpdate::new("name", "from", "to", vec![], vec![]);

    assert_eq!(update.name, "name");
    assert_eq!(update.title, "name (from..to)");
    assert_eq!(update.message, None);
}

#[test]
fn test_adding_one_commit() {
    let update = SubmoduleUpdate::new(
        "name",
        "from",
        "to",
        vec![SubmoduleCommit::new("0000000", Some("commit"))],
        vec![],
    );

    assert_eq!(update.name, "name");
    assert_eq!(update.title, "name (from..to)");
    assert_eq!(update.message, Some("+0000000 commit".to_owned()));
}

#[test]
fn test_adding_one_commit_without_a_title() {
    let update = SubmoduleUpdate::new(
        "name",
        "from",
        "to",
        vec![SubmoduleCommit::new("0000000", None)],
        vec![],
    );

    assert_eq!(update.name, "name");
    assert_eq!(update.title, "name (from..to)");
    assert_eq!(update.message, Some("+0000000".to_owned()));
}

#[test]
fn test_dropping_one_commit() {
    let update = SubmoduleUpdate::new(
        "name",
        "from",
        "to",
        vec![],
        vec![SubmoduleCommit::new("0000000", Some("commit"))],
    );

    assert_eq!(update.name, "name");
    assert_eq!(update.title, "name (from...to)");
    assert_eq!(update.message, Some("-0000000 commit".to_owned()));
}

#[test]
fn test_adding_and_dropping_one_commit() {
    let update = SubmoduleUpdate::new(
        "name",
        "from",
        "to",
        vec![SubmoduleCommit::new("0000000", Some("commit"))],
        vec![SubmoduleCommit::new("0000000", Some("commit"))],
    );

    assert_eq!(update.name, "name");
    assert_eq!(update.title, "name (from...to)");
    assert_eq!(
        update.message,
        Some("+0000000 commit\n-0000000 commit".to_owned())
    );
}

#[test]
fn test_building_twice_gives_identical_output() {
    let build = || {
        SubmoduleUpdate::new(
            "name",
            "from",
            "to",
            vec![
                SubmoduleCommit::new("aaa", Some("x")),
                SubmoduleCommit::new("bbb", None),
            ],
            vec![SubmoduleCommit::new("ccc", Some("y"))],
        )
    };
    let u1 = build();
    let u2 = build();

    assert_eq!(u1.name, u2.name);
    assert_eq!(u1.title, u2.title);
    assert_eq!(u1.message, u2.message);
}

#[test]
fn test_added_lines_come_before_dropped_lines_in_order() {
    let update = SubmoduleUpdate::new(
        "name",
        "from",
        "to",
        vec![
            SubmoduleCommit::new("aaa", Some("first")),
            SubmoduleCommit::new("bbb", None),
        ],
        vec![
            SubmoduleCommit::new("ccc", Some("third")),
            SubmoduleCommit::new("ddd", Some("fourth")),
        ],
    );

    assert_eq!(update.title, "name (from...to)");
    assert_eq!(
        update.message,
        Some("+aaa first\n+bbb\n-ccc third\n-ddd fourth".to_owned())
    );
}

#[test]
fn test_empty_name_still_formats_title() {
    let update = SubmoduleUpdate::new("", "from", "to", vec![], vec![]);

    assert_eq!(update.name, "");
    assert_eq!(update.title, " (from..to)");
    assert_eq!(update.message, None);
}

#[test]
fn test_getters_match_fields() {
    let update = SubmoduleUpdate::new(
        "name",
        "from",
        "to",
        vec![SubmoduleCommit::new("0000000", Some("commit"))],
        vec![],
    );

    assert_eq!(update.get_name(), "name");
    assert_eq!(update.get_title(), "name (from..to)");
    assert_eq!(update.get_message(), Some("+0000000 commit".to_owned()));
}

#[test]
fn test_getters_on_message_free_update() {
    let update = SubmoduleUpdate::new("name", "from", "to", vec![], vec![]);

    assert_eq!(update.get_message(), None);
}

#[test]
fn test_commit_record_keeps_id_and_title() {
    let with_title = SubmoduleCommit::new("1234abc", Some("a change"));
    assert_eq!(with_title.id, "1234abc");
    assert_eq!(with_title.title, Some("a change".to_owned()));

    let without_title = SubmoduleCommit::new("1234abc", None);
    assert_eq!(without_title.id, "1234abc");
    assert_eq!(without_title.title, None);
}
