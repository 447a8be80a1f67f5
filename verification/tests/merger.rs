use nanobot::ignore::MergeOutcome;
use nanobot::ignore::ensure_entry;

fn lines(v: &[&str]) -> Vec<String> {
    v.iter().map(|s| s.to_string()).collect()
}

const MARKER: &str = "# Generated by nanobot";

#[test]
fn no_file_does_nothing() {
    let entry = String::from(".nanobot.db*");
    let plan = ensure_entry(None, &entry);
    assert_eq!(plan.outcome, MergeOutcome::NoFile);
    assert!(plan.write.is_none());
}

#[test]
fn entry_already_present_is_found() {
    let file = lines(&["target/", ".nanobot.db*"]);
    let entry = String::from(".nanobot.db*");
    let plan = ensure_entry(Some(&file), &entry);
    assert_eq!(plan.outcome, MergeOutcome::Found);
    assert!(plan.write.is_none());
}

#[test]
fn entry_present_as_substring_is_found() {
    let file = lines(&["prefix.nanobot.db*suffix"]);
    let entry = String::from(".nanobot.db*");
    let plan = ensure_entry(Some(&file), &entry);
    assert_eq!(plan.outcome, MergeOutcome::Found);
    assert!(plan.write.is_none());
}

#[test]
fn append_new_block_after_nonblank_end() {
    let file = lines(&["target/"]);
    let entry = String::from(".nanobot.db*");
    let plan = ensure_entry(Some(&file), &entry);
    assert_eq!(plan.outcome, MergeOutcome::AppendedNewBlock);
    let written = plan.write.unwrap();
    assert_eq!(written, lines(&["target/", "", MARKER, ".nanobot.db*"]));
}

#[test]
fn append_new_block_no_extra_blank_line() {
    let file = lines(&["target/", ""]);
    let entry = String::from(".nanobot.db*");
    let plan = ensure_entry(Some(&file), &entry);
    assert_eq!(plan.outcome, MergeOutcome::AppendedNewBlock);
    let written = plan.write.unwrap();
    assert_eq!(written, lines(&["target/", "", MARKER, ".nanobot.db*"]));
}

#[test]
fn append_new_block_whitespace_end_counts_as_blank() {
    let file = lines(&["target/", "   \t"]);
    let entry = String::from(".nanobot.db*");
    let plan = ensure_entry(Some(&file), &entry);
    assert_eq!(plan.outcome, MergeOutcome::AppendedNewBlock);
    let written = plan.write.unwrap();
    assert_eq!(written, lines(&["target/", "   \t", MARKER, ".nanobot.db*"]));
}

#[test]
fn append_new_block_to_empty_file() {
    let file = lines(&[]);
    let entry = String::from(".nanobot.db*");
    let plan = ensure_entry(Some(&file), &entry);
    assert_eq!(plan.outcome, MergeOutcome::AppendedNewBlock);
    let written = plan.write.unwrap();
    assert_eq!(written, lines(&["", MARKER, ".nanobot.db*"]));
}

#[test]
fn insert_into_existing_block() {
    let file = lines(&["target/", MARKER, "old.db*"]);
    let entry = String::from("new.db*");
    let plan = ensure_entry(Some(&file), &entry);
    assert_eq!(plan.outcome, MergeOutcome::InsertedIntoBlock);
    let written = plan.write.unwrap();
    assert_eq!(written, lines(&["target/", MARKER, "new.db*", "old.db*"]));
}

#[test]
fn insert_uses_most_recent_marker() {
    let file = lines(&[MARKER, "a*", MARKER, "b*"]);
    let entry = String::from("c*");
    let plan = ensure_entry(Some(&file), &entry);
    assert_eq!(plan.outcome, MergeOutcome::InsertedIntoBlock);
    let written = plan.write.unwrap();
    assert_eq!(written, lines(&[MARKER, "a*", MARKER, "c*", "b*"]));
}

#[test]
fn line_merely_containing_marker_text_is_not_a_marker() {
    let file = lines(&["## Generated by nanobot and edited"]);
    let entry = String::from(".nanobot.db*");
    let plan = ensure_entry(Some(&file), &entry);
    assert_eq!(plan.outcome, MergeOutcome::AppendedNewBlock);
}

#[test]
fn merge_is_idempotent_after_append() {
    let file = lines(&["target/"]);
    let entry = String::from(".nanobot.db*");
    let first = ensure_entry(Some(&file), &entry);
    let written = first.write.unwrap();
    let second = ensure_entry(Some(&written), &entry);
    assert_eq!(second.outcome, MergeOutcome::Found);
    assert!(second.write.is_none());
}

#[test]
fn merge_is_idempotent_after_insert() {
    let file = lines(&["target/", MARKER, "old.db*"]);
    let entry = String::from("new.db*");
    let first = ensure_entry(Some(&file), &entry);
    let written = first.write.unwrap();
    let second = ensure_entry(Some(&written), &entry);
    assert_eq!(second.outcome, MergeOutcome::Found);
    assert!(second.write.is_none());
}

#[test]
fn merged_content_always_contains_entry() {
    let cases: Vec<Vec<String>> = vec![
        lines(&[]),
        lines(&["target/"]),
        lines(&["target/", ""]),
        lines(&["target/", MARKER]),
        lines(&["target/", MARKER, "old.db*"]),
    ];
    let entry = String::from(".nanobot.db*");
    for file in cases {
        let plan = ensure_entry(Some(&file), &entry);
        let content = match plan.write {
            Some(w) => w,
            None => file,
        };
        assert!(content.iter().any(|l| l.contains(entry.as_str())));
    }
}

#[test]
fn two_entries_both_land_after_the_marker() {
    let file = lines(&["target/", MARKER, "seed*"]);
    let e1 = String::from("first.db*");
    let e2 = String::from("second.db*");
    let after_first = ensure_entry(Some(&file), &e1).write.unwrap();
    let plan = ensure_entry(Some(&after_first), &e2);
    assert_eq!(plan.outcome, MergeOutcome::InsertedIntoBlock);
    let after_second = plan.write.unwrap();
    let marker_at = after_second.iter().position(|l| l == MARKER).unwrap();
    assert_eq!(after_second[marker_at + 1], e2);
    assert_eq!(after_second[marker_at + 2], e1);
    assert_eq!(after_second.iter().filter(|l| *l == &e1).count(), 1);
    assert_eq!(after_second.iter().filter(|l| *l == &e2).count(), 1);
    assert_eq!(
        after_second,
        lines(&["target/", MARKER, "second.db*", "first.db*", "seed*"])
    );
}
