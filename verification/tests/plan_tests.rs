use songcopy::execute::can_write_new;
use songcopy::paths::{is_hidden_name, name_has_dot, FilePath};
use songcopy::plan::{
    consider_entry, plan_operations, should_show, CopyOp, CopyStatus, ScanEntry,
};

fn fp(parts: &[&str]) -> FilePath {
    FilePath { parts: parts.iter().map(|s| s.to_string()).collect() }
}

fn entry(parts: &[&str], is_file: bool, tag_ok: bool) -> ScanEntry {
    ScanEntry { path: fp(parts), is_file, tag_ok }
}

#[test]
fn hidden_file_is_never_queued() {
    let entries = vec![entry(&["r", ".hidden.mp3"], true, true)];
    let ops = plan_operations(&entries, &fp(&["r", "songs"]));
    assert_eq!(ops.len(), 0);
}

#[test]
fn hidden_file_in_subdirectory_is_never_queued() {
    let entries = vec![entry(&["r", "music", ".secret.mp3"], true, true)];
    let ops = plan_operations(&entries, &fp(&["r", "songs"]));
    assert_eq!(ops.len(), 0);
}

#[test]
fn dotless_file_is_never_queued() {
    let entries = vec![entry(&["r", "readme"], true, true)];
    let ops = plan_operations(&entries, &fp(&["r", "songs"]));
    assert_eq!(ops.len(), 0);
}

#[test]
fn file_under_destination_is_never_queued() {
    let entries = vec![
        entry(&["r", "songs", "track1.mp3"], true, true),
        entry(&["r", "songs", "deeper", "track2.mp3"], true, true),
    ];
    let ops = plan_operations(&entries, &fp(&["r", "songs"]));
    assert_eq!(ops.len(), 0);
}

#[test]
fn directory_is_never_queued() {
    let entries = vec![entry(&["r", "album.backup"], false, true)];
    let ops = plan_operations(&entries, &fp(&["r", "songs"]));
    assert_eq!(ops.len(), 0);
}

#[test]
fn parser_failure_is_silent() {
    let entries = vec![entry(&["r", "notes.txt"], true, false)];
    let ops = plan_operations(&entries, &fp(&["r", "songs"]));
    assert_eq!(ops.len(), 0);
}

#[test]
fn qualifying_file_is_queued_exactly_once() {
    // An empty destination directory and one recognised audio file at the
    // root plan exactly one copy aimed at the destination root.
    let entries = vec![
        entry(&["r", "songs"], false, false),
        entry(&["r", "track1.mp3"], true, true),
    ];
    let ops = plan_operations(&entries, &fp(&["r", "songs"]));
    assert_eq!(ops.len(), 1);
    assert_eq!(ops[0].source_path.parts, vec!["r", "track1.mp3"]);
    assert_eq!(ops[0].destination_path.parts, vec!["r", "songs", "track1.mp3"]);
    assert_eq!(ops[0].status, CopyStatus::Pending);
}

#[test]
fn destination_keeps_base_name_only() {
    let entries = vec![entry(&["r", "a", "b", "track1.mp3"], true, true)];
    let ops = plan_operations(&entries, &fp(&["r", "songs"]));
    assert_eq!(ops.len(), 1);
    assert_eq!(ops[0].destination_path.parts, vec!["r", "songs", "track1.mp3"]);
}

#[test]
fn plan_keeps_entry_order() {
    let entries = vec![
        entry(&["r", "a.mp3"], true, true),
        entry(&["r", "skipme"], true, true),
        entry(&["r", "b.mp3"], true, true),
    ];
    let ops = plan_operations(&entries, &fp(&["r", "songs"]));
    assert_eq!(ops.len(), 2);
    assert_eq!(ops[0].source_path.parts, vec!["r", "a.mp3"]);
    assert_eq!(ops[1].source_path.parts, vec!["r", "b.mp3"]);
}

#[test]
fn consider_entry_matches_the_plan() {
    let dest = fp(&["r", "songs"]);
    let good = consider_entry(&entry(&["r", "track1.mp3"], true, true), &dest);
    assert!(good.is_some());
    let op = good.unwrap();
    assert_eq!(op.source_path.parts, vec!["r", "track1.mp3"]);
    assert_eq!(op.destination_path.parts, vec!["r", "songs", "track1.mp3"]);
    assert_eq!(op.status, CopyStatus::Pending);
    assert!(consider_entry(&entry(&["r", "track1.mp3"], true, false), &dest).is_none());
    assert!(consider_entry(&entry(&["r", ".t.mp3"], true, true), &dest).is_none());
    assert!(consider_entry(&entry(&["r", "track1"], true, true), &dest).is_none());
    assert!(consider_entry(&entry(&["r", "track1.mp3"], false, true), &dest).is_none());
}

#[test]
fn should_show_hides_dot_names() {
    let dest = fp(&["r", "songs"]);
    assert!(!should_show(&".git".to_string(), &fp(&["r"]), &dest));
    assert!(!should_show(&".hidden.mp3".to_string(), &fp(&["r"]), &dest));
    assert!(should_show(&"music".to_string(), &fp(&["r"]), &dest));
}

#[test]
fn should_show_hides_the_destination_subtree() {
    let dest = fp(&["r", "songs"]);
    assert!(!should_show(&"track1.mp3".to_string(), &fp(&["r", "songs"]), &dest));
    assert!(!should_show(&"deep.mp3".to_string(), &fp(&["r", "songs", "sub"]), &dest));
    assert!(should_show(&"track1.mp3".to_string(), &fp(&["r", "other"]), &dest));
}

#[test]
fn hidden_names_are_recognised() {
    assert!(is_hidden_name(".a"));
    assert!(is_hidden_name("."));
    assert!(!is_hidden_name("a."));
    assert!(!is_hidden_name(""));
    assert!(!is_hidden_name("track1.mp3"));
}

#[test]
fn dots_in_names_are_recognised() {
    assert!(name_has_dot("track1.mp3"));
    assert!(name_has_dot("."));
    assert!(name_has_dot("a."));
    assert!(!name_has_dot("readme"));
    assert!(!name_has_dot(""));
}

#[test]
fn path_operations_behave() {
    let p = fp(&["a", "b", "c.mp3"]);
    assert_eq!(p.base_name(), "c.mp3");
    assert_eq!(p.parent().parts, vec!["a", "b"]);
    assert_eq!(p.duplicate().parts, vec!["a", "b", "c.mp3"]);
    assert_eq!(fp(&["a", "b"]).child(&"c".to_string()).parts, vec!["a", "b", "c"]);
    assert!(p.starts_with(&fp(&["a"])));
    assert!(p.starts_with(&fp(&["a", "b", "c.mp3"])));
    assert!(!p.starts_with(&fp(&["a", "x"])));
    assert!(!fp(&["a"]).starts_with(&fp(&["a", "b"])));
}

#[test]
fn writability_rule_truth_table() {
    assert!(can_write_new(false, true));
    assert!(!can_write_new(true, true));
    assert!(!can_write_new(false, false));
    assert!(!can_write_new(true, false));
}

#[test]
fn empty_path_entry_is_never_queued() {
    let entries = vec![entry(&[], true, true)];
    let ops = plan_operations(&entries, &fp(&["r", "songs"]));
    assert_eq!(ops.len(), 0);
}

#[test]
fn new_operation_starts_pending() {
    let op = CopyOp::new(fp(&["r", "a.mp3"]), fp(&["r", "songs", "a.mp3"]));
    assert_eq!(op.status, CopyStatus::Pending);
    assert_eq!(op.source_path.parts, vec!["r", "a.mp3"]);
    assert_eq!(op.destination_path.parts, vec!["r", "songs", "a.mp3"]);
}
