use goldenfile::differs::{Differ, Mismatch};
use goldenfile::mint::{update_requested, Finalization, Mint, MintError, Observed, UpdateAction, UpdateState};

const ROOT: &str = "tests/goldenfiles";
const STAGING: &str = "/tmp/staging";

fn mint_with(files: &[&str]) -> Mint {
    let mut mint = Mint::new(ROOT, STAGING);
    for f in files {
        let staged = mint.new_goldenfile(f).unwrap();
        mint.register(staged);
    }
    mint
}

fn same(text: &str) -> Observed {
    Observed { old: Some(text.as_bytes().to_vec()), new: Some(text.as_bytes().to_vec()) }
}

fn pair(old: &[u8], new: &[u8]) -> Observed {
    Observed { old: Some(old.to_vec()), new: Some(new.to_vec()) }
}

#[test]
fn basic_usage() {
    let mint = mint_with(&["basic_usage1.txt", "basic_usage2.txt"]);
    let observed = vec![same("Hello world!"), same("foobar")];
    assert!(mint.check_goldenfiles(&observed).is_ok());
}

#[test]
fn binary_usage() {
    let mint = mint_with(&["binary_usage1.bin", "binary_usage2.bin"]);
    let comparisons = mint.comparisons();
    assert_eq!(comparisons[0].differ, Differ::Binary);
    assert_eq!(comparisons[1].differ, Differ::Binary);
    let observed = vec![pair(b"", b""), pair(b"\x00\x01\x02", b"\x00\x01\x02")];
    assert!(mint.check_goldenfiles(&observed).is_ok());
}

#[test]
fn binary_match() {
    let mint = mint_with(&["binary_match1.bin", "binary_match2.bin"]);
    let observed = vec![pair(b"", b""), pair(b"\x00\x01\x02", b"\x00\x01\x02")];
    assert!(mint.check_goldenfiles(&observed).is_ok());
}

#[test]
fn binary_size_diff() {
    let mint = mint_with(&["binary_size_diff.bin"]);
    let c = mint.check_goldenfiles(&vec![pair(b"\x00\x01", b"\x00\x01\x02")]).unwrap_err();
    assert_eq!(c.index, 0);
    assert_eq!(c.message(), "File sizes differ: Old file is 2 bytes, new file is 3 bytes");
}

#[test]
fn binary_content_diff() {
    let mint = mint_with(&["binary_content_diff.bin"]);
    let c = mint.check_goldenfiles(&vec![pair(b"\x00\x01\x03", b"\x00\x01\x02")]).unwrap_err();
    assert_eq!(c.label, "tests/goldenfiles/binary_content_diff.bin");
    assert!(c.message().contains("Files differ at byte 3"));
}

#[test]
fn positive_diff() {
    let mint = mint_with(&["positive_diff1.txt", "positive_diff2.txt"]);
    let observed = vec![same("Hello world!"), pair(b"foobar", b"monkeybrains")];
    let c = mint.check_goldenfiles(&observed).unwrap_err();
    assert_eq!(c.index, 1);
    assert_eq!(c.file, "positive_diff2.txt");
    assert!(matches!(c.mismatch, Mismatch::Text { .. }));
    let msg = c.message();
    assert!(msg.contains("foobar"));
    assert!(msg.contains("monkeybrains"));
}

#[test]
fn text_match() {
    let mint = mint_with(&["match1.txt", "match2.txt"]);
    let observed = vec![same("Hello world!\n"), same("foobar\n")];
    assert!(mint.check_goldenfiles(&observed).is_ok());
}

#[test]
fn text_diff() {
    let mint = mint_with(&["text_diff1.txt", "text_diff2.txt"]);
    let observed = vec![pair(b"Hello world!\n", b"Hello world!\n"), pair(b"foobar\n", b"monkeybrains\n")];
    let c = mint.check_goldenfiles(&observed).unwrap_err();
    assert_eq!(c.index, 1);
    assert!(c.message().contains("foobar"));
}

#[test]
fn check_reports_first_mismatch() {
    let mint = mint_with(&["a.txt", "b.bin", "c.txt"]);
    let observed = vec![same("same"), pair(b"\x01", b"\x02"), pair(b"x", b"y")];
    let c = mint.check_goldenfiles(&observed).unwrap_err();
    assert_eq!(c.index, 1);
    assert_eq!(c.file, "b.bin");
    assert_eq!(c.message(), "tests/goldenfiles/b.bin: Files differ at byte 1");
}

#[test]
fn check_missing_text_golden_against_nonempty_fails() {
    let mint = mint_with(&["new.txt"]);
    let observed = vec![Observed { old: None, new: Some(b"content".to_vec()) }];
    assert!(mint.check_goldenfiles(&observed).is_err());
}

#[test]
fn subdir() {
    let mint = mint_with(&["subdir/file1.txt"]);
    let comparisons = mint.comparisons();
    assert_eq!(comparisons.len(), 1);
    assert_eq!(comparisons[0].file, "subdir/file1.txt");
    assert_eq!(comparisons[0].old, "tests/goldenfiles/subdir/file1.txt");
    assert_eq!(comparisons[0].new, "/tmp/staging/subdir/file1.txt");
    assert!(mint.check_goldenfiles(&vec![same("File in subdir\n")]).is_ok());
}

#[test]
fn absolute_path() {
    let mint = Mint::new(ROOT, STAGING);
    let e = mint.new_goldenfile("/bar").err().unwrap();
    assert_eq!(e, MintError::PathNotRelative);
    assert!(e.message().contains("Path must be relative"));
    assert_eq!(mint.len(), 0);
}

#[test]
fn absolute_path_leaves_registry_unchanged() {
    let mint = mint_with(&["one.txt", "two.txt"]);
    assert!(mint.new_goldenfile_with_differ("/etc/passwd", Differ::Binary).is_err());
    assert_eq!(mint.len(), 2);
}

#[test]
fn staged_location_and_differ() {
    let mint = Mint::new(ROOT, STAGING);
    let s = mint.new_goldenfile_with_differ("file2.bin", Differ::Text).unwrap();
    assert_eq!(s.file(), "file2.bin");
    assert_eq!(s.differ(), Differ::Text);
    assert_eq!(s.location(), "/tmp/staging/file2.bin");
    let s = mint.new_goldenfile("file2.bin").unwrap();
    assert_eq!(s.differ(), Differ::Binary);
}

#[test]
fn duplicate_registration_is_kept() {
    let mint = mint_with(&["dup.txt", "dup.txt"]);
    assert_eq!(mint.len(), 2);
    let observed = vec![same("a"), pair(b"a", b"b")];
    assert_eq!(mint.check_goldenfiles(&observed).unwrap_err().index, 1);
}

#[test]
fn readme_usage_test() {
    let mint = mint_with(&["file1.txt", "file2.txt"]);
    let observed = vec![same("Hello world!\n"), same("Foo bar!\n")];
    assert!(mint.check_goldenfiles(&observed).is_ok());
}

#[test]
fn usage_test() {
    let mut mint = Mint::new(ROOT, STAGING);
    let s1 = mint.new_goldenfile_with_differ("file1.txt", Differ::Text).unwrap();
    mint.register(s1);
    let s2 = mint.new_goldenfile_with_differ("file2.bin", Differ::Binary).unwrap();
    mint.register(s2);
    let bin = b"Binary data: \x7f\x4cMore binary data: \x9a\x23".to_vec();
    let observed = vec![same("Hello World!"), Observed { old: Some(bin.clone()), new: Some(bin) }];
    assert!(mint.check_goldenfiles(&observed).is_ok());
}

#[test]
fn regeneration() {
    let mint = mint_with(&["regeneration1.txt", "regeneration2.txt"]);
    let states = vec![
        UpdateState { staged_empty: false, golden_exists: true },
        UpdateState { staged_empty: false, golden_exists: true },
    ];
    assert_eq!(mint.update_goldenfiles(&states), vec![UpdateAction::Copy, UpdateAction::Copy]);
}

#[test]
fn update() {
    let mint = mint_with(&["update_env1.txt", "update_env2.txt"]);
    let states = vec![
        UpdateState { staged_empty: false, golden_exists: false },
        UpdateState { staged_empty: false, golden_exists: false },
    ];
    assert_eq!(mint.update_goldenfiles(&states), vec![UpdateAction::Copy, UpdateAction::Copy]);
}

#[test]
fn nonempty() {
    let mut mint = Mint::new_nonempty(ROOT, STAGING);
    let s = mint.new_goldenfile("nonempty.txt").unwrap();
    mint.register(s);
    let s = mint.new_goldenfile("empty.txt").unwrap();
    mint.register(s);
    let states = vec![
        UpdateState { staged_empty: false, golden_exists: true },
        UpdateState { staged_empty: true, golden_exists: true },
    ];
    assert_eq!(mint.update_goldenfiles(&states), vec![UpdateAction::Copy, UpdateAction::Remove]);
    let states = vec![
        UpdateState { staged_empty: false, golden_exists: false },
        UpdateState { staged_empty: true, golden_exists: false },
    ];
    assert_eq!(mint.update_goldenfiles(&states), vec![UpdateAction::Copy, UpdateAction::Keep]);
}

#[test]
fn empty_artifact_is_written_by_default() {
    let mint = mint_with(&["empty.txt"]);
    let states = vec![UpdateState { staged_empty: true, golden_exists: true }];
    assert_eq!(mint.update_goldenfiles(&states), vec![UpdateAction::Copy]);
}

#[test]
fn update_then_check_scenario() {
    // x.bin absent from the golden tree, three bytes staged: updating copies
    // them, and the check that follows reads the same bytes on both sides.
    let mint = mint_with(&["x.bin"]);
    let actions = mint.update_goldenfiles(&vec![UpdateState { staged_empty: false, golden_exists: false }]);
    assert_eq!(actions, vec![UpdateAction::Copy]);
    let staged = b"\x00\x01\x02".to_vec();
    assert!(mint.check_goldenfiles(&vec![Observed { old: Some(staged.clone()), new: Some(staged) }]).is_ok());
}

#[test]
fn golden_scenario_text() {
    let mint = mint_with(&["a.txt"]);
    assert!(mint.check_goldenfiles(&vec![same("Hello world!")]).is_ok());
    let c = mint.check_goldenfiles(&vec![pair(b"Hello world!", b"monkeybrains")]).unwrap_err();
    assert!(c.message().contains("monkeybrains"));
}

#[test]
fn basics_external_panic() {
    let mut mint = mint_with(&["panic.txt"]);
    assert!(mint.is_active());
    assert_eq!(mint.finalize(true, false), Finalization::Skip);
    assert!(!mint.is_active());
}

#[test]
fn test_external_panic() {
    let mut mint = mint_with(&["panic.txt"]);
    assert_eq!(mint.finalize(true, true), Finalization::Skip);
}

#[test]
fn finalize_picks_check_or_update() {
    let mut m1 = mint_with(&["a.txt"]);
    assert_eq!(m1.finalize(false, false), Finalization::Check);
    assert_eq!(m1.len(), 1);
    let mut m2 = mint_with(&["a.txt"]);
    assert_eq!(m2.finalize(false, true), Finalization::Update);
}

#[test]
fn mode_switch() {
    assert!(update_requested(None, Some("1")));
    assert!(update_requested(Some("1"), None));
    assert!(update_requested(Some("0"), Some("1")));
    assert!(!update_requested(None, None));
    assert!(!update_requested(Some("true"), Some("0")));
    assert!(!update_requested(Some("11"), Some("")));
}
