use splitpatch::Config;
use splitpatch::boundary::{artifact_path, flatten_name, target_name};
use splitpatch::splitter::{Splitter, split_patch};

fn lines(v: &[&str]) -> Vec<String> {
    v.iter().map(|s| s.to_string()).collect()
}

fn two_section_input() -> Vec<String> {
    lines(&[
        "diff --git a/x.c b/x.c",
        "--- a/x.c",
        "+++ b/x.c",
        "@@ -1,1 +1,1 @@",
        "-old",
        "+new",
        "diff --git a/y.c b/y.c",
        "--- a/y.c",
        "+++ b/y.c",
        "@@ -1,1 +1,1 @@",
        "-foo",
        "+bar",
        "-- ",
        "2.1.0",
    ])
}

#[test]
fn config_keeps_its_fields() {
    let c = Config::new("p.patch".to_string(), "out".to_string());
    assert_eq!(c.patch_file, "p.patch");
    assert_eq!(c.out_dir, "out");
}

#[test]
fn extracts_target_from_marker() {
    let t = target_name("diff --git a/src/foo.c b/src/foo.c").unwrap();
    assert_eq!(t, "src/foo.c");
}

#[test]
fn extracts_target_despite_trailing_whitespace() {
    let t = target_name("diff --git a/src/foo.c b/src/foo.c\n").unwrap();
    assert_eq!(t, "src/foo.c");
    let t = target_name("diff --git a/src/foo.c b/src/foo.c  ").unwrap();
    assert_eq!(t, "src/foo.c");
}

#[test]
fn rejects_line_without_usable_token() {
    assert!(target_name("").is_err());
    assert!(target_name("   ").is_err());
    assert!(target_name("diff x").is_err());
}

#[test]
fn flattens_target_name() {
    assert_eq!(flatten_name("src/foo.c"), "src_foo.c");
    assert_eq!(flatten_name("x.c"), "x.c");
    assert_eq!(flatten_name("a/b/c"), "a_b_c");
    assert_eq!(flatten_name(""), "");
}

#[test]
fn artifact_path_joins_directory_and_flat_name() {
    assert_eq!(artifact_path("out", "src/foo.c"), "out/src_foo.c");
}

#[test]
fn splits_two_sections() {
    let input = two_section_input();
    let secs = split_patch(&input).unwrap();
    assert_eq!(secs.len(), 2);
    assert_eq!(secs[0].target, "x.c");
    assert_eq!(secs[0].lines, input[0..6].to_vec());
    assert_eq!(secs[1].target, "y.c");
    assert_eq!(secs[1].lines, input[6..12].to_vec());
    assert_eq!(flatten_name(&secs[0].target), "x.c");
    assert_eq!(flatten_name(&secs[1].target), "y.c");
}

#[test]
fn one_marker_yields_one_section() {
    let input = lines(&[
        "diff --git a/x.c b/x.c",
        "+new",
        "-- ",
        "2.1.0",
    ]);
    let secs = split_patch(&input).unwrap();
    assert_eq!(secs.len(), 1);
    assert_eq!(secs[0].target, "x.c");
    assert_eq!(secs[0].lines, input[0..2].to_vec());
}

#[test]
fn concatenated_sections_reproduce_the_stream() {
    let mut input = lines(&["stray preamble", "more preamble"]);
    input.extend(two_section_input());
    let secs = split_patch(&input).unwrap();
    let mut joined: Vec<String> = Vec::new();
    for s in &secs {
        joined.extend(s.lines.iter().cloned());
    }
    assert_eq!(joined, input[2..input.len() - 2].to_vec());
}

#[test]
fn second_run_matches_first() {
    let input = two_section_input();
    let first = split_patch(&input);
    let second = split_patch(&input);
    assert_eq!(first, second);
}

#[test]
fn single_marker_line_is_malformed() {
    let input = lines(&["diff --git a/x.c b/x.c"]);
    assert!(split_patch(&input).is_err());
}

#[test]
fn empty_input_is_malformed() {
    let input: Vec<String> = Vec::new();
    assert!(split_patch(&input).is_err());
}

#[test]
fn input_without_marker_is_malformed() {
    let input = lines(&["just text", "more text", "-- ", "2.1.0"]);
    assert!(split_patch(&input).is_err());
}

#[test]
fn short_middle_section_is_malformed() {
    let input = lines(&[
        "diff --git a/x.c b/x.c",
        "diff --git a/y.c b/y.c",
        "+bar",
        "-- ",
        "2.1.0",
    ]);
    assert!(split_patch(&input).is_err());
}

#[test]
fn short_target_token_is_malformed() {
    let input = lines(&["diff x", "+new", "-- ", "2.1.0"]);
    assert!(split_patch(&input).is_err());
}

#[test]
fn error_message_names_the_malformed_patch() {
    let input: Vec<String> = Vec::new();
    let e = split_patch(&input).unwrap_err();
    assert_eq!(e.message(), "malformed patch");
}

#[test]
fn preamble_lines_are_discarded() {
    let mut input = lines(&["not a diff line", "index 0000000..1111111 100644"]);
    input.extend(two_section_input());
    let secs = split_patch(&input).unwrap();
    assert_eq!(secs.len(), 2);
    for s in &secs {
        assert!(!s.lines.contains(&"not a diff line".to_string()));
    }
}

#[test]
fn indented_diff_word_is_not_a_marker() {
    let input = lines(&[
        "diff --git a/x.c b/x.c",
        " diff --git a/fake.c b/fake.c",
        "-- ",
        "2.1.0",
    ]);
    let secs = split_patch(&input).unwrap();
    assert_eq!(secs.len(), 1);
    assert_eq!(secs[0].target, "x.c");
    assert_eq!(secs[0].lines, input[0..2].to_vec());
}

#[test]
fn lines_keep_their_terminators() {
    let input = lines(&[
        "diff --git a/x.c b/x.c\n",
        "+new\r\n",
        "diff --git a/y.c b/y.c\n",
        "+bar\n",
        "-- \n",
        "2.1.0\n",
    ]);
    let secs = split_patch(&input).unwrap();
    assert_eq!(secs.len(), 2);
    assert_eq!(secs[0].target, "x.c");
    assert_eq!(secs[0].lines, input[0..2].to_vec());
    assert_eq!(secs[1].lines, input[2..4].to_vec());
}

#[test]
fn splitter_emits_a_section_at_the_next_marker() {
    let mut sp = Splitter::new();
    assert_eq!(sp.feed("preamble".to_string()).unwrap(), None);
    assert_eq!(sp.feed("diff --git a/x.c b/x.c".to_string()).unwrap(), None);
    assert_eq!(sp.feed("+new".to_string()).unwrap(), None);
    let sec = sp
        .feed("diff --git a/y.c b/y.c".to_string())
        .unwrap()
        .unwrap();
    assert_eq!(sec.target, "x.c");
    assert_eq!(sec.lines, lines(&["diff --git a/x.c b/x.c", "+new"]));
    assert_eq!(sp.feed("+bar".to_string()).unwrap(), None);
    assert_eq!(sp.feed("-- ".to_string()).unwrap(), None);
    assert_eq!(sp.feed("2.1.0".to_string()).unwrap(), None);
    let last = sp.finish().unwrap();
    assert_eq!(last.target, "y.c");
    assert_eq!(last.lines, lines(&["diff --git a/y.c b/y.c", "+bar"]));
}

#[test]
fn finish_without_any_marker_is_malformed() {
    let mut sp = Splitter::new();
    assert_eq!(sp.feed("no marker here".to_string()).unwrap(), None);
    assert!(sp.finish().is_err());
}

#[test]
fn finish_with_only_the_trailer_is_malformed() {
    let mut sp = Splitter::new();
    assert_eq!(sp.feed("diff --git a/x.c b/x.c".to_string()).unwrap(), None);
    assert_eq!(sp.feed("-- ".to_string()).unwrap(), None);
    assert!(sp.finish().is_err());
}
