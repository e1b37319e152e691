use commit::history::join_dashed;
use commit::history::prepare_style_examples;
use commit::history::split_lines;
use commit::history::strip_pr_refs;
use commit::response::make_candidate;
use commit::text::contains_str;
use commit::text::count_non_space;
use commit::text::strip_quotes;
use commit::text::trim;

#[test]
fn trim_removes_boundary_whitespace_only() {
    assert_eq!(trim("  hello world \t\n"), "hello world");
    assert_eq!(trim("inner  spaces kept"), "inner  spaces kept");
    assert_eq!(trim("   \n\t "), "");
    assert_eq!(trim(""), "");
}

#[test]
fn boundary_quotes_are_all_stripped() {
    assert_eq!(strip_quotes("\"abc\""), "abc");
    assert_eq!(strip_quotes("\"\"abc\"\""), "abc");
    assert_eq!(strip_quotes("\"abc"), "abc");
    assert_eq!(strip_quotes("abc\""), "abc");
    assert_eq!(strip_quotes("abc"), "abc");
    assert_eq!(strip_quotes("a\"b"), "a\"b");
    assert_eq!(strip_quotes("\""), "");
    assert_eq!(strip_quotes("\"\"\""), "");
    assert_eq!(strip_quotes(""), "");
}

#[test]
fn strip_is_idempotent_on_every_input() {
    for raw in ["\"Fix parser\"", "\"\"Fix parser\"\"", "no quotes at all", "\"\"", "a\"b"] {
        let once = strip_quotes(raw);
        assert_eq!(strip_quotes(&once), once);
        assert!(!once.starts_with('"'));
        assert!(!once.ends_with('"'));
    }
}

#[test]
fn candidate_is_trimmed_then_stripped() {
    assert_eq!(make_candidate(" \"Fix off-by-one in parser\" "), "Fix off-by-one in parser");
    assert_eq!(make_candidate(" \"\"Fix off-by-one in parser\"\" "), "Fix off-by-one in parser");
    assert_eq!(make_candidate("\" padded inside \""), " padded inside ");
}

#[test]
fn substring_search_finds_needles() {
    assert!(contains_str("hello world", "lo wo"));
    assert!(contains_str("hello", "hello"));
    assert!(contains_str("hello", ""));
    assert!(!contains_str("hello", "hello!"));
    assert!(!contains_str("abc", "zb"));
    assert!(contains_str("aaab", "aab"));
}

#[test]
fn non_space_characters_are_counted() {
    assert_eq!(count_non_space(" a b "), 2);
    assert_eq!(count_non_space("\n\t "), 0);
    assert_eq!(count_non_space(""), 0);
    assert_eq!(count_non_space("abc"), 3);
}

#[test]
fn lines_split_at_breaks_without_trailing_empty() {
    assert_eq!(split_lines("a\nb\r\nc"), vec!["a", "b", "c"]);
    assert_eq!(split_lines("one line\n"), vec!["one line"]);
    assert_eq!(split_lines(""), Vec::<String>::new());
    assert_eq!(split_lines("\n\n"), vec!["", ""]);
}

#[test]
fn dashed_join_renders_one_item_per_line() {
    assert_eq!(join_dashed(&Vec::new()), "");
    assert_eq!(join_dashed(&vec![String::from("a")]), "- a");
    assert_eq!(join_dashed(&vec![String::from("a"), String::from("b")]), "- a\n- b");
}

#[test]
fn line_ending_references_are_stripped() {
    assert_eq!(strip_pr_refs("Fix parser (#7)\nNext"), "Fix parser \nNext");
    assert_eq!(strip_pr_refs("Fix parser (#123)\n"), "Fix parser \n");
    // only at a line's end, with digits, does the reference go
    assert_eq!(strip_pr_refs("Fix (#7) more\n"), "Fix (#7) more\n");
    assert_eq!(strip_pr_refs("Fix (#)\n"), "Fix (#)\n");
    assert_eq!(strip_pr_refs("Fix (#7)"), "Fix (#7)");
    assert_eq!(strip_pr_refs(""), "");
}

#[test]
fn style_examples_drop_merges_and_references() {
    let log = "Add feature (#12)\nMerge pull request #5 from fork/main\nFix bug";
    assert_eq!(prepare_style_examples(log), "- Add feature \n- Fix bug");
}

#[test]
fn style_examples_of_an_empty_log_are_empty() {
    assert_eq!(prepare_style_examples(""), "");
    assert_eq!(prepare_style_examples("Merge branch 'dev'"), "");
}
