use implot::bindings::{add_derives_for, add_missing_derives, header_argument, replace_all};

#[test]
fn every_occurrence_is_replaced() {
    assert_eq!(replace_all(b"a-b-c", b"-", b"+"), b"a+b+c");
    assert_eq!(replace_all(b"abcabc", b"bc", b""), b"aa");
    assert_eq!(replace_all(b"abc", b"abc", b"x"), b"x");
    assert_eq!(replace_all(b"xabc", b"abc", b"abcabc"), b"xabcabc");
}

#[test]
fn a_text_without_the_pattern_is_copied() {
    assert_eq!(replace_all(b"hello", b"xyz", b"!"), b"hello");
    assert_eq!(replace_all(b"", b"a", b"b"), b"");
    assert_eq!(replace_all(b"ab", b"abc", b"!"), b"ab");
}

#[test]
fn replacing_a_pattern_by_itself_changes_nothing() {
    assert_eq!(replace_all(b"abcabc", b"bc", b"bc"), b"abcabc");
    assert_eq!(replace_all(b"aaa", b"aa", b"aa"), b"aaa");
}

#[test]
fn occurrences_are_taken_from_the_left_and_do_not_overlap() {
    assert_eq!(replace_all(b"aaa", b"aa", b"b"), b"ba");
    assert_eq!(replace_all(b"aaaa", b"aa", b"b"), b"bb");
    assert_eq!(replace_all(b"ababa", b"aba", b"x"), b"xba");
}

#[test]
fn what_was_put_in_is_not_searched_again() {
    assert_eq!(replace_all(b"a", b"a", b"aa"), b"aa");
    assert_eq!(replace_all(b"ab", b"b", b"ab"), b"aab");
}

#[test]
fn replacement_agrees_with_the_standard_library() {
    let texts = ["", "a", "aaa", "abcabcab", "pub struct X; pub struct XY;", "ééé", "é\u{e9}x"];
    let patterns = ["a", "aa", "abc", "pub struct X", "é", "x", "\u{a9}"];
    let replacements = ["", "a", "zz", "#[derive(Clone)]\npub struct X"];
    for text in texts {
        for pattern in patterns {
            for replacement in replacements {
                assert_eq!(
                    replace_all(text.as_bytes(), pattern.as_bytes(), replacement.as_bytes()),
                    text.replace(pattern, replacement).into_bytes()
                );
            }
        }
    }
}

#[test]
fn deriving_line_goes_in_front_of_the_named_struct() {
    let text = "#[repr(C)]\npub struct ImPlotStyle {\n    pub x: f32,\n}\n";
    assert_eq!(
        add_derives_for(text.as_bytes(), "ImPlotStyle"),
        "#[repr(C)]\n#[derive(Clone, Copy, Debug)]\npub struct ImPlotStyle {\n    pub x: f32,\n}\n"
            .as_bytes()
    );
}

#[test]
fn other_structs_are_left_alone() {
    let text = "pub struct ImPlotPoint {\n}\npub fn f();\n";
    assert_eq!(add_derives_for(text.as_bytes(), "ImPlotStyle"), text.as_bytes());
    assert_eq!(add_missing_derives(text), text.as_bytes());
    assert_eq!(add_missing_derives(""), b"");
}

#[test]
fn both_structs_get_their_line_wherever_they_stand() {
    let text = "pub struct ImPlotStyle {}\npub struct ImPlotRange {}\npub struct ImPlotInputMap {}\n";
    assert_eq!(
        add_missing_derives(text),
        "#[derive(Clone, Copy, Debug)]\npub struct ImPlotStyle {}\npub struct ImPlotRange {}\n#[derive(Clone, Copy, Debug)]\npub struct ImPlotInputMap {}\n"
            .as_bytes()
    );
}

#[test]
fn every_declaration_that_starts_with_the_name_is_matched() {
    let text = "pub struct ImPlotStyleVar {}\n";
    assert_eq!(
        add_missing_derives(text),
        "#[derive(Clone, Copy, Debug)]\npub struct ImPlotStyleVar {}\n".as_bytes()
    );
}

#[test]
fn touching_up_agrees_with_the_standard_library() {
    let text = "pub struct ImPlotInputMap {}\npub struct ImPlotStyle {}\npub struct ImPlotInputMapX;";
    let mut expected = text.to_string();
    for name in ["ImPlotInputMap", "ImPlotStyle"] {
        expected = expected.replace(
            &format!("pub struct {}", name),
            &format!("#[derive(Clone, Copy, Debug)]\npub struct {}", name),
        );
    }
    assert_eq!(add_missing_derives(text), expected.into_bytes());
}

#[test]
fn header_path_loses_its_first_four_bytes() {
    assert_eq!(header_argument("\\\\?\\C:\\sys\\cimplot.h"), "C:\\sys\\cimplot.h");
    assert_eq!(header_argument("/tmp/cimgui.h"), "/cimgui.h");
    assert_eq!(header_argument("abcd"), "");
    assert_eq!(header_argument("éé/x"), "/x");
}
