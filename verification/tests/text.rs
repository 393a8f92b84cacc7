use clipper::tags::{add_tags, clean_tags, drop_tag, normalize_tag, parse_tags_column, remove_tags, rename_in_tags};
use clipper::commands::parse_tag_list;
use clipper::text::{i64_text, join, split_on, split_words, u64_text};

fn strings(v: &[&str]) -> Vec<String> {
    v.iter().map(|s| s.to_string()).collect()
}

#[test]
fn trimming_splitting_joining() {
    assert_eq!(parse_tag_list("\u{a0} x y\t,\u{3000}z"), strings(&["x y", "z"]));
    assert_eq!(split_on("a,,b", ','), strings(&["a", "", "b"]));
    assert_eq!(split_on("", ','), strings(&[""]));
    assert_eq!(join(&strings(&["a", "b", "c"]), ", "), "a, b, c");
    assert_eq!(join(&vec![], ","), "");
    assert_eq!(split_words("  export  csv\tout.csv "), strings(&["export", "csv", "out.csv"]));
}

#[test]
fn decimal_rendering() {
    assert_eq!(u64_text(0), "0");
    assert_eq!(u64_text(18446744073709551615), "18446744073709551615");
    assert_eq!(i64_text(-42), "-42");
    assert_eq!(i64_text(i64::MIN), "-9223372036854775808");
}

#[test]
fn tags_are_normalised_and_cleaned() {
    assert_eq!(normalize_tag("  ÄBC "), "äbc");
    assert_eq!(clean_tags(&strings(&[" A ", "  ", "b"])), strings(&["a", "b"]));
    assert_eq!(parse_tags_column(""), Vec::<String>::new());
    assert_eq!(parse_tags_column("a, b ,c"), strings(&["a", "b", "c"]));
}

#[test]
fn tag_list_edits() {
    let ts = strings(&["a", "b", "a"]);
    assert_eq!(add_tags(&ts, &strings(&[" C", "b", ""])), strings(&["a", "b", "a", "c"]));
    assert_eq!(remove_tags(&ts, &strings(&["A "])), strings(&["b"]));
    assert_eq!(drop_tag(&ts, "a"), strings(&["b"]));
    assert_eq!(rename_in_tags(&ts, "a", "z"), strings(&["b", "a", "z"]));
    assert_eq!(rename_in_tags(&ts, "q", "b"), ts);
}
