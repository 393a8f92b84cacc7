use clipper::cli::{EditArgs, ExportArgs, ListArgs, SearchArgs};
use clipper::commands::{
    clip_without_fetch, edit_tags, export_filter, is_confirmation, list_filter, list_heading,
    parse_tag_list, search_filter, tags_cell, FilterError,
};
use clipper::config::{join_path, Config};
use clipper::models::ExportFormat;

fn strings(v: &[&str]) -> Vec<String> {
    v.iter().map(|s| s.to_string()).collect()
}

#[test]
fn tag_lists_are_trimmed_and_blank_pieces_dropped() {
    assert_eq!(parse_tag_list(" Rust, ,cli ,"), strings(&["Rust", "cli"]));
    assert!(parse_tag_list("").is_empty());
}

#[test]
fn unfetched_clip_is_titled_with_its_url() {
    let c = clip_without_fetch("https://x.example", None, strings(&["a"]), Some("n".to_string()));
    assert_eq!(c.title, "https://x.example");
    assert_eq!(c.tags, strings(&["a"]));
    let c = clip_without_fetch("https://x.example", Some("T".to_string()), vec![], None);
    assert_eq!(c.title, "T");
    assert!(c.favicon_url.is_none() && c.site_name.is_none());
}

#[test]
fn edit_sets_then_adds_then_removes_tags() {
    let existing = strings(&["a", "b"]);
    let args = EditArgs {
        id: 1,
        title: None,
        tags: None,
        add_tag: Some(" C ,a,".to_string()),
        remove_tag: Some("B".to_string()),
        notes: None,
    };
    assert_eq!(edit_tags(&existing, &args), strings(&["a", "c"]));
    let args = EditArgs {
        id: 1,
        title: None,
        tags: Some("X, y".to_string()),
        add_tag: None,
        remove_tag: None,
        notes: None,
    };
    assert_eq!(edit_tags(&existing, &args), strings(&["X", "y"]));
}

#[test]
fn search_filter_reads_days() {
    let args = SearchArgs {
        query: Some("q".to_string()),
        tag: Some("t".to_string()),
        from: Some("2024-02-03".to_string()),
        to: None,
        limit: Some(5),
        tui: false,
    };
    let f = search_filter(&args).unwrap();
    assert_eq!(f.from_date.unwrap().rfc3339, "2024-02-03T00:00:00+00:00");
    assert!(f.to_date.is_none());
    assert_eq!(f.limit, Some(5));
    assert_eq!(f.query.as_deref(), Some("q"));
    let bad = SearchArgs { from: Some("03/02/2024".to_string()), ..args.clone() };
    let e = search_filter(&bad).unwrap_err();
    assert!(matches!(&e, FilterError::InvalidDate(d) if d == "03/02/2024"));
    assert_eq!(e.message(), "Invalid date format '03/02/2024', expected YYYY-MM-DD");
    let leap = SearchArgs { from: Some("2024-02-29".to_string()), to: Some("2023-02-29".to_string()), ..args.clone() };
    assert!(matches!(search_filter(&leap), Err(FilterError::InvalidDate(d)) if d == "2023-02-29"));
    let bad_to = SearchArgs { to: Some("tomorrow".to_string()), ..args };
    assert!(matches!(search_filter(&bad_to), Err(FilterError::InvalidDate(d)) if d == "tomorrow"));
}

#[test]
fn list_and_export_filters() {
    let f = list_filter(&ListArgs { tag: Some("t".to_string()), limit: 25, tui: false });
    assert_eq!(f.limit, Some(25));
    assert_eq!(f.tag.as_deref(), Some("t"));
    assert!(f.query.is_none());
    let f = export_filter(&ExportArgs {
        format: ExportFormat::Csv,
        output: None,
        tag: None,
        query: Some("q".to_string()),
    });
    assert_eq!(f.query.as_deref(), Some("q"));
    assert!(f.limit.is_none());
}

#[test]
fn headings_confirmations_and_cells() {
    assert_eq!(list_heading(&None), "Saved Clips");
    assert_eq!(list_heading(&Some("rust".to_string())), "Clips tagged '#rust'");
    assert!(is_confirmation(" y\n"));
    assert!(is_confirmation("Y"));
    assert!(!is_confirmation("yes"));
    assert!(!is_confirmation(""));
    assert_eq!(tags_cell(&strings(&["a", "b"])), "#a #b");
    assert_eq!(tags_cell(&vec![]), "");
}

#[test]
fn config_paths() {
    let c = Config::under("/tmp/base");
    assert_eq!(c.data_dir, "/tmp/base/share/clipper");
    assert_eq!(c.config_dir, "/tmp/base/config/clipper");
    assert_eq!(c.db_path, "/tmp/base/share/clipper/clips.db");
    assert_eq!(c.assets_dir, "/tmp/base/share/clipper/assets");
    let c = Config::in_user_dirs(None, Some("/home/u/.config/".to_string()));
    assert_eq!(c.data_dir, "~/.local/share/clipper");
    assert_eq!(c.config_dir, "/home/u/.config/clipper");
    assert_eq!(join_path("", "x"), "x");
    assert_eq!(join_path("a/", "x"), "a/x");
}
