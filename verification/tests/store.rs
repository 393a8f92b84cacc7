use clipper::db::{Database, DbError};
use clipper::models::{ClipFilter, NewClip, Timestamp, UpdateClip};

fn new_clip(url: &str, title: &str, tags: &[&str]) -> NewClip {
    NewClip {
        url: url.to_string(),
        title: title.to_string(),
        description: None,
        tags: tags.iter().map(|t| t.to_string()).collect(),
        notes: None,
        content_text: None,
        screenshot_path: None,
        favicon_url: None,
        author: None,
        site_name: None,
        reading_time_mins: None,
    }
}

#[test]
fn test_database_crud_and_fts() {
    let mut db = Database::in_memory().unwrap();

    // Insert clip 1
    let clip1 = db
        .insert_clip(NewClip {
            url: "https://rust-lang.org".to_string(),
            title: "Rust Programming Language".to_string(),
            description: Some("Empowering everyone to build reliable and efficient software.".to_string()),
            tags: vec!["rust".to_string(), "programming".to_string(), "systems".to_string()],
            notes: Some("Essential reference site for Rust programming language.".to_string()),
            content_text: Some("Rust is a multi-paradigm, general-purpose programming language designed for performance and safety.".to_string()),
            screenshot_path: None,
            favicon_url: Some("https://rust-lang.org/favicon.ico".to_string()),
            author: Some("Rust Core Team".to_string()),
            site_name: Some("Rust Official".to_string()),
            reading_time_mins: Some(3),
        })
        .unwrap();

    assert_eq!(clip1.id, 1);
    assert_eq!(clip1.title, "Rust Programming Language");
    assert_eq!(clip1.tags, vec!["rust", "programming", "systems"]);

    // Insert clip 2
    let clip2 = db
        .insert_clip(NewClip {
            url: "https://news.ycombinator.com".to_string(),
            title: "Hacker News".to_string(),
            description: Some("Social news website focusing on computer science and entrepreneurship.".to_string()),
            tags: vec!["news".to_string(), "tech".to_string()],
            notes: Some("Check daily tech news.".to_string()),
            content_text: Some("Hacker News is a social news website run by Y Combinator.".to_string()),
            screenshot_path: None,
            favicon_url: None,
            author: None,
            site_name: Some("Y Combinator".to_string()),
            reading_time_mins: Some(1),
        })
        .unwrap();

    assert_eq!(clip2.id, 2);

    // Get by URL
    let fetched_url = db.get_clip_by_url("https://rust-lang.org").unwrap();
    assert!(fetched_url.is_some());
    assert_eq!(fetched_url.unwrap().id, 1);

    // List all
    let all_clips = db.list_clips(&ClipFilter::default()).unwrap();
    assert_eq!(all_clips.len(), 2);

    // Tag filter
    let rust_clips = db
        .list_clips(&ClipFilter {
            tag: Some("rust".to_string()),
            ..Default::default()
        })
        .unwrap();
    assert_eq!(rust_clips.len(), 1);
    assert_eq!(rust_clips[0].id, 1);

    // Full-Text Search for keyword 'multi-paradigm'
    let search_res = db
        .search_clips(&ClipFilter {
            query: Some("multi-paradigm".to_string()),
            ..Default::default()
        })
        .unwrap();
    assert_eq!(search_res.len(), 1);
    assert_eq!(search_res[0].id, 1);

    // Update clip
    let updated = db
        .update_clip(UpdateClip {
            id: 1,
            title: Some("Rust Language (Official)".to_string()),
            description: None,
            tags: Some(vec!["rust".to_string(), "cli".to_string()]),
            notes: Some("Updated notes".to_string()),
        })
        .unwrap();

    assert_eq!(updated.title, "Rust Language (Official)");
    assert_eq!(updated.tags, vec!["rust", "cli"]);
    assert_eq!(updated.notes.unwrap(), "Updated notes");

    // Delete clip 2
    let deleted = db.delete_clip(2).unwrap();
    assert!(deleted);
    assert_eq!(db.count_clips().unwrap(), 1);
}

#[test]
fn test_tag_operations() {
    let mut db = Database::in_memory().unwrap();

    db.insert_clip(NewClip {
        url: "https://example.com/1".to_string(),
        title: "Page 1".to_string(),
        description: None,
        tags: vec!["design".to_string(), "web".to_string()],
        notes: None,
        content_text: None,
        screenshot_path: None,
        favicon_url: None,
        author: None,
        site_name: None,
        reading_time_mins: None,
    })
    .unwrap();

    db.insert_clip(NewClip {
        url: "https://example.com/2".to_string(),
        title: "Page 2".to_string(),
        description: None,
        tags: vec!["design".to_string(), "inspiration".to_string()],
        notes: None,
        content_text: None,
        screenshot_path: None,
        favicon_url: None,
        author: None,
        site_name: None,
        reading_time_mins: None,
    })
    .unwrap();

    let tag_counts = db.list_tags().unwrap();
    assert_eq!(tag_counts.len(), 3);
    assert_eq!(tag_counts[0].tag, "design");
    assert_eq!(tag_counts[0].count, 2);

    // Add tag to clip 1
    let clip1_tags = db.add_tags_to_clip(1, &["css".to_string()]).unwrap();
    assert!(clip1_tags.contains(&"css".to_string()));

    // Rename 'design' -> 'ui'
    let renamed = db.rename_tag("design", "ui").unwrap();
    assert_eq!(renamed, 2);

    let ui_clips = db
        .list_clips(&ClipFilter {
            tag: Some("ui".to_string()),
            ..Default::default()
        })
        .unwrap();
    assert_eq!(ui_clips.len(), 2);

    // Delete tag 'web'
    let deleted_tag_cnt = db.delete_tag("web").unwrap();
    assert_eq!(deleted_tag_cnt, 1);
}

#[test]
fn get_after_insert_returns_the_inserted_clip() {
    let mut db = Database::in_memory().unwrap();
    let mut n = new_clip("https://a.example", "A", &["  Rust ", "", "CLI"]);
    n.description = Some("desc".to_string());
    n.reading_time_mins = Some(7);
    let c = db.insert_clip(n).unwrap();
    assert_eq!(c.tags, vec!["rust", "cli"]);
    assert_eq!(c.description.as_deref(), Some("desc"));
    assert_eq!(c.reading_time_mins, Some(7));
    assert_eq!(c.date_saved.rfc3339, c.date_updated.rfc3339);
    let got = db.get_clip_by_id(c.id).unwrap().unwrap();
    assert_eq!(got.id, c.id);
    assert_eq!(got.url, c.url);
    assert_eq!(got.title, c.title);
    assert_eq!(got.tags, c.tags);
    assert_eq!(got.date_saved.rfc3339, c.date_saved.rfc3339);
    assert!(db.get_clip_by_id(c.id + 100).unwrap().is_none());
}

#[test]
fn duplicate_url_is_refused_and_changes_nothing() {
    let mut db = Database::in_memory().unwrap();
    db.insert_clip(new_clip("https://dup.example", "first", &["a"])).unwrap();
    let r = db.insert_clip(new_clip("https://dup.example", "second", &["b"]));
    assert!(matches!(r, Err(DbError::Sqlite(_))));
    assert_eq!(db.count_clips().unwrap(), 1);
    assert_eq!(db.list_tags().unwrap().len(), 1);
}

#[test]
fn update_missing_clip_reports_not_found() {
    let mut db = Database::in_memory().unwrap();
    let r = db.update_clip(UpdateClip { id: 9, title: None, description: None, tags: None, notes: None });
    assert!(matches!(r, Err(DbError::ClipNotFound(9))));
    assert_eq!(r.unwrap_err().message(), "Clip with ID 9 not found");
    assert!(matches!(db.add_tags_to_clip(3, &["x".to_string()]), Err(DbError::ClipNotFound(3))));
    assert!(matches!(db.remove_tags_from_clip(4, &["x".to_string()]), Err(DbError::ClipNotFound(4))));
}

#[test]
fn update_keeps_absent_fields_and_get_agrees() {
    let mut db = Database::in_memory().unwrap();
    let mut n = new_clip("https://u.example", "Old", &["one", "two"]);
    n.description = Some("kept".to_string());
    n.notes = Some("old notes".to_string());
    let c = db.insert_clip(n).unwrap();
    let u = db
        .update_clip(UpdateClip { id: c.id, title: Some("New".to_string()), description: None, tags: None, notes: None })
        .unwrap();
    assert_eq!(u.title, "New");
    assert_eq!(u.description.as_deref(), Some("kept"));
    assert_eq!(u.notes.as_deref(), Some("old notes"));
    assert_eq!(u.tags, vec!["one", "two"]);
    let got = db.get_clip_by_id(c.id).unwrap().unwrap();
    assert_eq!(got.title, u.title);
    assert_eq!(got.date_updated.rfc3339, u.date_updated.rfc3339);
    assert_eq!(got.date_saved.rfc3339, c.date_saved.rfc3339);
}

#[test]
fn delete_then_get_finds_nothing_and_count_drops() {
    let mut db = Database::in_memory().unwrap();
    let a = db.insert_clip(new_clip("https://1.example", "1", &[])).unwrap();
    db.insert_clip(new_clip("https://2.example", "2", &[])).unwrap();
    assert_eq!(db.count_clips().unwrap(), 2);
    assert!(db.delete_clip(a.id).unwrap());
    assert!(db.get_clip_by_id(a.id).unwrap().is_none());
    assert_eq!(db.count_clips().unwrap(), 1);
    assert!(!db.delete_clip(a.id).unwrap());
    assert_eq!(db.count_clips().unwrap(), 1);
}

#[test]
fn listing_is_latest_first_with_limit_and_offset() {
    let mut db = Database::in_memory().unwrap();
    for i in 0..4 {
        db.insert_clip(new_clip(&format!("https://{}.example", i), &format!("t{}", i), &[])).unwrap();
    }
    let all = db.list_clips(&ClipFilter::default()).unwrap();
    let ids: Vec<i64> = all.iter().map(|c| c.id).collect();
    assert_eq!(ids, vec![4, 3, 2, 1]);
    let page = db
        .list_clips(&ClipFilter { limit: Some(2), offset: Some(1), ..Default::default() })
        .unwrap();
    let ids: Vec<i64> = page.iter().map(|c| c.id).collect();
    assert_eq!(ids, vec![3, 2]);
    let offset_without_limit = db.list_clips(&ClipFilter { offset: Some(3), ..Default::default() }).unwrap();
    assert_eq!(offset_without_limit.len(), 4);
    let too_big = db.list_clips(&ClipFilter { limit: Some(usize::MAX), ..Default::default() });
    assert!(matches!(too_big, Err(DbError::LimitOutOfRange)));
}

#[test]
fn date_bounds_select_by_saved_date() {
    let mut db = Database::in_memory().unwrap();
    db.insert_clip(new_clip("https://d.example", "d", &[])).unwrap();
    let future = ClipFilter {
        from_date: Some(Timestamp { rfc3339: "9999-01-01T00:00:00+00:00".to_string() }),
        ..Default::default()
    };
    assert_eq!(db.list_clips(&future).unwrap().len(), 0);
    let past = ClipFilter {
        from_date: Some(Timestamp { rfc3339: "2000-01-01T00:00:00+00:00".to_string() }),
        to_date: Some(Timestamp { rfc3339: "9999-01-01T00:00:00+00:00".to_string() }),
        ..Default::default()
    };
    assert_eq!(db.list_clips(&past).unwrap().len(), 1);
}

#[test]
fn search_falls_back_to_like_and_blank_search_lists() {
    let mut db = Database::in_memory().unwrap();
    let mut n = new_clip("https://s.example", "Searchable", &["alpha"]);
    n.notes = Some("a note about quokkas".to_string());
    db.insert_clip(n).unwrap();
    db.insert_clip(new_clip("https://t.example", "Other", &["beta"])).unwrap();
    let found = db.search_clips(&ClipFilter { query: Some("quokka".to_string()), ..Default::default() }).unwrap();
    assert_eq!(found.len(), 1);
    assert_eq!(found[0].title, "Searchable");
    let by_url = db.list_clips(&ClipFilter { query: Some("t.example".to_string()), ..Default::default() }).unwrap();
    assert_eq!(by_url.len(), 1);
    let blank = db.search_clips(&ClipFilter { query: Some("   ".to_string()), ..Default::default() }).unwrap();
    assert_eq!(blank.len(), 2);
    let tagged = db
        .search_clips(&ClipFilter { query: Some("example".to_string()), tag: Some("BETA".to_string()), ..Default::default() })
        .unwrap();
    assert_eq!(tagged.len(), 1);
    assert_eq!(tagged[0].title, "Other");
}

#[test]
fn tag_counts_are_ordered_by_count_then_name() {
    let mut db = Database::in_memory().unwrap();
    db.insert_clip(new_clip("https://1.example", "1", &["b", "a"])).unwrap();
    db.insert_clip(new_clip("https://2.example", "2", &["c", "b"])).unwrap();
    let tags = db.list_tags().unwrap();
    let pairs: Vec<(String, usize)> = tags.into_iter().map(|t| (t.tag, t.count)).collect();
    assert_eq!(pairs, vec![("b".to_string(), 2), ("a".to_string(), 1), ("c".to_string(), 1)]);
}

#[test]
fn add_and_remove_tags_normalise_and_skip_duplicates() {
    let mut db = Database::in_memory().unwrap();
    let c = db.insert_clip(new_clip("https://x.example", "x", &["keep", "drop"])).unwrap();
    let tags = db.add_tags_to_clip(c.id, &[" New ".to_string(), "keep".to_string(), "".to_string()]).unwrap();
    assert_eq!(tags, vec!["keep", "drop", "new"]);
    let tags = db.remove_tags_from_clip(c.id, &["DROP ".to_string()]).unwrap();
    assert_eq!(tags, vec!["keep", "new"]);
    let listed = db.list_clips(&ClipFilter { tag: Some("drop".to_string()), ..Default::default() }).unwrap();
    assert!(listed.is_empty());
}

#[test]
fn rename_and_delete_tag_edge_cases() {
    let mut db = Database::in_memory().unwrap();
    db.insert_clip(new_clip("https://1.example", "1", &["old", "other"])).unwrap();
    db.insert_clip(new_clip("https://2.example", "2", &["new", "old"])).unwrap();
    assert_eq!(db.rename_tag(" OLD ", "old").unwrap(), 0);
    assert_eq!(db.rename_tag("", "x").unwrap(), 0);
    assert_eq!(db.rename_tag("old", "New").unwrap(), 2);
    let c1 = db.get_clip_by_id(1).unwrap().unwrap();
    let c2 = db.get_clip_by_id(2).unwrap().unwrap();
    assert_eq!(c1.tags, vec!["other", "new"]);
    assert_eq!(c2.tags, vec!["new"]);
    assert_eq!(db.delete_tag("NEW").unwrap(), 2);
    assert_eq!(db.get_clip_by_id(1).unwrap().unwrap().tags, vec!["other"]);
    assert!(db.get_clip_by_id(2).unwrap().unwrap().tags.is_empty());
    assert_eq!(db.delete_tag("absent").unwrap(), 0);
}

#[test]
fn tag_with_a_comma_reads_back_split() {
    let mut db = Database::in_memory().unwrap();
    let c = db.insert_clip(new_clip("https://c.example", "c", &["a,b"])).unwrap();
    assert_eq!(c.tags, vec!["a", "b"]);
}

#[test]
fn search_finds_a_clip_holding_the_text_inside_a_word() {
    let mut db = Database::in_memory().unwrap();
    db.insert_clip(new_clip("https://example.com/zebra", "Stripes", &["animals"])).unwrap();
    db.insert_clip(new_clip("https://other.org", "Unrelated", &[])).unwrap();
    let filter = ClipFilter { query: Some("ebr".to_string()), ..ClipFilter::default() };
    let found = db.search_clips(&filter).unwrap();
    assert!(!found.is_empty());
    assert!(found.iter().any(|c| c.url == "https://example.com/zebra"));
}

#[test]
fn new_clips_get_growing_ids() {
    let mut db = Database::in_memory().unwrap();
    let a = db.insert_clip(new_clip("https://a.example", "a", &[])).unwrap();
    let b = db.insert_clip(new_clip("https://b.example", "b", &[])).unwrap();
    db.delete_clip(b.id).unwrap();
    let c = db.insert_clip(new_clip("https://c.example", "c", &[])).unwrap();
    assert!(a.id < b.id);
    assert!(b.id < c.id);
}

#[test]
fn deleting_a_clip_drops_its_tags_from_the_counts() {
    let mut db = Database::in_memory().unwrap();
    let a = db.insert_clip(new_clip("https://a.example", "a", &["x", "y"])).unwrap();
    db.insert_clip(new_clip("https://b.example", "b", &["x"])).unwrap();
    assert!(db.delete_clip(a.id).unwrap());
    let tags = db.list_tags().unwrap();
    assert_eq!(tags.len(), 1);
    assert_eq!(tags[0].tag, "x");
    assert_eq!(tags[0].count, 1);
    assert!(!db.delete_clip(a.id).unwrap());
}
