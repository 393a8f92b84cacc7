use clipper::db::Database;
use clipper::export::{Exporter, HTML_HEAD, HTML_TAIL};
use clipper::models::{Clip, ClipFilter, ExportFormat, NewClip, Timestamp};

fn sample_clip() -> Clip {
    Clip {
        id: 7,
        url: "https://example.com".to_string(),
        title: "Hello, \"World\"".to_string(),
        description: None,
        tags: vec!["a".to_string(), "b".to_string()],
        notes: Some("line".to_string()),
        content_text: None,
        screenshot_path: None,
        favicon_url: None,
        author: None,
        site_name: Some("Ex".to_string()),
        reading_time_mins: Some(12),
        date_saved: Timestamp { rfc3339: "2024-01-02T03:04:05+00:00".to_string() },
        date_updated: Timestamp { rfc3339: "2024-01-03T03:04:05+00:00".to_string() },
    }
}

#[test]
fn test_export_formats() {
    let mut db = Database::in_memory().unwrap();

    db.insert_clip(NewClip {
        url: "https://example.com".to_string(),
        title: "Test Example".to_string(),
        description: Some("Test Description".to_string()),
        tags: vec!["test".to_string(), "demo".to_string()],
        notes: Some("Test note".to_string()),
        content_text: Some("Sample article content".to_string()),
        screenshot_path: None,
        favicon_url: Some("https://example.com/favicon.ico".to_string()),
        author: Some("Tester".to_string()),
        site_name: Some("Example Domain".to_string()),
        reading_time_mins: Some(2),
    })
    .unwrap();

    let clips = db.list_clips(&ClipFilter::default()).unwrap();

    // Export CSV
    let csv_output = Exporter::to_csv(&clips).unwrap();
    assert!(csv_output.contains("id,url,title"));
    assert!(csv_output.contains("Test Example"));

    // Export HTML (the clips' JSON is made by the program; here a stand-in)
    let mut obj = serde_json::Map::new();
    obj.insert("title".to_string(), serde_json::Value::String(clips[0].title.clone()));
    obj.insert("url".to_string(), serde_json::Value::String(clips[0].url.clone()));
    let json = serde_json::Value::Array(vec![serde_json::Value::Object(obj)]).to_string();
    let html_output = Exporter::to_html(Some(json.as_str()), clips.len());
    assert!(html_output.contains("<!DOCTYPE html>"));
    assert!(html_output.contains("Clipper Collection"));
    assert!(html_output.contains("Test Example"));
    assert_eq!(ExportFormat::Html.as_str(), "html");
}

#[test]
fn csv_has_the_header_and_one_quoted_record_per_clip() {
    let csv = Exporter::to_csv(&[sample_clip()]).unwrap();
    let expected = "id,url,title,description,tags,notes,author,site_name,reading_time_mins,date_saved,date_updated\n\
7,https://example.com,\"Hello, \"\"World\"\"\",,a;b,line,,Ex,12,2024-01-02T03:04:05+00:00,2024-01-03T03:04:05+00:00\n";
    assert_eq!(csv, expected);
}

#[test]
fn csv_of_no_clips_is_the_header() {
    let csv = Exporter::to_csv(&[]).unwrap();
    assert_eq!(
        csv,
        "id,url,title,description,tags,notes,author,site_name,reading_time_mins,date_saved,date_updated\n"
    );
}

#[test]
fn html_page_embeds_count_and_json() {
    let page = Exporter::to_html(Some("[1]"), 3);
    assert!(page.starts_with(HTML_HEAD));
    assert!(page.ends_with(HTML_TAIL));
    assert!(page.contains("<title>Clipper - Saved Clips (3)</title>"));
    assert!(page.contains("Clipper Collection (3)</h1>"));
    assert!(page.contains("const clips = [1];"));
    let empty = Exporter::to_html(None, 0);
    assert!(empty.contains("const clips = [];"));
    assert!(empty.contains("Saved Clips (0)"));
}

#[test]
fn csv_keeps_non_ascii_text_and_long_fields() {
    let mut clip = sample_clip();
    clip.title = "Café \"naïve\" — 日本".to_string();
    clip.notes = Some("x".repeat(20000));
    let clips = vec![clip.clone(), clip];
    let csv = Exporter::to_csv(&clips).unwrap();
    assert!(csv.contains("\"Café \"\"naïve\"\" — 日本\""));
    assert_eq!(csv.lines().count(), 3);
    assert!(csv.contains(&"x".repeat(20000)));
}
