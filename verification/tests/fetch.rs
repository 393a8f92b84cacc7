use clipper::fetcher::{clip_from_page, count_words, parse_clip_url, reading_time, FetchError};
use clipper::query::{fts_query, like_query};

const PAGE: &str = r#"<!DOCTYPE html>
<html><head>
<title>  Plain Title  </title>
<meta property="og:title" content="  OG Title ">
<meta name="description" content="A page about things.">
<meta name="AUTHOR" content="Jane">
<meta name="keywords" content="Rust, Web Dev , rust, averyveryverylongkeywordindeed, ">
<link rel="shortcut icon" href="/static/icon.png">
</head><body>
<article>This article paragraph is definitely longer than thirty bytes of text.</article>
<p>short</p>
<p>This article paragraph is definitely longer than thirty bytes of text.</p>
<li>Another list item that is long enough to be kept as a paragraph.</li>
</body></html>"#;

#[test]
fn url_is_parsed_or_refused() {
    let u = parse_clip_url("https://Example.com/a/b?x=1").unwrap();
    assert_eq!(u.text, "https://example.com/a/b?x=1");
    assert_eq!(u.scheme, "https");
    assert_eq!(u.host.as_deref(), Some("example.com"));
    let e = parse_clip_url("not a url").unwrap_err();
    assert!(matches!(&e, FetchError::InvalidUrl(s) if s == "not a url"));
    assert_eq!(e.message(), "Invalid URL: 'not a url'");
}

#[test]
fn page_metadata_is_extracted() {
    let u = parse_clip_url("https://example.com/post").unwrap();
    let c = clip_from_page(&u, Some(PAGE.to_string()), None, vec!["mine".to_string()], Some("n".to_string())).unwrap();
    assert_eq!(c.url, "https://example.com/post");
    assert_eq!(c.title, "OG Title");
    assert_eq!(c.description.as_deref(), Some("A page about things."));
    assert_eq!(c.author.as_deref(), Some("Jane"));
    assert_eq!(c.site_name.as_deref(), Some("example.com"));
    assert_eq!(c.favicon_url.as_deref(), Some("https://example.com/static/icon.png"));
    assert_eq!(c.tags, vec!["mine", "rust", "web dev"]);
    assert_eq!(c.notes.as_deref(), Some("n"));
    assert_eq!(
        c.content_text.as_deref(),
        Some("This article paragraph is definitely longer than thirty bytes of text.\n\nAnother list item that is long enough to be kept as a paragraph.")
    );
    assert_eq!(c.reading_time_mins, Some(1));
}

#[test]
fn user_title_wins_and_title_falls_back() {
    let u = parse_clip_url("https://example.com/").unwrap();
    let c = clip_from_page(&u, Some(PAGE.to_string()), Some("Mine".to_string()), vec![], None).unwrap();
    assert_eq!(c.title, "Mine");
    let bare = "<html><head><title> T </title></head><body><h1>H</h1></body></html>";
    let c = clip_from_page(&u, Some(bare.to_string()), None, vec![], None).unwrap();
    assert_eq!(c.title, "T");
    assert_eq!(c.favicon_url.as_deref(), Some("https://example.com/favicon.ico"));
    assert_eq!(c.content_text, None);
    assert_eq!(c.reading_time_mins, None);
    let none = "<html><body><div>x</div></body></html>";
    let c = clip_from_page(&u, Some(none.to_string()), None, vec![], None).unwrap();
    assert_eq!(c.title, "example.com");
}

#[test]
fn unfetched_page_uses_the_host() {
    let u = parse_clip_url("http://host.example:8080/x").unwrap();
    let c = clip_from_page(&u, None, None, vec!["t".to_string()], None).unwrap();
    assert_eq!(c.title, "host.example");
    assert_eq!(c.site_name.as_deref(), Some("host.example"));
    assert_eq!(c.favicon_url.as_deref(), Some("http://host.example/favicon.ico"));
    assert_eq!(c.tags, vec!["t"]);
    assert!(c.description.is_none() && c.content_text.is_none() && c.author.is_none());
}

#[test]
fn long_body_is_cut_at_ten_thousand_bytes() {
    let u = parse_clip_url("https://example.com/").unwrap();
    let para = "word ".repeat(3000);
    let page = format!("<html><body><p>{}</p></body></html>", para);
    let c = clip_from_page(&u, Some(page), None, vec![], None).unwrap();
    let body = c.content_text.unwrap();
    assert_eq!(body.len(), 10003);
    assert!(body.ends_with("..."));
    assert_eq!(c.reading_time_mins, Some(10));
    let page = format!("<html><body><p>a{}</p></body></html>", "é".repeat(6000));
    let r = clip_from_page(&u, Some(page), None, vec![], None);
    assert!(matches!(r, Err(FetchError::BodyNotCuttable)));
}

#[test]
fn words_and_reading_time() {
    assert_eq!(count_words(""), 0);
    assert_eq!(count_words("  one\ttwo \n three  "), 3);
    assert_eq!(reading_time("a b c"), 1);
    assert_eq!(reading_time(&"w ".repeat(450)), 2);
}

#[test]
fn search_texts() {
    assert_eq!(fts_query("say \"hi\""), "*say \"\"hi\"\"*");
    assert_eq!(like_query("50%"), "%50%%");
}
