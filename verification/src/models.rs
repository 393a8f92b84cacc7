//! The values the clip store holds and hands out.
use vstd::prelude::*;
use crate::text::{join, join_spec, trim, trim_spec};

verus! {

/// An instant, held as its RFC 3339 text in UTC (as `to_rfc3339` renders it).
#[derive(Debug, Clone)]
pub struct Timestamp {
    pub rfc3339: String,
}

/// A saved web clip.
#[derive(Debug, Clone)]
pub struct Clip {
    pub id: i64,
    pub url: String,
    pub title: String,
    pub description: Option<String>,
    pub tags: Vec<String>,
    pub notes: Option<String>,
    pub content_text: Option<String>,
    pub screenshot_path: Option<String>,
    pub favicon_url: Option<String>,
    pub author: Option<String>,
    pub site_name: Option<String>,
    pub reading_time_mins: Option<u32>,
    pub date_saved: Timestamp,
    pub date_updated: Timestamp,
}

/// The mathematical value of a `Clip`.
pub struct ClipView {
    pub id: i64,
    pub url: Seq<char>,
    pub title: Seq<char>,
    pub description: Option<Seq<char>>,
    pub tags: Seq<Seq<char>>,
    pub notes: Option<Seq<char>>,
    pub content_text: Option<Seq<char>>,
    pub screenshot_path: Option<Seq<char>>,
    pub favicon_url: Option<Seq<char>>,
    pub author: Option<Seq<char>>,
    pub site_name: Option<Seq<char>>,
    pub reading_time_mins: Option<u32>,
    pub date_saved: Seq<char>,
    pub date_updated: Seq<char>,
}

impl View for Clip {
    type V = ClipView;

    open spec fn view(&self) -> ClipView {
        ClipView {
            id: self.id,
            url: self.url@,
            title: self.title@,
            description: self.description.deep_view(),
            tags: self.tags.deep_view(),
            notes: self.notes.deep_view(),
            content_text: self.content_text.deep_view(),
            screenshot_path: self.screenshot_path.deep_view(),
            favicon_url: self.favicon_url.deep_view(),
            author: self.author.deep_view(),
            site_name: self.site_name.deep_view(),
            reading_time_mins: self.reading_time_mins,
            date_saved: self.date_saved.rfc3339@,
            date_updated: self.date_updated.rfc3339@,
        }
    }
}

impl DeepView for Clip {
    type V = ClipView;

    open spec fn deep_view(&self) -> ClipView {
        self@
    }
}

impl Clip {
    /// The tags, separated by a comma and a space.
    pub fn tags_string(&self) -> (s: String)
        ensures
            s@ == join_spec(self@.tags, ", "@),
    {
        join(&self.tags, ", ")
    }

    /// The title, or the url when the title is blank.
    pub fn display_title(&self) -> (s: &str)
        ensures
            s@ == (if trim_spec(self.title@).len() == 0 {
                self.url@
            } else {
                self.title@
            }),
    {
        if trim(self.title.as_str()).is_empty() {
            self.url.as_str()
        } else {
            self.title.as_str()
        }
    }
}

/// A clip to be saved.
#[derive(Debug, Clone)]
pub struct NewClip {
    pub url: String,
    pub title: String,
    pub description: Option<String>,
    pub tags: Vec<String>,
    pub notes: Option<String>,
    pub content_text: Option<String>,
    pub screenshot_path: Option<String>,
    pub favicon_url: Option<String>,
    pub author: Option<String>,
    pub site_name: Option<String>,
    pub reading_time_mins: Option<u32>,
}

/// The mathematical value of a `NewClip`.
pub struct NewClipView {
    pub url: Seq<char>,
    pub title: Seq<char>,
    pub description: Option<Seq<char>>,
    pub tags: Seq<Seq<char>>,
    pub notes: Option<Seq<char>>,
    pub content_text: Option<Seq<char>>,
    pub screenshot_path: Option<Seq<char>>,
    pub favicon_url: Option<Seq<char>>,
    pub author: Option<Seq<char>>,
    pub site_name: Option<Seq<char>>,
    pub reading_time_mins: Option<u32>,
}

impl View for NewClip {
    type V = NewClipView;

    open spec fn view(&self) -> NewClipView {
        NewClipView {
            url: self.url@,
            title: self.title@,
            description: self.description.deep_view(),
            tags: self.tags.deep_view(),
            notes: self.notes.deep_view(),
            content_text: self.content_text.deep_view(),
            screenshot_path: self.screenshot_path.deep_view(),
            favicon_url: self.favicon_url.deep_view(),
            author: self.author.deep_view(),
            site_name: self.site_name.deep_view(),
            reading_time_mins: self.reading_time_mins,
        }
    }
}

/// Changes to a saved clip; absent fields keep their value.
#[derive(Debug, Clone)]
pub struct UpdateClip {
    pub id: i64,
    pub title: Option<String>,
    pub description: Option<String>,
    pub tags: Option<Vec<String>>,
    pub notes: Option<String>,
}

/// The mathematical value of an `UpdateClip`.
pub struct UpdateClipView {
    pub id: i64,
    pub title: Option<Seq<char>>,
    pub description: Option<Seq<char>>,
    pub tags: Option<Seq<Seq<char>>>,
    pub notes: Option<Seq<char>>,
}

impl View for UpdateClip {
    type V = UpdateClipView;

    open spec fn view(&self) -> UpdateClipView {
        UpdateClipView {
            id: self.id,
            title: self.title.deep_view(),
            description: self.description.deep_view(),
            tags: self.tags.deep_view(),
            notes: self.notes.deep_view(),
        }
    }
}

/// Which clips a listing or a search returns.
#[derive(Debug, Clone)]
pub struct ClipFilter {
    pub query: Option<String>,
    pub tag: Option<String>,
    pub from_date: Option<Timestamp>,
    pub to_date: Option<Timestamp>,
    pub limit: Option<usize>,
    pub offset: Option<usize>,
}

/// The mathematical value of a `ClipFilter`.
pub struct ClipFilterView {
    pub query: Option<Seq<char>>,
    pub tag: Option<Seq<char>>,
    pub from_date: Option<Seq<char>>,
    pub to_date: Option<Seq<char>>,
    pub limit: Option<usize>,
    pub offset: Option<usize>,
}

/// The RFC 3339 text of an optional timestamp.
pub open spec fn opt_stamp(t: Option<Timestamp>) -> Option<Seq<char>> {
    match t {
        Some(s) => Some(s.rfc3339@),
        None => None,
    }
}

impl View for ClipFilter {
    type V = ClipFilterView;

    open spec fn view(&self) -> ClipFilterView {
        ClipFilterView {
            query: self.query.deep_view(),
            tag: self.tag.deep_view(),
            from_date: opt_stamp(self.from_date),
            to_date: opt_stamp(self.to_date),
            limit: self.limit,
            offset: self.offset,
        }
    }
}

impl Default for ClipFilter {
    fn default() -> (f: Self)
        ensures
            f.query is None,
            f.tag is None,
            f.from_date is None,
            f.to_date is None,
            f.limit is None,
            f.offset is None,
    {
        ClipFilter { query: None, tag: None, from_date: None, to_date: None, limit: None, offset: None }
    }
}

/// A tag and the number of clips that carry it.
#[derive(Debug, Clone)]
pub struct TagCount {
    pub tag: String,
    pub count: usize,
}

/// The mathematical value of a `TagCount`.
pub struct TagCountView {
    pub tag: Seq<char>,
    pub count: usize,
}

impl View for TagCount {
    type V = TagCountView;

    open spec fn view(&self) -> TagCountView {
        TagCountView { tag: self.tag@, count: self.count }
    }
}

impl DeepView for TagCount {
    type V = TagCountView;

    open spec fn deep_view(&self) -> TagCountView {
        self@
    }
}

/// The formats clips can be exported to.
#[derive(Debug, Clone, Copy, PartialEq, Eq, Structural)]
pub enum ExportFormat {
    Json,
    Csv,
    Html,
}

impl ExportFormat {
    /// The lower-case name of the format (`json`, `csv` or `html`).
    pub fn as_str(&self) -> (s: &'static str)
        ensures
            s@ == (match *self {
                ExportFormat::Json => "json"@,
                ExportFormat::Csv => "csv"@,
                ExportFormat::Html => "html"@,
            }),
    {
        match self {
            ExportFormat::Json => "json",
            ExportFormat::Csv => "csv",
            ExportFormat::Html => "html",
        }
    }
}

} // verus!
