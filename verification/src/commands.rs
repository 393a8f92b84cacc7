//! What the commands of the program decide before and after they touch the
//! store: tag lists typed by the user, the clip saved without fetching, the
//! tags an edit leaves, the filters of `search`, `list` and `export`, and
//! the texts they print.
use vstd::prelude::*;
use crate::cli::{EditArgs, ExportArgs, ListArgs, SearchArgs};
use crate::clock::{day_start_utc, parse_day_start_utc};
use crate::models::{ClipFilter, NewClip, NewClipView, Timestamp};
use crate::tags::{add_tags, remove_tags, trim_all, with_added_tags, without_tags};
use crate::text::{join, join_spec, owned, split_on, split_spec, trim, trim_spec};

verus! {

/// The pieces of `ps` that are not empty, in order.
pub open spec fn non_empty(ps: Seq<Seq<char>>) -> Seq<Seq<char>>
    decreases ps.len(),
{
    if ps.len() == 0 {
        ps
    } else if ps.last().len() > 0 {
        non_empty(ps.drop_last()).push(ps.last())
    } else {
        non_empty(ps.drop_last())
    }
}

/// The tags of a comma-separated list: each piece trimmed, empty ones
/// dropped.
pub open spec fn tag_list(s: Seq<char>) -> Seq<Seq<char>> {
    non_empty(trim_all(split_spec(s, ',')))
}

/// The tags of a comma-separated list: each piece trimmed, empty ones
/// dropped.
pub fn parse_tag_list(s: &str) -> (r: Vec<String>)
    ensures
        r.deep_view() == tag_list(s@),
{
    let pieces = split_on(s, ',');
    let ghost tv = trim_all(pieces.deep_view());
    let mut out: Vec<String> = Vec::new();
    let n = pieces.len();
    for i in 0..n
        invariant
            n == pieces.len(),
            pieces.deep_view() == split_spec(s@, ','),
            tv == trim_all(pieces.deep_view()),
            out.deep_view() == non_empty(tv.take(i as int)),
    {
        proof {
            let t = tv.take(i + 1);
            assert(t.drop_last() == tv.take(i as int));
            assert(t.last() == trim_spec(pieces[i as int]@));
        }
        let piece = trim(pieces[i].as_str());
        if !piece.is_empty() {
            let ghost prev = out.deep_view();
            out.push(owned(piece));
            assert(out.deep_view() =~= prev.push(piece@));
        }
    }
    assert(tv.take(n as int) == tv);
    out
}

/// The clip saved for a url without fetching its page: the title given,
/// else the url, and nothing else but the tags and notes.
pub open spec fn unfetched_clip(
    url: Seq<char>,
    title: Option<Seq<char>>,
    tags: Seq<Seq<char>>,
    notes: Option<Seq<char>>,
) -> NewClipView {
    NewClipView {
        url,
        title: match title {
            Some(t) => t,
            None => url,
        },
        description: None,
        tags,
        notes,
        content_text: None,
        screenshot_path: None,
        favicon_url: None,
        author: None,
        site_name: None,
        reading_time_mins: None,
    }
}

/// The clip saved for a url without fetching its page.
pub fn clip_without_fetch(
    url: &str,
    title: Option<String>,
    tags: Vec<String>,
    notes: Option<String>,
) -> (c: NewClip)
    ensures
        c@ == unfetched_clip(url@, title.deep_view(), tags.deep_view(), notes.deep_view()),
{
    let title = match title {
        Some(t) => t,
        None => owned(url),
    };
    NewClip {
        url: owned(url),
        title,
        description: None,
        tags,
        notes,
        content_text: None,
        screenshot_path: None,
        favicon_url: None,
        author: None,
        site_name: None,
        reading_time_mins: None,
    }
}

/// The tags a clip has after `edit`: the list given with `--tags` (else the
/// clip's), then the `--add-tag` ones added and the `--remove-tag` ones
/// removed (both trimmed and lower-cased).
pub open spec fn edited_tags(
    existing: Seq<Seq<char>>,
    set: Option<Seq<char>>,
    add: Option<Seq<char>>,
    remove: Option<Seq<char>>,
) -> Seq<Seq<char>> {
    let t0 = match set {
        Some(s) => tag_list(s),
        None => existing,
    };
    let t1 = match add {
        Some(a) => with_added_tags(t0, split_spec(a, ',')),
        None => t0,
    };
    match remove {
        Some(r) => without_tags(t1, split_spec(r, ',')),
        None => t1,
    }
}

/// The tags a clip has after `edit`.
pub fn edit_tags(existing: &Vec<String>, args: &EditArgs) -> (r: Vec<String>)
    ensures
        r.deep_view() == edited_tags(
            existing.deep_view(),
            args.tags.deep_view(),
            args.add_tag.deep_view(),
            args.remove_tag.deep_view(),
        ),
{
    let mut tags = match &args.tags {
        Some(s) => parse_tag_list(s.as_str()),
        None => existing.clone(),
    };
    proof {
        if args.tags is None {
            assert(tags.deep_view() =~= existing.deep_view());
        }
    }
    if let Some(a) = &args.add_tag {
        let pieces = split_on(a.as_str(), ',');
        let added = add_tags(&tags, pieces.as_slice());
        assert(pieces@.map_values(|s: String| s@) =~= pieces.deep_view());
        tags = added;
    }
    if let Some(rm) = &args.remove_tag {
        let pieces = split_on(rm.as_str(), ',');
        let kept = remove_tags(&tags, pieces.as_slice());
        assert(pieces@.map_values(|s: String| s@) =~= pieces.deep_view());
        tags = kept;
    }
    tags
}

/// Why the filter of a command could not be made.
#[derive(Debug, Clone)]
pub enum FilterError {
    /// A date bound is not a day in the form YYYY-MM-DD.
    InvalidDate(String),
}

impl FilterError {
    /// The message shown for this error.
    pub fn message(&self) -> (m: String)
        ensures
            self matches FilterError::InvalidDate(d) ==> m@ == "Invalid date format '"@ + d@
                + "', expected YYYY-MM-DD"@,
    {
        match self {
            FilterError::InvalidDate(d) => {
                let mut m = owned("Invalid date format '");
                m.append(d.as_str());
                m.append("', expected YYYY-MM-DD");
                m
            },
        }
    }
}

/// The start, in UTC, of the day `d` written as YYYY-MM-DD.
pub open spec fn day_bound(d: Seq<char>) -> Option<Seq<char>> {
    day_start_utc(d, "%Y-%m-%d"@)
}

/// The date bound read from an optional day.
fn date_bound(day: &Option<String>) -> (r: Result<Option<Timestamp>, FilterError>)
    ensures
        match day {
            Some(d) => match day_bound(d@) {
                Some(t) => r matches Ok(Some(ts)) && ts.rfc3339@ == t,
                None => r matches Err(FilterError::InvalidDate(e)) && e@ == d@,
            },
            None => r matches Ok(None),
        },
{
    match day {
        Some(d) => match parse_day_start_utc(d.as_str(), "%Y-%m-%d") {
            Some(t) => Ok(Some(Timestamp { rfc3339: t })),
            None => Err(FilterError::InvalidDate(d.clone())),
        },
        None => Ok(None),
    }
}

/// The filter of `search`: its text, tag, limit and the days it is bounded
/// by (the start of each, in UTC). Fails on a day that does not read as
/// YYYY-MM-DD, the lower bound first.
pub fn search_filter(args: &SearchArgs) -> (r: Result<ClipFilter, FilterError>)
    ensures
        match (args.from, args.to) {
            (Some(f), _) if day_bound(f@) is None => r matches Err(FilterError::InvalidDate(e))
                && e@ == f@,
            (_, Some(t)) if day_bound(t@) is None && (args.from matches Some(f) ==> day_bound(f@) is Some) =>
                r matches Err(FilterError::InvalidDate(e)) && e@ == t@,
            _ => r is Ok,
        },
        r is Ok ==> {
            let f = r->Ok_0@;
            &&& f.query == args.query.deep_view()
            &&& f.tag == args.tag.deep_view()
            &&& f.from_date == (match args.from {
                Some(d) => day_bound(d@),
                None => None,
            })
            &&& f.to_date == (match args.to {
                Some(d) => day_bound(d@),
                None => None,
            })
            &&& f.limit == args.limit
            &&& f.offset is None
        },
{
    let from_date = date_bound(&args.from)?;
    let to_date = date_bound(&args.to)?;
    Ok(
        ClipFilter {
            query: args.query.clone(),
            tag: args.tag.clone(),
            from_date,
            to_date,
            limit: args.limit,
            offset: None,
        },
    )
}

/// The filter of `list`: its tag and limit.
pub fn list_filter(args: &ListArgs) -> (f: ClipFilter)
    ensures
        f@.query is None,
        f@.tag == args.tag.deep_view(),
        f@.from_date is None,
        f@.to_date is None,
        f@.limit == Some(args.limit),
        f@.offset is None,
{
    ClipFilter {
        query: None,
        tag: args.tag.clone(),
        from_date: None,
        to_date: None,
        limit: Some(args.limit),
        offset: None,
    }
}

/// The filter of `export`: its search text and tag.
pub fn export_filter(args: &ExportArgs) -> (f: ClipFilter)
    ensures
        f@.query == args.query.deep_view(),
        f@.tag == args.tag.deep_view(),
        f@.from_date is None,
        f@.to_date is None,
        f@.limit is None,
        f@.offset is None,
{
    ClipFilter {
        query: args.query.clone(),
        tag: args.tag.clone(),
        from_date: None,
        to_date: None,
        limit: None,
        offset: None,
    }
}

/// The heading of `list`.
pub fn list_heading(tag: &Option<String>) -> (h: String)
    ensures
        h@ == (match tag {
            Some(t) => "Clips tagged '#"@ + t@ + "'"@,
            None => "Saved Clips"@,
        }),
{
    match tag {
        Some(t) => {
            let mut h = owned("Clips tagged '#");
            h.append(t.as_str());
            h.append("'");
            h
        },
        None => owned("Saved Clips"),
    }
}

/// Whether an answer to a confirmation prompt is yes: `y` or `Y`, blanks
/// around it aside.
pub fn is_confirmation(answer: &str) -> (yes: bool)
    ensures
        yes == (trim_spec(answer@) == seq!['y'] || trim_spec(answer@) == seq!['Y']),
{
    let t = trim(answer);
    if t.unicode_len() != 1 {
        return false;
    }
    let c = t.get_char(0);
    assert(c == 'y' ==> t@ =~= seq!['y']);
    assert(c == 'Y' ==> t@ =~= seq!['Y']);
    c == 'y' || c == 'Y'
}

/// Each tag with `#` before it.
pub open spec fn hashed(tags: Seq<Seq<char>>) -> Seq<Seq<char>> {
    tags.map_values(|t: Seq<char>| seq!['#'] + t)
}

/// The tags of a clip as a table cell shows them: each with `#` before it,
/// separated by spaces.
pub fn tags_cell(tags: &Vec<String>) -> (r: String)
    ensures
        r@ == join_spec(hashed(tags.deep_view()), seq![' ']),
{
    let mut marked: Vec<String> = Vec::new();
    let n = tags.len();
    for i in 0..n
        invariant
            n == tags.len(),
            marked.deep_view() == hashed(tags.deep_view().take(i as int)),
    {
        let mut t = owned("#");
        proof {
            reveal_strlit("#");
            assert("#"@ =~= seq!['#']);
        }
        t.append(tags[i].as_str());
        assert(tags.deep_view()[i as int] == tags[i as int]@);
        let ghost prev = marked.deep_view();
        let ghost tv = t@;
        marked.push(t);
        assert(marked.deep_view() =~= prev.push(tv));
        assert(hashed(tags.deep_view().take(i + 1)) =~= hashed(tags.deep_view().take(i as int)).push(
            seq!['#'] + tags[i as int]@,
        ));
    }
    assert(tags.deep_view().take(n as int) == tags.deep_view());
    proof {
        reveal_strlit(" ");
        assert(" "@ =~= seq![' ']);
    }
    join(&marked, " ")
}

} // verus!
