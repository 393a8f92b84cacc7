//! The clip store: clips and their tags in SQLite, with full-text search.
use vstd::prelude::*;
use crate::clock::{now_rfc3339, parse_rfc3339_utc, rfc3339_utc};
use crate::models::{
    opt_stamp, Clip, ClipFilter, ClipFilterView, ClipView, NewClip, NewClipView, TagCount,
    TagCountView, Timestamp, UpdateClip, UpdateClipView,
};
use crate::sql::{
    clip_columns, clips_with_tag, col_description, col_notes, col_tags, col_title, col_url, filter_pred,
    fts_match, fts_pred, is_text_or_null, like_pred, opt_text_val, row_id, row_updated,
    row_width, sorted_matches, sql_error_text, sql_execute, sql_execute_batch,
    sql_last_insert_rowid, sql_like, sql_open, sql_open_in_memory, sql_query, stored_clips,
    blank_memory, clip_seq, conn_path, like_readable, clip_filter_holds, col_content, foreign_keys_on, is_infix, sole_store,
    stored_tags, tag_names, tags_without, text_le, unordered_selection, url_taken, window_end,
    window_rows, window_start, CLIP_IDS_WITH_TAG_SQL, COUNT_CLIPS_SQL, DELETE_CLIP_SQL,
    DELETE_CLIP_TAGS_SQL, INSERT_CLIP_SQL, INSERT_TAG_SQL, LIST_CLIPS_SQL, LIST_TAGS_SQL,
    MIGRATIONS_TABLE_SQL, PRAGMA_FILE_SQL, PRAGMA_MEMORY_SQL, RECORD_MIGRATION_SQL, SCHEMA_SQL,
    SCHEMA_VERSION_SQL, SEARCH_FTS_SQL, SEARCH_LIKE_SQL, SELECT_CLIP_BY_ID_SQL,
    SELECT_CLIP_BY_URL_SQL, SqlVal, SqlValue, UPDATE_CLIP_SQL,
};
use crate::tags::{
    add_tags, clean_tags, clean_tags_spec, drop_tag, normalize_tag, normalize_tag_spec,
    parse_tags_column, remove_tags, rename_in_tags, renamed_tags, tags_column_text, tags_except,
    tags_from_column, with_added_tags, without_tags,
};
use crate::text::{i64_text, join, lowercase, owned, str_eq, to_lowercase, trim, trim_spec};
use crate::query::{fts_query, fts_query_text, like_pattern, like_query};

verus! {

/// Why a store operation failed.
#[derive(Debug, Clone)]
pub enum DbError {
    /// SQLite reported an error; its message.
    Sqlite(String),
    /// No clip has this id.
    ClipNotFound(i64),
    /// A stored row does not hold values of the types its columns declare.
    InvalidRow,
    /// The clip just inserted could not be read back.
    InsertedClipMissing,
    /// The clip just updated could not be read back.
    UpdatedClipMissing,
    /// A limit or offset does not fit a SQLite integer.
    LimitOutOfRange,
}

impl DbError {
    /// The message shown for this error.
    pub fn message(&self) -> (m: String)
        ensures
            self matches DbError::Sqlite(s) ==> m@ == s@,
            self matches DbError::ClipNotFound(id) ==> m@ == "Clip with ID "@ + crate::text::signed_decimal(id as int) + " not found"@,
            self is InvalidRow ==> m@ == "Invalid column type in stored clip row"@,
            self is InsertedClipMissing ==> m@ == "Failed to retrieve newly inserted clip"@,
            self is UpdatedClipMissing ==> m@ == "Failed to retrieve updated clip"@,
            self is LimitOutOfRange ==> m@ == "Limit or offset out of range"@,
    {
        match self {
            DbError::Sqlite(s) => s.clone(),
            DbError::ClipNotFound(id) => {
                let mut m = owned("Clip with ID ");
                let digits = i64_text(*id);
                m.append(digits.as_str());
                m.append(" not found");
                m
            },
            DbError::InvalidRow => owned("Invalid column type in stored clip row"),
            DbError::InsertedClipMissing => owned("Failed to retrieve newly inserted clip"),
            DbError::UpdatedClipMissing => owned("Failed to retrieve updated clip"),
            DbError::LimitOutOfRange => owned("Limit or offset out of range"),
        }
    }
}

fn sqlite_error(e: &rusqlite::Error) -> (d: DbError)
    ensures
        d is Sqlite,
{
    DbError::Sqlite(sql_error_text(e))
}

/// The tables of a store: clip rows keyed by id, and (clip id, tag) pairs;
/// and whether the store is whole: it has the library's schema, only this
/// connection writes to it, and foreign keys are enforced. What the store's
/// operations promise holds of a whole store.
pub struct DbView {
    pub clips: Map<i64, Seq<SqlVal>>,
    pub tags: Set<(i64, Seq<char>)>,
    /// The largest clip id handed out so far (0 on a new store): the next
    /// clip saved gets the one after it.
    pub seq: i64,
    pub whole: bool,
}

/// The text of a value that is optional text.
pub open spec fn text_of_opt(v: SqlVal) -> Option<Seq<char>> {
    match v {
        SqlVal::Text(t) => Some(t),
        _ => None,
    }
}

/// A date as it is read back: the UTC rendering of the stored text when it
/// parses (otherwise the clock at the time of reading, in UTC).
pub open spec fn date_read(d: Seq<char>, v: SqlVal) -> bool {
    match rfc3339_utc(v->Text_0) {
        Some(n) => d == n,
        None => rfc3339_utc(d) == Some(d),
    }
}

/// The columns of a clip result row hold values of their declared types.
pub open spec fn row_well_typed(cols: Seq<SqlVal>) -> bool {
    &&& cols.len() == 14
    &&& cols[0] is Integer
    &&& cols[1] is Text
    &&& cols[2] is Text
    &&& is_text_or_null(cols[3])
    &&& cols[4] is Text
    &&& is_text_or_null(cols[5])
    &&& is_text_or_null(cols[6])
    &&& is_text_or_null(cols[7])
    &&& is_text_or_null(cols[8])
    &&& is_text_or_null(cols[9])
    &&& is_text_or_null(cols[10])
    &&& (cols[11] is Null || (cols[11] is Integer && 0 <= cols[11]->Integer_0 <= u32::MAX))
    &&& cols[12] is Text
    &&& cols[13] is Text
}

/// `c` is the clip read from the result row `cols`.
pub open spec fn reads_as(c: ClipView, cols: Seq<SqlVal>) -> bool {
    &&& row_well_typed(cols)
    &&& c.id == cols[0]->Integer_0
    &&& c.url == cols[1]->Text_0
    &&& c.title == cols[2]->Text_0
    &&& c.description == text_of_opt(cols[3])
    &&& c.tags == tags_from_column(cols[4]->Text_0)
    &&& c.notes == text_of_opt(cols[5])
    &&& c.content_text == text_of_opt(cols[6])
    &&& c.screenshot_path == text_of_opt(cols[7])
    &&& c.favicon_url == text_of_opt(cols[8])
    &&& c.author == text_of_opt(cols[9])
    &&& c.site_name == text_of_opt(cols[10])
    &&& c.reading_time_mins == (match cols[11] {
        SqlVal::Integer(i) => Some(i as u32),
        _ => None,
    })
    &&& date_read(c.date_saved, cols[12])
    &&& date_read(c.date_updated, cols[13])
}

/// The stored value of an optional reading time.
pub open spec fn reading_val(m: Option<u32>) -> SqlVal {
    match m {
        Some(v) => SqlVal::Integer(v as i64),
        None => SqlVal::Null,
    }
}

/// The row `insert_clip` stores for a new clip saved at `date`.
pub open spec fn new_clip_row(n: NewClipView, date: Seq<char>) -> Seq<SqlVal> {
    seq![
        SqlVal::Text(n.url),
        SqlVal::Text(n.title),
        opt_text_val(n.description),
        SqlVal::Text(tags_column_text(clean_tags_spec(n.tags))),
        opt_text_val(n.notes),
        opt_text_val(n.content_text),
        opt_text_val(n.screenshot_path),
        opt_text_val(n.favicon_url),
        opt_text_val(n.author),
        opt_text_val(n.site_name),
        reading_val(n.reading_time_mins),
        SqlVal::Text(date),
        SqlVal::Text(date),
    ]
}

/// The (clip id, tag) pairs that tie the tags `ts` to clip `id`.
pub open spec fn tag_rows_of(id: i64, ts: Seq<Seq<char>>) -> Set<(i64, Seq<char>)> {
    Set::new(|p: (i64, Seq<char>)| p.0 == id && ts.contains(p.1))
}

/// The tags of a stored row, as they are read back.
pub open spec fn existing_tags(row: Seq<SqlVal>) -> Seq<Seq<char>> {
    tags_from_column(row[col_tags()]->Text_0)
}

/// The tag list a clip has after `u` is applied to its stored row.
pub open spec fn updated_tag_list(row: Seq<SqlVal>, u: UpdateClipView) -> Seq<Seq<char>> {
    match u.tags {
        Some(t) => clean_tags_spec(t),
        None => existing_tags(row),
    }
}

/// `o`, or else `fallback`.
pub open spec fn or_else(o: Option<Seq<char>>, fallback: Option<Seq<char>>) -> Option<Seq<char>> {
    match o {
        Some(v) => Some(v),
        None => fallback,
    }
}

/// The values `update_clip` writes over a stored row: the new title,
/// description, tags, notes and update date, and the id.
pub open spec fn update_values(row: Seq<SqlVal>, u: UpdateClipView, date: Seq<char>) -> Seq<SqlVal> {
    seq![
        SqlVal::Text(
            match u.title {
                Some(t) => t,
                None => row[col_title()]->Text_0,
            },
        ),
        opt_text_val(or_else(u.description, text_of_opt(row[col_description()]))),
        SqlVal::Text(tags_column_text(updated_tag_list(row, u))),
        opt_text_val(or_else(u.notes, text_of_opt(row[col_notes()]))),
        SqlVal::Text(date),
        SqlVal::Integer(u.id),
    ]
}

/// A stored row after `u` is applied at `date`.
pub open spec fn updated_clip_row(row: Seq<SqlVal>, u: UpdateClipView, date: Seq<char>) -> Seq<
    SqlVal,
> {
    row_updated(row, update_values(row, u, date))
}

/// The store's tag pairs after clip `id` gets the tag list `ts`.
pub open spec fn retagged(tags: Set<(i64, Seq<char>)>, id: i64, ts: Seq<Seq<char>>) -> Set<
    (i64, Seq<char>),
> {
    tags_without(tags, id).union(tag_rows_of(id, ts))
}

/// `after` is the store `before` with the update `u` applied to clip `u.id`
/// at some instant `date` that reads back unchanged.
pub open spec fn updated_with(before: DbView, after: DbView, u: UpdateClipView) -> bool {
    &&& before.clips.contains_key(u.id)
    &&& after.seq == before.seq
    &&& exists|date: Seq<char>|
        rfc3339_utc(date) == Some(date) && after.clips == #[trigger] before.clips.insert(
            u.id,
            updated_clip_row(before.clips[u.id], u, date),
        )
    &&& after.tags == retagged(before.tags, u.id, updated_tag_list(before.clips[u.id], u))
}

/// `after` is `before` with the update `u` written to the row of clip
/// `u.id` (at some instant), and of its tag pairs the old ones kept or gone
/// and only some (maybe none) of the new ones there: what an update that
/// SQLite stopped part-way leaves.
pub open spec fn partly_updated(before: DbView, after: DbView, u: UpdateClipView) -> bool {
    &&& before.clips.contains_key(u.id)
    &&& after.seq == before.seq
    &&& exists|date: Seq<char>|
        after.clips == #[trigger] before.clips.insert(
            u.id,
            updated_clip_row(before.clips[u.id], u, date),
        )
    &&& tags_without(before.tags, u.id).subset_of(after.tags)
    &&& after.tags.subset_of(
        before.tags.union(tag_rows_of(u.id, updated_tag_list(before.clips[u.id], u))),
    )
}

/// The value a filter's tag is compared with: the tag in lower case.
pub open spec fn tag_val(f: ClipFilterView) -> SqlVal {
    match f.tag {
        Some(t) => SqlVal::Text(lowercase(t)),
        None => SqlVal::Null,
    }
}

/// The row limit of a filter (-1 for none).
pub open spec fn limit_val(f: ClipFilterView) -> i64 {
    match f.limit {
        Some(l) => l as i64,
        None => -1i64,
    }
}

/// The rows a listing skips: the offset, which counts only with a limit.
pub open spec fn offset_val(f: ClipFilterView) -> i64 {
    match (f.limit, f.offset) {
        (Some(_), Some(o)) => o as i64,
        _ => 0i64,
    }
}

/// The limit and offset of a filter fit a SQLite integer.
pub open spec fn limits_fit(f: ClipFilterView) -> bool {
    &&& (f.limit matches Some(l) ==> l <= i64::MAX)
    &&& f.limit is Some ==> (f.offset matches Some(o) ==> o <= i64::MAX)
}

/// The filter carries a search text that is not blank.
pub open spec fn is_search(f: ClipFilterView) -> bool {
    f.query matches Some(q) && trim_spec(q).len() > 0
}

/// The tag and date conditions of a filter, on a stored row.
pub open spec fn listing_pred(tags: Set<(i64, Seq<char>)>, f: ClipFilterView) -> spec_fn(
    i64,
    Seq<SqlVal>,
) -> bool {
    filter_pred(tags, tag_val(f), opt_text_val(f.from_date), opt_text_val(f.to_date))
}

/// The conditions of a `LIKE` search for the filter's search text.
pub open spec fn like_search_pred(tags: Set<(i64, Seq<char>)>, f: ClipFilterView) -> spec_fn(
    i64,
    Seq<SqlVal>,
) -> bool {
    let pattern = like_pattern(
        match f.query {
            Some(q) => q,
            None => Seq::<char>::empty(),
        },
    );
    like_pred(
        tags,
        tag_val(f),
        opt_text_val(f.from_date),
        opt_text_val(f.to_date),
        |v: SqlVal| sql_like(pattern, v),
    )
}

/// The conditions of a full-text search for the filter's search text.
pub open spec fn fts_search_pred(tags: Set<(i64, Seq<char>)>, f: ClipFilterView) -> spec_fn(
    i64,
    Seq<SqlVal>,
) -> bool {
    let query = fts_query_text(
        trim_spec(
            match f.query {
                Some(q) => q,
                None => Seq::<char>::empty(),
            },
        ),
    );
    fts_pred(
        tags,
        tag_val(f),
        opt_text_val(f.from_date),
        opt_text_val(f.to_date),
        |row: Seq<SqlVal>| fts_match(query, row),
    )
}

/// `cs` are the clips read from the rows of the ids `all` that
/// `LIMIT limit OFFSET offset` keeps.
pub open spec fn clips_at(
    v: DbView,
    all: Seq<i64>,
    limit: i64,
    offset: i64,
    cs: Seq<ClipView>,
) -> bool {
    let s = window_start(all.len() as int, offset);
    &&& cs.len() == window_end(all.len() as int, limit, offset) - s
    &&& forall|i: int|
        0 <= i < cs.len() ==> (#[trigger] cs[i]).id == all[s + i] && reads_as(
            cs[i],
            clip_columns(all[s + i], v.clips[all[s + i]]),
        )
}

/// `cs` are the clips whose rows satisfy `pred`, latest saved first, that
/// `LIMIT limit OFFSET offset` keeps.
pub open spec fn clips_window(
    v: DbView,
    pred: spec_fn(i64, Seq<SqlVal>) -> bool,
    limit: i64,
    offset: i64,
    cs: Seq<ClipView>,
) -> bool {
    exists|all: Seq<i64>| #[trigger] sorted_matches(v.clips, pred, all) && clips_at(v, all, limit, offset, cs)
}

/// `cs` are clips, each once and in an order not stated, whose rows satisfy
/// `pred`; at most `limit` of them, and with no limit every such clip whose
/// row reads as a clip.
pub open spec fn clips_found(
    v: DbView,
    pred: spec_fn(i64, Seq<SqlVal>) -> bool,
    limit: i64,
    cs: Seq<ClipView>,
) -> bool {
    &&& forall|i: int|
        0 <= i < cs.len() ==> v.clips.contains_key((#[trigger] cs[i]).id) && pred(
            cs[i].id,
            v.clips[cs[i].id],
        ) && reads_as(cs[i], clip_columns(cs[i].id, v.clips[cs[i].id]))
    &&& forall|i: int, j: int| 0 <= i < j < cs.len() ==> (#[trigger] cs[i]).id != (#[trigger] cs[j]).id
    &&& limit >= 0 ==> cs.len() <= limit
    &&& limit < 0 ==> forall|id: i64|
        #[trigger] v.clips.contains_key(id) && pred(id, v.clips[id]) && row_well_typed(
            clip_columns(id, v.clips[id]),
        ) ==> exists|i: int| 0 <= i < cs.len() && (#[trigger] cs[i]).id == id
}

/// The clips a listing returns: those the filter's tag and dates select,
/// latest saved first, cut by its limit and offset.
pub open spec fn listed(v: DbView, f: ClipFilterView, cs: Seq<ClipView>) -> bool {
    clips_window(v, listing_pred(v.tags, f), limit_val(f), offset_val(f), cs)
}

/// The clips a search returns: a non-empty full-text result, or else the
/// `LIKE` search on the search text (no offset in either).
pub open spec fn searched(v: DbView, f: ClipFilterView, cs: Seq<ClipView>) -> bool {
    ||| cs.len() > 0 && clips_found(v, fts_search_pred(v.tags, f), limit_val(f), cs)
    ||| clips_window(v, like_search_pred(v.tags, f), limit_val(f), 0, cs)
}

/// The value is a text without a NUL that holds `q`, and `q` is short
/// enough for a `LIKE` pattern (see `like_readable`).
pub open spec fn text_holds(v: SqlVal, q: Seq<char>) -> bool {
    v matches SqlVal::Text(t) && is_infix(q, t) && like_readable(q, t)
}

/// A stored clip row holds `q` in its title, description, content text,
/// notes, tags or url.
pub open spec fn row_holds_text(row: Seq<SqlVal>, q: Seq<char>) -> bool {
    ||| text_holds(row[col_title()], q)
    ||| text_holds(row[col_description()], q)
    ||| text_holds(row[col_content()], q)
    ||| text_holds(row[col_notes()], q)
    ||| text_holds(row[col_tags()], q)
    ||| text_holds(row[col_url()], q)
}

/// The filter has a search text and a limit other than 0, and some stored
/// clip meets its tag and dates and holds the search text, as typed, in a
/// searched column.
pub open spec fn text_present(v: DbView, f: ClipFilterView) -> bool {
    &&& f.query is Some
    &&& limit_val(f) != 0
    &&& exists|id: i64|
        #[trigger] v.clips.contains_key(id) && clip_filter_holds(
            v.tags,
            tag_val(f),
            opt_text_val(f.from_date),
            opt_text_val(f.to_date),
            id,
            v.clips[id],
        ) && row_holds_text(v.clips[id], f.query->Some_0)
}

/// `c` is the clip read from one of the result rows `rows`.
pub open spec fn read_from_one_of(c: ClipView, rows: Seq<Seq<SqlVal>>) -> bool {
    exists|j: int| 0 <= j < rows.len() && reads_as(c, #[trigger] rows[j])
}

/// The update that gives clip `id` the tag list `ts` and changes nothing else.
pub open spec fn retag_update(id: i64, ts: Seq<Seq<char>>) -> UpdateClipView {
    UpdateClipView { id, title: None, description: None, tags: Some(ts), notes: None }
}

/// The texts of a list of strings.
pub open spec fn texts_of(v: Seq<String>) -> Seq<Seq<char>> {
    v.map_values(|s: String| s@)
}

/// `ts` lists each tag of the store once with the number of clips that
/// carry it, the most used first and equally used ones by their text.
pub open spec fn tag_counts(tags: Set<(i64, Seq<char>)>, ts: Seq<TagCountView>) -> bool {
    &&& forall|i: int|
        0 <= i < ts.len() ==> tag_names(tags).contains((#[trigger] ts[i]).tag) && ts[i].count
            == clips_with_tag(tags, ts[i].tag).len()
    &&& forall|t: Seq<char>|
        #[trigger] tag_names(tags).contains(t) ==> exists|i: int|
            0 <= i < ts.len() && (#[trigger] ts[i]).tag == t
    &&& forall|i: int, j: int|
        0 <= i < j < ts.len() ==> {
            let (a, b) = (#[trigger] ts[i], #[trigger] ts[j]);
            &&& a.tag != b.tag
            &&& (a.count > b.count || (a.count == b.count && text_le(a.tag, b.tag)))
        }
}

/// Clip row `new_row` is `row` of clip `id` after its tag list became
/// `f` of the tags it had, at some instant that reads back unchanged.
pub open spec fn retagged_row(
    row: Seq<SqlVal>,
    new_row: Seq<SqlVal>,
    id: i64,
    f: spec_fn(Seq<Seq<char>>) -> Seq<Seq<char>>,
) -> bool {
    exists|date: Seq<char>|
        rfc3339_utc(date) == Some(date) && new_row == #[trigger] updated_clip_row(
            row,
            retag_update(id, f(existing_tags(row))),
            date,
        )
}

/// Whether the store `after` that results from retagging the clips `ids`
/// of `before` with `f` ties clip `p.0` to tag `p.1`.
pub open spec fn retagged_pair(
    before: DbView,
    ids: Set<i64>,
    f: spec_fn(Seq<Seq<char>>) -> Seq<Seq<char>>,
    p: (i64, Seq<char>),
) -> bool {
    if ids.contains(p.0) && before.clips.contains_key(p.0) {
        clean_tags_spec(f(existing_tags(before.clips[p.0]))).contains(p.1)
    } else {
        before.tags.contains(p)
    }
}

/// `after` is `before` with each stored clip of `ids` given the tag list `f`
/// of the tags it had (as `update_clip` does), and nothing else changed.
pub open spec fn retag_each(
    before: DbView,
    after: DbView,
    ids: Set<i64>,
    f: spec_fn(Seq<Seq<char>>) -> Seq<Seq<char>>,
) -> bool {
    &&& after.seq == before.seq
    &&& after.clips.dom() == before.clips.dom()
    &&& forall|id: i64|
        #[trigger] before.clips.contains_key(id) && !ids.contains(id) ==> after.clips[id]
            == before.clips[id]
    &&& forall|id: i64|
        #[trigger] before.clips.contains_key(id) && ids.contains(id) ==> retagged_row(
            before.clips[id],
            after.clips[id],
            id,
            f,
        )
    &&& forall|p: (i64, Seq<char>)| #[trigger] after.tags.contains(p) <==> retagged_pair(before, ids, f, p)
}

/// Retagging one more clip, with `update_clip`, extends a retagging.
proof fn lemma_retag_step(
    before: DbView,
    mid: DbView,
    after: DbView,
    done: Set<i64>,
    id: i64,
    f: spec_fn(Seq<Seq<char>>) -> Seq<Seq<char>>,
)
    requires
        retag_each(before, mid, done, f),
        !done.contains(id),
        before.clips.contains_key(id) ==> updated_with(
            mid,
            after,
            retag_update(id, f(existing_tags(before.clips[id]))),
        ),
        !before.clips.contains_key(id) ==> after == mid,
    ensures
        retag_each(before, after, done.insert(id), f),
{
    let ids = done.insert(id);
    if before.clips.contains_key(id) {
        let u = retag_update(id, f(existing_tags(before.clips[id])));
        assert(mid.clips.contains_key(id));
        assert(mid.clips[id] == before.clips[id]);
        let date = choose|date: Seq<char>|
            rfc3339_utc(date) == Some(date) && after.clips == #[trigger] mid.clips.insert(
                id,
                updated_clip_row(mid.clips[id], u, date),
            );
        assert(after.clips.dom() =~= before.clips.dom());
        assert(retagged_row(before.clips[id], after.clips[id], id, f));
        assert forall|c: i64| #[trigger] before.clips.contains_key(c) && ids.contains(c) implies retagged_row(
            before.clips[c],
            after.clips[c],
            c,
            f,
        ) by {
            if c != id {
                assert(after.clips[c] == mid.clips[c]);
            }
        }
        assert forall|p: (i64, Seq<char>)| #[trigger] after.tags.contains(p) <==> retagged_pair(
            before,
            ids,
            f,
            p,
        ) by {
            assert(updated_tag_list(mid.clips[id], u) == clean_tags_spec(
                f(existing_tags(before.clips[id])),
            ));
            assert(after.tags.contains(p) <==> (tags_without(mid.tags, id).contains(p) || tag_rows_of(
                id,
                clean_tags_spec(f(existing_tags(before.clips[id]))),
            ).contains(p)));
            if p.0 != id {
                assert(retagged_pair(before, ids, f, p) == retagged_pair(before, done, f, p));
                assert(mid.tags.contains(p) <==> retagged_pair(before, done, f, p));
            }
        }
    } else {
        assert forall|p: (i64, Seq<char>)| #[trigger] after.tags.contains(p) <==> retagged_pair(
            before,
            ids,
            f,
            p,
        ) by {
            assert(mid.tags.contains(p) <==> retagged_pair(before, done, f, p));
        }
    }
}

/// A change made to the tag list of every clip that carries a tag.
enum TagEdit {
    /// The first `old` is dropped and `new` appended unless present.
    Rename { old: String, new: String },
    /// Every `tag` is dropped.
    Drop { tag: String },
}

impl TagEdit {
    /// The tag list a clip gets from the one it has.
    spec fn edit(&self) -> spec_fn(Seq<Seq<char>>) -> Seq<Seq<char>> {
        match self {
            TagEdit::Rename { old, new } => |ts: Seq<Seq<char>>| renamed_tags(ts, old@, new@),
            TagEdit::Drop { tag } => |ts: Seq<Seq<char>>| tags_except(ts, tag@),
        }
    }

    fn apply(&self, ts: &Vec<String>) -> (r: Vec<String>)
        ensures
            r.deep_view() == (self.edit())(ts.deep_view()),
    {
        match self {
            TagEdit::Rename { old, new } => rename_in_tags(ts, old.as_str(), new.as_str()),
            TagEdit::Drop { tag } => drop_tag(ts, tag.as_str()),
        }
    }
}

/// `after` is `before` with the new clip `n` saved as clip `c`, at an
/// instant that reads back unchanged, under an id and a url no clip had.
pub open spec fn inserted(before: DbView, after: DbView, n: NewClipView, c: ClipView) -> bool {
    let row = new_clip_row(n, c.date_saved);
    &&& c.id == before.seq + 1
    &&& after.seq == c.id
    &&& !before.clips.contains_key(c.id)
    &&& forall|k: i64| #[trigger] before.clips.contains_key(k) ==> k < c.id
    &&& !url_taken(before.clips, SqlVal::Text(n.url))
    &&& after.clips == before.clips.insert(c.id, row)
    &&& after.tags == before.tags.union(tag_rows_of(c.id, clean_tags_spec(n.tags)))
    &&& reads_as(c, clip_columns(c.id, row))
    &&& rfc3339_utc(c.date_saved) == Some(c.date_saved)
}

/// `after` is `before` with the row of the new clip `n` saved under an id no
/// clip had, but with only some (maybe none) of its tag pairs: what a save
/// that SQLite stopped part-way leaves.
pub open spec fn partly_inserted(before: DbView, after: DbView, n: NewClipView) -> bool {
    exists|id: i64, date: Seq<char>|
        #![trigger before.clips.insert(id, new_clip_row(n, date))]
        {
            &&& !before.clips.contains_key(id)
            &&& id == before.seq + 1
            &&& after.seq == id
            &&& after.clips == before.clips.insert(id, new_clip_row(n, date))
            &&& before.tags.subset_of(after.tags)
            &&& after.tags.subset_of(before.tags.union(tag_rows_of(id, clean_tags_spec(n.tags))))
        }
}

/// `got` is what a lookup of clip `id` in `v` finds: the clip read from its
/// row, or nothing when no clip has that id.
pub open spec fn fetched(v: DbView, id: i64, got: Option<ClipView>) -> bool {
    match got {
        Some(c) => v.clips.contains_key(id) && c.id == id && reads_as(c, clip_columns(id, v.clips[id])),
        None => !v.clips.contains_key(id),
    }
}

/// `after` is `before` with the update `u` applied, at an instant that
/// reads back unchanged, to clip `u.id`, which then reads as `c`.
pub open spec fn updated(before: DbView, after: DbView, u: UpdateClipView, c: ClipView) -> bool {
    let row = before.clips[u.id];
    &&& before.clips.contains_key(u.id)
    &&& after.seq == before.seq
    &&& row.len() == row_width()
    &&& after.clips == before.clips.insert(u.id, updated_clip_row(row, u, c.date_updated))
    &&& after.tags == retagged(before.tags, u.id, updated_tag_list(row, u))
    &&& c.id == u.id
    &&& reads_as(c, clip_columns(c.id, after.clips[c.id]))
    &&& rfc3339_utc(c.date_updated) == Some(c.date_updated)
}

/// `after` is `before` without clip `id` and its tag pairs; `existed`
/// tells whether it was there.
pub open spec fn deleted(before: DbView, after: DbView, id: i64, existed: bool) -> bool {
    &&& existed == before.clips.contains_key(id)
    &&& after.seq == before.seq
    &&& after.clips == before.clips.remove(id)
    &&& after.tags == tags_without(before.tags, id)
}

/// The errors a listing can end in: SQLite's, a stored row that does not
/// read as a clip, and a limit or offset too large, which comes exactly when
/// the filter's do not fit.
pub open spec fn listing_error(e: DbError, f: ClipFilterView) -> bool {
    &&& e is Sqlite || e is InvalidRow || e is LimitOutOfRange
    &&& e is LimitOutOfRange <==> !limits_fit(f)
}

/// Some tag is carried by more clips than a `usize` counts.
pub open spec fn tag_count_too_large(tags: Set<(i64, Seq<char>)>) -> bool {
    exists|t: Seq<char>| tag_names(tags).contains(t) && clips_with_tag(tags, t).len() > usize::MAX
}

/// A clip store on a SQLite connection.
pub struct Database {
    conn: rusqlite::Connection,
}

impl Database {
    /// The path of the database file the store is on.
    pub closed spec fn file(&self) -> Seq<char> {
        conn_path(self.conn)
    }

    /// The store's connection enforces foreign keys (so deleting a clip
    /// deletes its tag pairs).
    pub closed spec fn enforces_foreign_keys(&self) -> bool {
        foreign_keys_on(self.conn)
    }
}

impl View for Database {
    type V = DbView;

    closed spec fn view(&self) -> DbView {
        DbView {
            clips: stored_clips(self.conn),
            tags: stored_tags(self.conn),
            seq: clip_seq(self.conn),
            whole: sole_store(self.conn) && foreign_keys_on(self.conn),
        }
    }
}

fn opt_param(o: &Option<String>) -> (v: SqlValue)
    ensures
        v@ == opt_text_val(o.deep_view()),
        !(v is Real),
{
    match o {
        Some(s) => SqlValue::Text(s.clone()),
        None => SqlValue::Null,
    }
}

fn text_at(cols: &Vec<SqlValue>, i: usize) -> (r: Result<String, DbError>)
    requires
        i < cols.len(),
    ensures
        r is Ok <==> cols@[i as int] is Text,
        r is Ok ==> cols@[i as int]@ == SqlVal::Text(r->Ok_0@),
        r is Err ==> r->Err_0 is InvalidRow,
{
    match &cols[i] {
        SqlValue::Text(s) => Ok(s.clone()),
        _ => Err(DbError::InvalidRow),
    }
}

fn opt_text_at(cols: &Vec<SqlValue>, i: usize) -> (r: Result<Option<String>, DbError>)
    requires
        i < cols.len(),
    ensures
        r is Ok <==> is_text_or_null(cols@[i as int]@),
        r is Ok ==> r->Ok_0.deep_view() == text_of_opt(cols@[i as int]@),
        r is Err ==> r->Err_0 is InvalidRow,
{
    match &cols[i] {
        SqlValue::Text(s) => Ok(Some(s.clone())),
        SqlValue::Null => Ok(None),
        _ => Err(DbError::InvalidRow),
    }
}

fn date_at(cols: &Vec<SqlValue>, i: usize) -> (r: Result<Timestamp, DbError>)
    requires
        i < cols.len(),
    ensures
        r is Ok <==> cols@[i as int] is Text,
        r is Ok ==> date_read(r->Ok_0.rfc3339@, cols@[i as int]@),
        r is Err ==> r->Err_0 is InvalidRow,
{
    let text = text_at(cols, i)?;
    match parse_rfc3339_utc(text.as_str()) {
        Some(n) => Ok(Timestamp { rfc3339: n }),
        None => Ok(Timestamp { rfc3339: now_rfc3339() }),
    }
}

impl Database {
    /// The clip read from a result row of a clip query.
    fn row_to_clip(cols: &Vec<SqlValue>) -> (r: Result<Clip, DbError>)
        ensures
            r is Ok <==> row_well_typed(cols.deep_view()),
            r is Ok ==> reads_as(r->Ok_0@, cols.deep_view()),
            r is Err ==> r->Err_0 is InvalidRow,
    {
        if cols.len() != 14 {
            return Err(DbError::InvalidRow);
        }
        let id = match &cols[0] {
            SqlValue::Integer(i) => *i,
            _ => return Err(DbError::InvalidRow),
        };
        let url = text_at(cols, 1)?;
        let title = text_at(cols, 2)?;
        let description = opt_text_at(cols, 3)?;
        let tags_str = text_at(cols, 4)?;
        let notes = opt_text_at(cols, 5)?;
        let content_text = opt_text_at(cols, 6)?;
        let screenshot_path = opt_text_at(cols, 7)?;
        let favicon_url = opt_text_at(cols, 8)?;
        let author = opt_text_at(cols, 9)?;
        let site_name = opt_text_at(cols, 10)?;
        let reading_time_mins = match &cols[11] {
            SqlValue::Null => None,
            SqlValue::Integer(m) => {
                if 0 <= *m && *m <= u32::MAX as i64 {
                    Some(*m as u32)
                } else {
                    return Err(DbError::InvalidRow);
                }
            },
            _ => return Err(DbError::InvalidRow),
        };
        let date_saved = date_at(cols, 12)?;
        let date_updated = date_at(cols, 13)?;
        let tags = parse_tags_column(tags_str.as_str());
        Ok(
            Clip {
                id,
                url,
                title,
                description,
                tags,
                notes,
                content_text,
                screenshot_path,
                favicon_url,
                author,
                site_name,
                reading_time_mins,
                date_saved,
                date_updated,
            },
        )
    }

    /// Opens (creating if needed) the store in the SQLite file at `db_path`,
    /// with foreign keys and write-ahead logging on, and brings its schema up
    /// to date. The rows already in the file are kept. Whether the store is
    /// whole depends on the file (its tables may predate this schema) and on
    /// other programs writing it while it is open, so nothing is claimed of
    /// that.
    pub fn open(db_path: &str) -> (r: Result<Database, DbError>)
        ensures
            r is Ok ==> r->Ok_0.file() == db_path@ && r->Ok_0.enforces_foreign_keys(),
            r is Err ==> r->Err_0 is Sqlite,
    {
        let mut conn = match sql_open(db_path) {
            Ok(c) => c,
            Err(e) => return Err(sqlite_error(&e)),
        };
        if let Err(e) = sql_execute_batch(&mut conn, PRAGMA_FILE_SQL) {
            return Err(sqlite_error(&e));
        }
        let mut db = Database { conn };
        match db.migrate() {
            Ok(()) => Ok(db),
            Err(e) => Err(e),
        }
    }

    /// A new, empty store in memory; it is whole.
    pub fn in_memory() -> (r: Result<Database, DbError>)
        ensures
            r is Ok ==> r->Ok_0@.clips.is_empty() && r->Ok_0@.tags.is_empty() && r->Ok_0@.seq == 0
                && r->Ok_0@.whole,
            r is Err ==> r->Err_0 is Sqlite,
    {
        let mut conn = match sql_open_in_memory() {
            Ok(c) => c,
            Err(e) => return Err(sqlite_error(&e)),
        };
        if let Err(e) = sql_execute_batch(&mut conn, PRAGMA_MEMORY_SQL) {
            return Err(sqlite_error(&e));
        }
        let mut db = Database { conn };
        match db.migrate() {
            Ok(()) => Ok(db),
            Err(e) => Err(e),
        }
    }

    /// Creates the tables, indexes and triggers unless the recorded schema
    /// version says they exist; the rows of the store are left as they are.
    /// On a blank in-memory database with foreign keys on, success makes the
    /// store whole.
    fn migrate(&mut self) -> (r: Result<(), DbError>)
        ensures
            old(self)@.whole ==> final(self)@ == old(self)@,
            final(self).file() == old(self).file(),
            final(self).enforces_foreign_keys() == old(self).enforces_foreign_keys(),
            blank_memory(old(self).conn) && foreign_keys_on(old(self).conn) ==> final(self)@.clips
                == old(self)@.clips && final(self)@.tags == old(self)@.tags && final(self)@.seq
                == old(self)@.seq && (r is Ok
                ==> final(self)@.whole),
            r is Err ==> r->Err_0 is Sqlite,
    {
        if let Err(e) = sql_execute_batch(&mut self.conn, MIGRATIONS_TABLE_SQL) {
            return Err(sqlite_error(&e));
        }
        let no_params: Vec<SqlValue> = Vec::new();
        assert(no_params.deep_view() =~= Seq::<SqlVal>::empty());
        let current_version: i64 = match sql_query(&self.conn, SCHEMA_VERSION_SQL, &no_params) {
            Ok(rows) => {
                if rows.len() > 0 && rows[0].len() > 0 {
                    proof {
                        if blank_memory(self.conn) {
                            assert(rows.deep_view()[0] == rows@[0].deep_view());
                            assert(rows@[0].deep_view()[0] == rows@[0]@[0]@);
                        }
                    }
                    match &rows[0][0] {
                        SqlValue::Integer(v) => {
                            if i32::MIN as i64 <= *v && *v <= i32::MAX as i64 {
                                *v
                            } else {
                                0
                            }
                        },
                        _ => 0i64,
                    }
                } else {
                    0
                }
            },
            Err(_) => 0,
        };
        assert(blank_memory(self.conn) ==> current_version == 0);
        if current_version < 1 {
            if let Err(e) = sql_execute_batch(&mut self.conn, SCHEMA_SQL) {
                return Err(sqlite_error(&e));
            }
            let now = now_rfc3339();
            let params = vec![SqlValue::Text(now)];
            if let Err(e) = sql_execute(&mut self.conn, RECORD_MIGRATION_SQL, &params) {
                return Err(sqlite_error(&e));
            }
        }
        Ok(())
    }

    /// Saves a new clip: its tags are trimmed, lower-cased and emptied ones
    /// dropped, it gets the current time as saved and updated date, and the
    /// clip as stored is returned. Fails, changing nothing, when a clip with
    /// the same url exists.
    pub fn insert_clip(&mut self, new_clip: NewClip) -> (r: Result<Clip, DbError>)
        requires
            old(self)@.whole,
        ensures
            final(self)@.whole,
            r is Ok ==> inserted(old(self)@, final(self)@, new_clip@, r->Ok_0@),
            r is Err ==> r->Err_0 is Sqlite,
            r is Err ==> final(self)@ == old(self)@ || partly_inserted(
                old(self)@,
                final(self)@,
                new_clip@,
            ) || exists|c: ClipView| #[trigger] inserted(old(self)@, final(self)@, new_clip@, c),
            url_taken(old(self)@.clips, SqlVal::Text(new_clip@.url)) ==> r is Err && final(self)@
                == old(self)@,
    {
        let now = now_rfc3339();
        let tags_clean = clean_tags(&new_clip.tags);
        let tags_str = join(&tags_clean, ",");
        let reading = match new_clip.reading_time_mins {
            Some(m) => SqlValue::Integer(m as i64),
            None => SqlValue::Null,
        };
        let params = vec![
            SqlValue::Text(new_clip.url.clone()),
            SqlValue::Text(new_clip.title.clone()),
            opt_param(&new_clip.description),
            SqlValue::Text(tags_str),
            opt_param(&new_clip.notes),
            opt_param(&new_clip.content_text),
            opt_param(&new_clip.screenshot_path),
            opt_param(&new_clip.favicon_url),
            opt_param(&new_clip.author),
            opt_param(&new_clip.site_name),
            reading,
            SqlValue::Text(now.clone()),
            SqlValue::Text(now.clone()),
        ];
        let ghost row = new_clip_row(new_clip@, now@);
        proof {
            reveal_strlit(",");
            assert(","@ =~= seq![',']);
        }
        assert(params.deep_view() =~= row);
        if let Err(e) = sql_execute(&mut self.conn, INSERT_CLIP_SQL, &params) {
            return Err(sqlite_error(&e));
        }
        let clip_id = sql_last_insert_rowid(&self.conn);
        let ghost after_insert = self@.clips;
        assert(after_insert == old(self)@.clips.insert(clip_id, row));
        if let Err(e) = self.add_tag_rows(clip_id, &tags_clean) {
            return Err(e);
        }
        match self.get_clip_by_id(clip_id) {
            Ok(Some(c)) => {
                assert(c@.date_saved == now@);
                Ok(c)
            },
            Ok(None) => Err(DbError::InsertedClipMissing),
            Err(e) => Err(e),
        }
    }

    /// Ties each tag of `ts` to clip `id` in `clip_tags` (a pair already
    /// there is kept once).
    fn add_tag_rows(&mut self, id: i64, ts: &Vec<String>) -> (r: Result<(), DbError>)
        requires
            old(self)@.whole,
        ensures
            final(self)@.whole,
            final(self)@.clips == old(self)@.clips,
            final(self)@.seq == old(self)@.seq,
            r is Ok ==> final(self)@.tags == old(self)@.tags.union(tag_rows_of(id, ts.deep_view())),
            r is Err ==> r->Err_0 is Sqlite,
            old(self)@.tags.subset_of(final(self)@.tags),
            final(self)@.tags.subset_of(old(self)@.tags.union(tag_rows_of(id, ts.deep_view()))),
    {
        let n = ts.len();
        let ghost t = ts.deep_view();
        for i in 0..n
            invariant
                n == ts.len(),
                t == ts.deep_view(),
                self@.whole,
                self@.clips == old(self)@.clips,
                self@.seq == old(self)@.seq,
                self@.tags == old(self)@.tags.union(tag_rows_of(id, t.take(i as int))),
        {
            let tag_params = vec![SqlValue::Integer(id), SqlValue::Text(ts[i].clone())];
            let ghost before = self@.tags;
            assert(tag_params.deep_view() =~= seq![SqlVal::Integer(id), SqlVal::Text(t[i as int])]);
            if let Err(e) = sql_execute(&mut self.conn, INSERT_TAG_SQL, &tag_params) {
                return Err(sqlite_error(&e));
            }
            proof {
                assert(t.take(i + 1) == t.take(i as int).push(t[i as int]));
                assert(self@.tags == before.insert((id, t[i as int])));
                assert forall|x: Seq<char>| t.take(i + 1).contains(x) <==> (t.take(i as int).contains(
                    x,
                ) || x == t[i as int]) by {
                    if t.take(i + 1).contains(x) {
                        let k = choose|k: int| 0 <= k < i + 1 && #[trigger] t.take(i + 1)[k] == x;
                        if k < i {
                            assert(t.take(i as int)[k] == x);
                        }
                    }
                    if t.take(i as int).contains(x) {
                        let k = choose|k: int| 0 <= k < i && #[trigger] t.take(i as int)[k] == x;
                        assert(t.take(i + 1)[k] == x);
                    }
                    if x == t[i as int] {
                        assert(t.take(i + 1)[i as int] == x);
                    }
                }
                let target = old(self)@.tags.union(tag_rows_of(id, t.take(i + 1)));
                assert forall|p: (i64, Seq<char>)| self@.tags.contains(p) <==> target.contains(p) by {
                    assert(tag_rows_of(id, t.take(i + 1)).contains(p) <==> (p.0 == id && t.take(
                        i + 1,
                    ).contains(p.1)));
                    assert(tag_rows_of(id, t.take(i as int)).contains(p) <==> (p.0 == id && t.take(
                        i as int,
                    ).contains(p.1)));
                }
                assert(self@.tags =~= target);
            }
        }
        assert(t.take(n as int) == t);
        Ok(())
    }

    /// The clip with id `id`, if any.
    pub fn get_clip_by_id(&self, id: i64) -> (r: Result<Option<Clip>, DbError>)
        requires
            self@.whole,
        ensures
            r is Ok ==> fetched(self@, id, r->Ok_0.deep_view()),
            r is Err && r->Err_0 is InvalidRow ==> self@.clips.contains_key(id) && !row_well_typed(
                clip_columns(id, self@.clips[id]),
            ),
            r is Err ==> r->Err_0 is Sqlite || r->Err_0 is InvalidRow,
    {
        let params = vec![SqlValue::Integer(id)];
        assert(params.deep_view() =~= seq![SqlVal::Integer(id)]);
        let rows = match sql_query(&self.conn, SELECT_CLIP_BY_ID_SQL, &params) {
            Ok(rows) => rows,
            Err(e) => return Err(sqlite_error(&e)),
        };
        assert(rows.deep_view().len() == rows.len());
        if rows.len() == 0 {
            return Ok(None);
        }
        let c = Self::row_to_clip(&rows[0])?;
        Ok(Some(c))
    }

    /// The clip saved under url `url`, if any.
    pub fn get_clip_by_url(&self, url: &str) -> (r: Result<Option<Clip>, DbError>)
        requires
            self@.whole,
        ensures
            r is Ok ==> (r->Ok_0 is Some <==> url_taken(self@.clips, SqlVal::Text(url@))),
            r is Ok && r->Ok_0 is Some ==> {
                let c = r->Ok_0->Some_0;
                &&& self@.clips.contains_key(c.id)
                &&& c.url@ == url@
                &&& reads_as(c@, clip_columns(c.id, self@.clips[c.id]))
            },
            r matches Err(e) ==> e is Sqlite || (e is InvalidRow && exists|id: i64|
                #[trigger] self@.clips.contains_key(id) && self@.clips[id][col_url()] == SqlVal::Text(
                    url@,
                ) && !row_well_typed(clip_columns(id, self@.clips[id]))),
    {
        let params = vec![SqlValue::Text(owned(url))];
        assert(params.deep_view() =~= seq![SqlVal::Text(url@)]);
        let rows = match sql_query(&self.conn, SELECT_CLIP_BY_URL_SQL, &params) {
            Ok(rows) => rows,
            Err(e) => return Err(sqlite_error(&e)),
        };
        if rows.len() == 0 {
            return Ok(None);
        }
        assert(rows.deep_view()[0] == rows@[0].deep_view());
        match Self::row_to_clip(&rows[0]) {
            Ok(c) => Ok(Some(c)),
            Err(e) => {
                proof {
                    let id = row_id(rows.deep_view()[0]);
                    assert(self@.clips.contains_key(id));
                }
                Err(e)
            },
        }
    }

    /// Applies `update` to the clip with id `update.id`: absent fields keep
    /// their value, new tags are trimmed, lower-cased and emptied ones
    /// dropped, the update date becomes the current time, the clip's rows of
    /// `clip_tags` are replaced, and the clip as stored is returned. Fails,
    /// changing nothing, when no clip has that id.
    pub fn update_clip(&mut self, update: UpdateClip) -> (r: Result<Clip, DbError>)
        requires
            old(self)@.whole,
        ensures
            final(self)@.whole,
            r is Ok ==> updated(old(self)@, final(self)@, update@, r->Ok_0@),
            r is Ok ==> updated_with(old(self)@, final(self)@, update@),
            r matches Err(DbError::ClipNotFound(id)) ==> id == update@.id
                && !old(self)@.clips.contains_key(update@.id),
            !old(self)@.clips.contains_key(update@.id) ==> final(self)@ == old(self)@ && (r matches Err(
                e,
            ) && (e == DbError::ClipNotFound(update@.id) || e is Sqlite)),
            r matches Err(e) ==> e is Sqlite || e is InvalidRow || e is ClipNotFound,
            r is Err ==> final(self)@ == old(self)@ || partly_updated(old(self)@, final(self)@, update@),
    {
        let ghost u = update@;
        let id = update.id;
        let existing = match self.get_clip_by_id(id) {
            Ok(Some(c)) => c,
            Ok(None) => return Err(DbError::ClipNotFound(id)),
            Err(e) => return Err(e),
        };
        let ghost row = self@.clips[id];
        let now = now_rfc3339();
        let title = match update.title {
            Some(t) => t,
            None => existing.title,
        };
        let description = match update.description {
            Some(d) => Some(d),
            None => existing.description,
        };
        let notes = match update.notes {
            Some(n) => Some(n),
            None => existing.notes,
        };
        let tags = match update.tags {
            Some(t) => clean_tags(&t),
            None => existing.tags,
        };
        let tags_str = join(&tags, ",");
        let params = vec![
            SqlValue::Text(title),
            opt_param(&description),
            SqlValue::Text(tags_str),
            opt_param(&notes),
            SqlValue::Text(now.clone()),
            SqlValue::Integer(id),
        ];
        proof {
            reveal_strlit(",");
            assert(","@ =~= seq![',']);
        }
        assert(tags.deep_view() == updated_tag_list(row, u));
        assert(params.deep_view() =~= update_values(row, u, now@));
        if let Err(e) = sql_execute(&mut self.conn, UPDATE_CLIP_SQL, &params) {
            return Err(sqlite_error(&e));
        }
        let ghost after_update = self@.clips;
        assert(after_update == old(self)@.clips.insert(id, updated_clip_row(row, u, now@)));
        let id_params = vec![SqlValue::Integer(id)];
        assert(id_params.deep_view() =~= seq![SqlVal::Integer(id)]);
        if let Err(e) = sql_execute(&mut self.conn, DELETE_CLIP_TAGS_SQL, &id_params) {
            return Err(sqlite_error(&e));
        }
        if let Err(e) = self.add_tag_rows(id, &tags) {
            return Err(e);
        }
        match self.get_clip_by_id(id) {
            Ok(Some(c)) => {
                assert(c@.date_updated == now@);
                assert(self@.clips == old(self)@.clips.insert(id, updated_clip_row(row, u, now@)));
                Ok(c)
            },
            Ok(None) => Err(DbError::UpdatedClipMissing),
            Err(e) => Err(e),
        }
    }

    /// The limit and offset a filter binds (-1 and 0 when absent).
    fn window_params(filter: &ClipFilter) -> (r: Result<(i64, i64), DbError>)
        ensures
            r is Ok <==> limits_fit(filter@),
            r is Ok ==> r->Ok_0 == (limit_val(filter@), offset_val(filter@)),
            r is Err ==> r->Err_0 is LimitOutOfRange,
    {
        match filter.limit {
            None => Ok((-1, 0)),
            Some(l) => {
                if l as u64 > i64::MAX as u64 {
                    return Err(DbError::LimitOutOfRange);
                }
                match filter.offset {
                    None => Ok((l as i64, 0)),
                    Some(o) => {
                        if o as u64 > i64::MAX as u64 {
                            Err(DbError::LimitOutOfRange)
                        } else {
                            Ok((l as i64, o as i64))
                        }
                    },
                }
            },
        }
    }

    /// The value a filter's tag is bound as.
    fn tag_param(filter: &ClipFilter) -> (v: SqlValue)
        ensures
            v@ == tag_val(filter@),
            !(v is Real),
    {
        match &filter.tag {
            Some(t) => SqlValue::Text(to_lowercase(t.as_str())),
            None => SqlValue::Null,
        }
    }

    /// The value an optional date bound is bound as.
    fn stamp_param(t: &Option<Timestamp>) -> (v: SqlValue)
        ensures
            v@ == opt_text_val(opt_stamp(*t)),
            !(v is Real),
    {
        match t {
            Some(d) => SqlValue::Text(d.rfc3339.clone()),
            None => SqlValue::Null,
        }
    }

    /// The clips the filter's tag and dates select, latest saved first, cut
    /// by its limit and offset.
    fn list_plain(&self, filter: &ClipFilter) -> (r: Result<Vec<Clip>, DbError>)
        requires
            self@.whole,
        ensures
            r is Ok ==> limits_fit(filter@) && listed(self@, filter@, r->Ok_0.deep_view()),
            !limits_fit(filter@) ==> r matches Err(DbError::LimitOutOfRange),
            r matches Err(e) ==> listing_error(e, filter@),
    {
        let (limit, offset) = Self::window_params(filter)?;
        let params = vec![
            Self::tag_param(filter),
            Self::stamp_param(&filter.from_date),
            Self::stamp_param(&filter.to_date),
            SqlValue::Integer(limit),
            SqlValue::Integer(offset),
        ];
        let ghost p = params.deep_view();
        assert(p =~= seq![
            tag_val(filter@),
            opt_text_val(filter@.from_date),
            opt_text_val(filter@.to_date),
            SqlVal::Integer(limit),
            SqlVal::Integer(offset),
        ]);
        let rows = match sql_query(&self.conn, LIST_CLIPS_SQL, &params) {
            Ok(rows) => rows,
            Err(e) => return Err(sqlite_error(&e)),
        };
        let clips = Self::rows_to_clips(&rows)?;
        proof {
            let pred = listing_pred(self@.tags, filter@);
            let out = rows.deep_view();
            assert(pred == filter_pred(self@.tags, p[0], p[1], p[2]));
            let all = choose|all: Seq<i64>|
                #[trigger] sorted_matches(self@.clips, pred, all) && window_rows(
                    self@.clips,
                    all,
                    limit,
                    offset,
                    out,
                );
            let st = window_start(all.len() as int, offset);
            let cs = clips.deep_view();
            assert forall|i: int| 0 <= i < cs.len() implies (#[trigger] cs[i]).id == all[st + i]
                && reads_as(cs[i], clip_columns(all[st + i], self@.clips[all[st + i]])) by {
                assert(reads_as(cs[i], out[i]));
                assert(out[i] == clip_columns(all[st + i], self@.clips[all[st + i]]));
            }
            assert(clips_at(self@, all, limit, offset, cs));
        }
        Ok(clips)
    }

    /// The `LIKE` search for the filter's search text, as typed, in the
    /// title, description, content text, notes, tags and url of the clips
    /// its tag and dates select; latest saved first, cut by its limit.
    fn search_clips_fallback(&self, filter: &ClipFilter) -> (r: Result<Vec<Clip>, DbError>)
        requires
            self@.whole,
        ensures
            r is Ok ==> limits_fit(filter@) && clips_window(
                self@,
                like_search_pred(self@.tags, filter@),
                limit_val(filter@),
                0,
                r->Ok_0.deep_view(),
            ),
            r is Ok && text_present(self@, filter@) ==> r->Ok_0.len() > 0,
            !limits_fit(filter@) ==> r matches Err(DbError::LimitOutOfRange),
            r matches Err(e) ==> listing_error(e, filter@),
    {
        let (limit, _) = Self::window_params(filter)?;
        let pattern = match &filter.query {
            Some(q) => like_query(q.as_str()),
            None => like_query(""),
        };
        let ghost q = match filter@.query {
            Some(q) => q,
            None => Seq::<char>::empty(),
        };
        proof {
            reveal_strlit("");
        }
        assert(pattern@ == like_pattern(q));
        let params = vec![
            Self::tag_param(filter),
            SqlValue::Text(pattern),
            Self::stamp_param(&filter.from_date),
            Self::stamp_param(&filter.to_date),
            SqlValue::Integer(limit),
        ];
        let ghost p = params.deep_view();
        assert(p =~= seq![
            tag_val(filter@),
            SqlVal::Text(like_pattern(q)),
            opt_text_val(filter@.from_date),
            opt_text_val(filter@.to_date),
            SqlVal::Integer(limit),
        ]);
        let rows = match sql_query(&self.conn, SEARCH_LIKE_SQL, &params) {
            Ok(rows) => rows,
            Err(e) => return Err(sqlite_error(&e)),
        };
        let clips = Self::rows_to_clips(&rows)?;
        proof {
            let pred = like_search_pred(self@.tags, filter@);
            let out = rows.deep_view();
            assert(pred =~= like_pred(
                self@.tags,
                params@[0]@,
                params@[2]@,
                params@[3]@,
                |v: SqlVal| sql_like(params@[1]@->Text_0, v),
            ));
            let all = choose|all: Seq<i64>|
                #[trigger] sorted_matches(self@.clips, pred, all) && window_rows(
                    self@.clips,
                    all,
                    limit,
                    0,
                    out,
                );
            let st = window_start(all.len() as int, 0);
            let cs = clips.deep_view();
            assert forall|i: int| 0 <= i < cs.len() implies (#[trigger] cs[i]).id == all[st + i]
                && reads_as(cs[i], clip_columns(all[st + i], self@.clips[all[st + i]])) by {
                assert(reads_as(cs[i], out[i]));
                assert(out[i] == clip_columns(all[st + i], self@.clips[all[st + i]]));
            }
            assert(clips_at(self@, all, limit, 0, cs));
            if text_present(self@, filter@) {
                let id = choose|id: i64|
                    #[trigger] self@.clips.contains_key(id) && clip_filter_holds(
                        self@.tags,
                        tag_val(filter@),
                        opt_text_val(filter@.from_date),
                        opt_text_val(filter@.to_date),
                        id,
                        self@.clips[id],
                    ) && row_holds_text(self@.clips[id], q);
                let row = self@.clips[id];
                let like = |v: SqlVal| sql_like(like_pattern(q), v);
                assert(like(row[col_title()]) || like(row[col_description()]) || like(
                    row[col_content()],
                ) || like(row[col_notes()]) || like(row[col_tags()]) || like(row[col_url()])) by {
                    if text_holds(row[col_title()], q) {
                        assert(is_infix(q, row[col_title()]->Text_0));
                    } else if text_holds(row[col_description()], q) {
                        assert(is_infix(q, row[col_description()]->Text_0));
                    } else if text_holds(row[col_content()], q) {
                        assert(is_infix(q, row[col_content()]->Text_0));
                    } else if text_holds(row[col_notes()], q) {
                        assert(is_infix(q, row[col_notes()]->Text_0));
                    } else if text_holds(row[col_tags()], q) {
                        assert(is_infix(q, row[col_tags()]->Text_0));
                    } else {
                        assert(is_infix(q, row[col_url()]->Text_0));
                    }
                }
                assert(pred(id, row));
                assert(all.contains(id));
                assert(all.len() > 0);
            }
        }
        Ok(clips)
    }

    /// A search for the filter's (not blank) search text: the full-text
    /// search first, whose rows that do not read as clips are skipped; when
    /// it fails or finds nothing, the `LIKE` search.
    fn search_text(&self, filter: &ClipFilter) -> (r: Result<Vec<Clip>, DbError>)
        requires
            self@.whole,
            is_search(filter@),
        ensures
            r is Ok ==> limits_fit(filter@) && searched(self@, filter@, r->Ok_0.deep_view()),
            r is Ok && text_present(self@, filter@) ==> r->Ok_0.len() > 0,
            !limits_fit(filter@) ==> r matches Err(DbError::LimitOutOfRange),
            r matches Err(e) ==> listing_error(e, filter@),
    {
        let (limit, _) = Self::window_params(filter)?;
        let query = match &filter.query {
            Some(q) => fts_query(trim(q.as_str())),
            None => return self.search_clips_fallback(filter),
        };
        let params = vec![
            SqlValue::Text(query),
            Self::tag_param(filter),
            Self::stamp_param(&filter.from_date),
            Self::stamp_param(&filter.to_date),
            SqlValue::Integer(limit),
        ];
        let ghost p = params.deep_view();
        assert(p =~= seq![
            SqlVal::Text(query@),
            tag_val(filter@),
            opt_text_val(filter@.from_date),
            opt_text_val(filter@.to_date),
            SqlVal::Integer(limit),
        ]);
        if let Ok(rows) = sql_query(&self.conn, SEARCH_FTS_SQL, &params) {
            let ghost out = rows.deep_view();
            let ghost pred = fts_search_pred(self@.tags, filter@);
            proof {
                assert(pred =~= fts_pred(
                    self@.tags,
                    params@[1]@,
                    params@[2]@,
                    params@[3]@,
                    |row: Seq<SqlVal>| fts_match(params@[0]@->Text_0, row),
                ));
                assert(unordered_selection(self@.clips, pred, limit, out));
            }
            let clips = Self::readable_clips(&rows);
            if clips.len() > 0 {
                proof {
                    let cs = clips.deep_view();
                    assert forall|i: int| 0 <= i < cs.len() implies self@.clips.contains_key(
                        (#[trigger] cs[i]).id,
                    ) && pred(cs[i].id, self@.clips[cs[i].id]) && reads_as(
                        cs[i],
                        clip_columns(cs[i].id, self@.clips[cs[i].id]),
                    ) by {
                        assert(read_from_one_of(cs[i], out));
                        let j = choose|j: int| 0 <= j < out.len() && reads_as(cs[i], #[trigger] out[j]);
                        assert(out[j][0] is Integer);
                    }
                    assert forall|id: i64|
                        limit < 0 && #[trigger] self@.clips.contains_key(id) && pred(id, self@.clips[id])
                            && row_well_typed(clip_columns(id, self@.clips[id])) implies exists|i: int|
                        0 <= i < cs.len() && (#[trigger] cs[i]).id == id by {
                        let j = choose|j: int| 0 <= j < out.len() && row_id(#[trigger] out[j]) == id;
                        assert(out[j] == clip_columns(id, self@.clips[id]));
                        assert(row_well_typed(out[j]));
                    }
                    assert(clips_found(self@, pred, limit, cs));
                }
                return Ok(clips);
            }
        }
        self.search_clips_fallback(filter)
    }

    /// The clips a filter selects: with a search text that is not blank, the
    /// clips found for it (see `search_clips`); otherwise those its tag and
    /// dates select, latest saved first, cut by its limit and offset.
    pub fn list_clips(&self, filter: &ClipFilter) -> (r: Result<Vec<Clip>, DbError>)
        requires
            self@.whole,
        ensures
            r is Ok ==> limits_fit(filter@) && if is_search(filter@) {
                searched(self@, filter@, r->Ok_0.deep_view())
            } else {
                listed(self@, filter@, r->Ok_0.deep_view())
            },
            r is Ok && is_search(filter@) && text_present(self@, filter@) ==> r->Ok_0.len() > 0,
            !limits_fit(filter@) ==> r matches Err(DbError::LimitOutOfRange),
            r matches Err(e) ==> listing_error(e, filter@),
    {
        let searching = match &filter.query {
            Some(q) => !trim(q.as_str()).is_empty(),
            None => false,
        };
        if searching {
            self.search_clips(filter)
        } else {
            self.list_plain(filter)
        }
    }

    /// Searches the clips for the filter's search text: the SQLite full-text
    /// index first, and when that fails or finds nothing a `LIKE` search of
    /// the title, description, content text, notes, tags and url. The tag
    /// and date conditions of the filter apply, and its limit. With a blank
    /// search text this is the listing of `list_clips`. A search finds
    /// something whenever a clip that meets the tag and dates holds the
    /// search text, as typed, in one of those columns (a text without a NUL
    /// character) and the limit is not 0 (see `text_present`).
    pub fn search_clips(&self, filter: &ClipFilter) -> (r: Result<Vec<Clip>, DbError>)
        requires
            self@.whole,
        ensures
            r is Ok ==> limits_fit(filter@) && if is_search(filter@) {
                searched(self@, filter@, r->Ok_0.deep_view())
            } else {
                listed(self@, filter@, r->Ok_0.deep_view())
            },
            r is Ok && is_search(filter@) && text_present(self@, filter@) ==> r->Ok_0.len() > 0,
            !limits_fit(filter@) ==> r matches Err(DbError::LimitOutOfRange),
            r matches Err(e) ==> listing_error(e, filter@),
    {
        let searching = match &filter.query {
            Some(q) => !trim(q.as_str()).is_empty(),
            None => false,
        };
        if searching {
            self.search_text(filter)
        } else {
            self.list_plain(filter)
        }
    }

    /// The clips read from the result rows of a clip query, in order.
    fn rows_to_clips(rows: &Vec<Vec<SqlValue>>) -> (r: Result<Vec<Clip>, DbError>)
        ensures
            r is Ok ==> r->Ok_0.len() == rows.len() && forall|i: int|
                0 <= i < rows.len() ==> reads_as(
                    #[trigger] r->Ok_0.deep_view()[i],
                    rows.deep_view()[i],
                ),
            r is Err ==> r->Err_0 is InvalidRow,
    {
        let mut clips: Vec<Clip> = Vec::new();
        let n = rows.len();
        for i in 0..n
            invariant
                n == rows.len(),
                clips.len() == i,
                forall|k: int| 0 <= k < i ==> reads_as(#[trigger] clips.deep_view()[k], rows.deep_view()[k]),
        {
            let c = Self::row_to_clip(&rows[i])?;
            let ghost prev = clips.deep_view();
            let ghost cv = c@;
            clips.push(c);
            assert(clips.deep_view() =~= prev.push(cv));
        }
        Ok(clips)
    }

    /// The clips read from those result rows of a clip query that hold
    /// values of their columns' types, in order; the others are skipped.
    fn readable_clips(rows: &Vec<Vec<SqlValue>>) -> (cs: Vec<Clip>)
        requires
            forall|j: int| 0 <= j < rows.len() ==> (#[trigger] rows.deep_view()[j])[0] is Integer,
            forall|j: int, k: int|
                0 <= j < k < rows.len() ==> row_id(#[trigger] rows.deep_view()[j]) != row_id(
                    #[trigger] rows.deep_view()[k],
                ),
        ensures
            cs.len() <= rows.len(),
            forall|i: int| 0 <= i < cs.len() ==> read_from_one_of(#[trigger] cs.deep_view()[i], rows.deep_view()),
            forall|i: int, k: int|
                0 <= i < k < cs.len() ==> (#[trigger] cs.deep_view()[i]).id != (
                #[trigger] cs.deep_view()[k]).id,
            forall|j: int|
                0 <= j < rows.len() && row_well_typed(#[trigger] rows.deep_view()[j]) ==> exists|i: int|
                    0 <= i < cs.len() && (#[trigger] cs.deep_view()[i]).id == row_id(rows.deep_view()[j]),
    {
        let ghost out = rows.deep_view();
        let mut clips: Vec<Clip> = Vec::new();
        let ghost mut idx: Seq<int> = Seq::empty();
        let n = rows.len();
        for j in 0..n
            invariant
                n == rows.len(),
                out == rows.deep_view(),
                forall|a: int| 0 <= a < n ==> (#[trigger] out[a])[0] is Integer,
                forall|a: int, b: int|
                    0 <= a < b < n ==> row_id(#[trigger] out[a]) != row_id(#[trigger] out[b]),
                clips.len() == idx.len(),
                clips.len() <= j,
                forall|i: int| 0 <= i < idx.len() ==> 0 <= #[trigger] idx[i] < j,
                forall|i: int, k: int| 0 <= i < k < idx.len() ==> #[trigger] idx[i] < #[trigger] idx[k],
                forall|i: int|
                    0 <= i < idx.len() ==> reads_as(#[trigger] clips.deep_view()[i], out[idx[i]]),
                forall|a: int|
                    0 <= a < j && row_well_typed(#[trigger] out[a]) ==> exists|i: int|
                        0 <= i < idx.len() && idx[i] == a,
        {
            let ghost old_idx = idx;
            match Self::row_to_clip(&rows[j]) {
                Ok(c) => {
                    let ghost prev = clips.deep_view();
                    let ghost cv = c@;
                    clips.push(c);
                    proof {
                        idx = idx.push(j as int);
                        assert(clips.deep_view() =~= prev.push(cv));
                        assert(out[j as int] == rows@[j as int].deep_view());
                    }
                },
                Err(_) => {
                    assert(out[j as int] == rows@[j as int].deep_view());
                },
            }
            proof {
                assert forall|a: int|
                    0 <= a < j + 1 && row_well_typed(#[trigger] out[a]) implies exists|i: int|
                        0 <= i < idx.len() && idx[i] == a by {
                    if a < j {
                        let i = choose|i: int| 0 <= i < old_idx.len() && old_idx[i] == a;
                        assert(idx[i] == a);
                    } else {
                        assert(idx[idx.len() - 1] == a);
                    }
                }
            }
        }
        proof {
            assert forall|i: int| 0 <= i < clips.len() implies read_from_one_of(
                #[trigger] clips.deep_view()[i],
                rows.deep_view(),
            ) by {
                let a = idx[i];
                assert(0 <= a < rows.len());
                assert(reads_as(clips.deep_view()[i], rows.deep_view()[a]));
            }
            assert forall|i: int, k: int| 0 <= i < k < clips.len() implies (
            #[trigger] clips.deep_view()[i]).id != (#[trigger] clips.deep_view()[k]).id by {
                assert(reads_as(clips.deep_view()[i], out[idx[i]]));
                assert(reads_as(clips.deep_view()[k], out[idx[k]]));
                assert(row_id(out[idx[i]]) != row_id(out[idx[k]]));
            }
            assert forall|a: int| 0 <= a < rows.len() && row_well_typed(
                #[trigger] rows.deep_view()[a],
            ) implies exists|i: int|
                0 <= i < clips.len() && (#[trigger] clips.deep_view()[i]).id == row_id(
                    rows.deep_view()[a],
                ) by {
                let i = choose|i: int| 0 <= i < idx.len() && idx[i] == a;
                assert(reads_as(clips.deep_view()[i], out[idx[i]]));
            }
        }
        clips
    }

    /// Each tag with the number of clips that carry it, the most used
    /// first and equally used ones in the order of their text.
    pub fn list_tags(&self) -> (r: Result<Vec<TagCount>, DbError>)
        requires
            self@.whole,
        ensures
            r is Ok ==> tag_counts(self@.tags, r->Ok_0.deep_view()),
            r matches Err(e) ==> e is Sqlite || (e is InvalidRow && tag_count_too_large(self@.tags)),
    {
        let no_params: Vec<SqlValue> = Vec::new();
        assert(no_params.deep_view() =~= Seq::<SqlVal>::empty());
        let rows = match sql_query(&self.conn, LIST_TAGS_SQL, &no_params) {
            Ok(rows) => rows,
            Err(e) => return Err(sqlite_error(&e)),
        };
        let ghost out = rows.deep_view();
        let mut counts: Vec<TagCount> = Vec::new();
        let n = rows.len();
        for i in 0..n
            invariant
                n == rows.len(),
                out == rows.deep_view(),
                forall|k: int|
                    0 <= k < n ==> (#[trigger] out[k]).len() == 2 && out[k][0] is Text && out[k][1] is Integer
                        && out[k][1]->Integer_0 >= 0,
                forall|k: int|
                    0 <= k < n ==> tag_names(self@.tags).contains((#[trigger] out[k])[0]->Text_0)
                        && out[k][1]->Integer_0 == clips_with_tag(self@.tags, out[k][0]->Text_0).len(),
                counts.len() == i,
                forall|k: int|
                    0 <= k < i ==> (#[trigger] counts.deep_view()[k]).tag == out[k][0]->Text_0
                        && counts.deep_view()[k].count == out[k][1]->Integer_0,
        {
            assert(out[i as int] == rows@[i as int].deep_view());
            assert(rows[i as int].deep_view().len() == rows[i as int].len());
            let tag = match &rows[i][0] {
                SqlValue::Text(t) => t.clone(),
                _ => return Err(DbError::InvalidRow),
            };
            let count = match &rows[i][1] {
                SqlValue::Integer(c) => *c,
                _ => return Err(DbError::InvalidRow),
            };
            if count as u64 > usize::MAX as u64 {
                assert(tag_names(self@.tags).contains(out[i as int][0]->Text_0));
                return Err(DbError::InvalidRow);
            }
            let ghost prev = counts.deep_view();
            let tc = TagCount { tag, count: count as usize };
            let ghost tv = tc@;
            counts.push(tc);
            assert(counts.deep_view() =~= prev.push(tv));
        }
        proof {
            let ts = counts.deep_view();
            assert forall|i: int, j: int| 0 <= i < j < ts.len() implies {
                let (a, b) = (#[trigger] ts[i], #[trigger] ts[j]);
                &&& a.tag != b.tag
                &&& (a.count > b.count || (a.count == b.count && text_le(a.tag, b.tag)))
            } by {
                let (a, b) = (out[i], out[j]);
                assert(a[0] != b[0]);
            }
            assert forall|t: Seq<char>| #[trigger] tag_names(self@.tags).contains(t) implies exists|i: int|
                0 <= i < ts.len() && (#[trigger] ts[i]).tag == t by {
                let i = choose|i: int| 0 <= i < out.len() && (#[trigger] out[i])[0] == SqlVal::Text(t);
                assert(ts[i].tag == t);
            }
        }
        Ok(counts)
    }

    /// Adds tags to the clip with id `id`: each is trimmed and lower-cased,
    /// and appended unless empty or already there; the clip's tags as stored
    /// are returned. Fails, changing nothing, when no clip has that id.
    pub fn add_tags_to_clip(&mut self, id: i64, new_tags: &[String]) -> (r: Result<
        Vec<String>,
        DbError,
    >)
        requires
            old(self)@.whole,
        ensures
            final(self)@.whole,
            r is Ok ==> {
                let row = old(self)@.clips[id];
                &&& updated_with(
                    old(self)@,
                    final(self)@,
                    retag_update(id, with_added_tags(existing_tags(row), texts_of(new_tags@))),
                )
                &&& r->Ok_0.deep_view() == existing_tags(final(self)@.clips[id])
            },
            r matches Err(DbError::ClipNotFound(c)) ==> c == id && !old(self)@.clips.contains_key(id),
            !old(self)@.clips.contains_key(id) ==> final(self)@ == old(self)@ && (r matches Err(e) && (e
                == DbError::ClipNotFound(id) || e is Sqlite)),
    {
        let clip = match self.get_clip_by_id(id) {
            Ok(Some(c)) => c,
            Ok(None) => return Err(DbError::ClipNotFound(id)),
            Err(e) => return Err(e),
        };
        let tags = add_tags(&clip.tags, new_tags);
        let update = UpdateClip { id, title: None, description: None, tags: Some(tags), notes: None };
        assert(update@ == retag_update(
            id,
            with_added_tags(existing_tags(old(self)@.clips[id]), texts_of(new_tags@)),
        ));
        let updated = match self.update_clip(update) {
            Ok(c) => c,
            Err(e) => return Err(e),
        };
        Ok(updated.tags)
    }

    /// Removes tags from the clip with id `id`: the clip keeps the tags that
    /// equal none of the given ones trimmed and lower-cased; its tags as
    /// stored are returned. Fails, changing nothing, when no clip has that id.
    pub fn remove_tags_from_clip(&mut self, id: i64, tags_to_remove: &[String]) -> (r: Result<
        Vec<String>,
        DbError,
    >)
        requires
            old(self)@.whole,
        ensures
            final(self)@.whole,
            r is Ok ==> {
                let row = old(self)@.clips[id];
                &&& updated_with(
                    old(self)@,
                    final(self)@,
                    retag_update(id, without_tags(existing_tags(row), texts_of(tags_to_remove@))),
                )
                &&& r->Ok_0.deep_view() == existing_tags(final(self)@.clips[id])
            },
            r matches Err(DbError::ClipNotFound(c)) ==> c == id && !old(self)@.clips.contains_key(id),
            !old(self)@.clips.contains_key(id) ==> final(self)@ == old(self)@ && (r matches Err(e) && (e
                == DbError::ClipNotFound(id) || e is Sqlite)),
    {
        let clip = match self.get_clip_by_id(id) {
            Ok(Some(c)) => c,
            Ok(None) => return Err(DbError::ClipNotFound(id)),
            Err(e) => return Err(e),
        };
        let tags = remove_tags(&clip.tags, tags_to_remove);
        let update = UpdateClip { id, title: None, description: None, tags: Some(tags), notes: None };
        assert(update@ == retag_update(
            id,
            without_tags(existing_tags(old(self)@.clips[id]), texts_of(tags_to_remove@)),
        ));
        let updated = match self.update_clip(update) {
            Ok(c) => c,
            Err(e) => return Err(e),
        };
        Ok(updated.tags)
    }

    /// The ids of the clips that carry tag `t` in `clip_tags`, each once.
    fn clip_ids_with_tag(&self, t: &str) -> (r: Result<Vec<i64>, DbError>)
        requires
            self@.whole,
        ensures
            r is Ok ==> r->Ok_0@.no_duplicates() && r->Ok_0@.to_set() == clips_with_tag(
                self@.tags,
                t@,
            ),
            r is Ok ==> r->Ok_0.len() == clips_with_tag(self@.tags, t@).len(),
            r is Err ==> r->Err_0 is Sqlite,
    {
        let params = vec![SqlValue::Text(owned(t))];
        assert(params.deep_view() =~= seq![SqlVal::Text(t@)]);
        let rows = match sql_query(&self.conn, CLIP_IDS_WITH_TAG_SQL, &params) {
            Ok(rows) => rows,
            Err(e) => return Err(sqlite_error(&e)),
        };
        let ghost out = rows.deep_view();
        let mut ids: Vec<i64> = Vec::new();
        let n = rows.len();
        for i in 0..n
            invariant
                n == rows.len(),
                out == rows.deep_view(),
                forall|k: int|
                    0 <= k < n ==> (#[trigger] out[k]).len() == 1 && out[k][0] is Integer,
                ids.len() == i,
                forall|k: int| 0 <= k < i ==> #[trigger] ids@[k] == row_id(out[k]),
        {
            assert(out[i as int] == rows@[i as int].deep_view());
            assert(rows[i as int].deep_view().len() == rows[i as int].len());
            match &rows[i][0] {
                SqlValue::Integer(c) => ids.push(*c),
                _ => return Err(DbError::InvalidRow),
            }
        }
        proof {
            let cw = clips_with_tag(self@.tags, t@);
            assert forall|j: int, k: int|
                0 <= j < ids.len() && 0 <= k < ids.len() && j != k implies ids@[j] != ids@[k] by {
                if j < k {
                    assert(row_id(out[j]) != row_id(out[k]));
                } else {
                    assert(row_id(out[k]) != row_id(out[j]));
                }
            }
            assert forall|c: i64| ids@.to_set().contains(c) <==> cw.contains(c) by {
                if cw.contains(c) {
                    let k = choose|k: int| 0 <= k < out.len() && row_id(#[trigger] out[k]) == c;
                    assert(ids@[k] == c);
                }
                if ids@.to_set().contains(c) {
                    let k = choose|k: int| 0 <= k < ids.len() && ids@[k] == c;
                    assert(ids@[k] == row_id(out[k]));
                }
            }
            assert(ids@.to_set() =~= cw);
            ids@.unique_seq_to_set();
        }
        Ok(ids)
    }

    /// Gives each stored clip of `ids` the tag list `edit` makes of its tags,
    /// with `update_clip`; ids with no clip are passed over.
    fn retag_clips(&mut self, ids: &Vec<i64>, edit: &TagEdit) -> (r: Result<(), DbError>)
        requires
            old(self)@.whole,
            ids@.no_duplicates(),
        ensures
            final(self)@.whole,
            r is Ok ==> retag_each(old(self)@, final(self)@, ids@.to_set(), edit.edit()),
            r is Err ==> r->Err_0 is Sqlite || r->Err_0 is InvalidRow,
    {
        let n = ids.len();
        let ghost f = edit.edit();
        for i in 0..n
            invariant
                n == ids.len(),
                ids@.no_duplicates(),
                f == edit.edit(),
                self@.whole,
                retag_each(old(self)@, self@, ids@.take(i as int).to_set(), f),
        {
            let id = ids[i];
            let ghost mid = self@;
            let ghost done = ids@.take(i as int).to_set();
            proof {
                assert(!done.contains(id)) by {
                    if done.contains(id) {
                        let k = choose|k: int| 0 <= k < i && ids@.take(i as int)[k] == id;
                        assert(ids@[k] == ids@[i as int]);
                    }
                }
                let t1 = ids@.take(i + 1);
                let t0 = ids@.take(i as int);
                assert forall|x: i64| t1.to_set().contains(x) <==> done.insert(id).contains(x) by {
                    if t1.to_set().contains(x) {
                        let k = choose|k: int| 0 <= k < t1.len() && t1[k] == x;
                        if k < i {
                            assert(t0[k] == x);
                        }
                    }
                    if done.contains(x) {
                        let k = choose|k: int| 0 <= k < t0.len() && t0[k] == x;
                        assert(t1[k] == x);
                    }
                    if x == id {
                        assert(t1[i as int] == x);
                    }
                }
                assert(t1.to_set() =~= done.insert(id));
            }
            match self.get_clip_by_id(id) {
                Ok(Some(clip)) => {
                    let tags = edit.apply(&clip.tags);
                    let update = UpdateClip {
                        id,
                        title: None,
                        description: None,
                        tags: Some(tags),
                        notes: None,
                    };
                    assert(clip@.tags == existing_tags(mid.clips[id]));
                    assert(mid.clips[id] == old(self)@.clips[id]);
                    assert(update@ == retag_update(id, f(existing_tags(old(self)@.clips[id]))));
                    if let Err(e) = self.update_clip(update) {
                        return Err(e);
                    }
                    proof {
                        lemma_retag_step(old(self)@, mid, self@, done, id, f);
                    }
                },
                Ok(None) => {
                    proof {
                        lemma_retag_step(old(self)@, mid, self@, done, id, f);
                    }
                },
                Err(e) => return Err(e),
            }
        }
        assert(ids@.take(n as int) == ids@);
        Ok(())
    }

    /// Renames a tag on every clip that carries it: both names are trimmed
    /// and lower-cased, and each such clip gets its tag list with the first
    /// old name dropped and the new name appended unless present. Returns
    /// how many clips carried the old tag; nothing happens, and 0 is
    /// returned, when the names are equal or one of them is empty.
    pub fn rename_tag(&mut self, old_tag: &str, new_tag: &str) -> (r: Result<usize, DbError>)
        requires
            old(self)@.whole,
        ensures
            final(self)@.whole,
            ({
                let (o, n) = (normalize_tag_spec(old_tag@), normalize_tag_spec(new_tag@));
                &&& (o == n || o.len() == 0 || n.len() == 0) ==> r == Ok::<usize, DbError>(0)
                    && final(self)@ == old(self)@
                &&& r is Ok && o != n && o.len() > 0 && n.len() > 0 ==> {
                    &&& r->Ok_0 == clips_with_tag(old(self)@.tags, o).len()
                    &&& retag_each(
                        old(self)@,
                        final(self)@,
                        clips_with_tag(old(self)@.tags, o),
                        |ts: Seq<Seq<char>>| renamed_tags(ts, o, n),
                    )
                }
            }),
            r is Err ==> r->Err_0 is Sqlite || r->Err_0 is InvalidRow,
    {
        let old_clean = normalize_tag(old_tag);
        let new_clean = normalize_tag(new_tag);
        if str_eq(old_clean.as_str(), new_clean.as_str()) || old_clean.as_str().is_empty()
            || new_clean.as_str().is_empty() {
            return Ok(0);
        }
        let ids = match self.clip_ids_with_tag(old_clean.as_str()) {
            Ok(ids) => ids,
            Err(e) => return Err(e),
        };
        let count = ids.len();
        let edit = TagEdit::Rename { old: old_clean, new: new_clean };
        let ghost o = normalize_tag_spec(old_tag@);
        let ghost nn = normalize_tag_spec(new_tag@);
        assert(edit.edit() =~= (|ts: Seq<Seq<char>>| renamed_tags(ts, o, nn)));
        if let Err(e) = self.retag_clips(&ids, &edit) {
            return Err(e);
        }
        Ok(count)
    }

    /// Deletes a tag from every clip that carries it: the name is trimmed
    /// and lower-cased, and each such clip keeps its other tags. Returns how
    /// many clips carried the tag.
    pub fn delete_tag(&mut self, tag: &str) -> (r: Result<usize, DbError>)
        requires
            old(self)@.whole,
        ensures
            final(self)@.whole,
            r is Ok ==> {
                let t = normalize_tag_spec(tag@);
                &&& r->Ok_0 == clips_with_tag(old(self)@.tags, t).len()
                &&& retag_each(
                    old(self)@,
                    final(self)@,
                    clips_with_tag(old(self)@.tags, t),
                    |ts: Seq<Seq<char>>| tags_except(ts, t),
                )
            },
            r is Err ==> r->Err_0 is Sqlite || r->Err_0 is InvalidRow,
    {
        let tag_clean = normalize_tag(tag);
        let ids = match self.clip_ids_with_tag(tag_clean.as_str()) {
            Ok(ids) => ids,
            Err(e) => return Err(e),
        };
        let count = ids.len();
        let edit = TagEdit::Drop { tag: tag_clean };
        let ghost t = normalize_tag_spec(tag@);
        assert(edit.edit() =~= (|ts: Seq<Seq<char>>| tags_except(ts, t)));
        if let Err(e) = self.retag_clips(&ids, &edit) {
            return Err(e);
        }
        Ok(count)
    }

    /// Deletes the clip with id `id`; whether one was deleted.
    pub fn delete_clip(&mut self, id: i64) -> (r: Result<bool, DbError>)
        requires
            old(self)@.whole,
        ensures
            final(self)@.whole,
            r is Ok ==> deleted(old(self)@, final(self)@, id, r->Ok_0),
            r is Err ==> final(self)@ == old(self)@ && r->Err_0 is Sqlite,
    {
        let params = vec![SqlValue::Integer(id)];
        assert(params.deep_view() =~= seq![SqlVal::Integer(id)]);
        match sql_execute(&mut self.conn, DELETE_CLIP_SQL, &params) {
            Ok(n) => Ok(n > 0),
            Err(e) => Err(sqlite_error(&e)),
        }
    }

    /// The number of saved clips.
    pub fn count_clips(&self) -> (r: Result<usize, DbError>)
        requires
            self@.whole,
        ensures
            r is Ok ==> self@.clips.dom().finite() && r->Ok_0 == self@.clips.dom().len(),
            r matches Err(e) ==> e is Sqlite || (e is LimitOutOfRange && self@.clips.dom().len()
                > usize::MAX),
    {
        let no_params: Vec<SqlValue> = Vec::new();
        let rows = match sql_query(&self.conn, COUNT_CLIPS_SQL, &no_params) {
            Ok(rows) => rows,
            Err(e) => return Err(sqlite_error(&e)),
        };
        match &rows[0][0] {
            SqlValue::Integer(n) => {
                if *n as u64 <= usize::MAX as u64 {
                    Ok(*n as usize)
                } else {
                    Err(DbError::LimitOutOfRange)
                }
            },
            _ => Err(DbError::InvalidRow),
        }
    }
}

} // verus!
