//! What the operations of the clip store promise together: a saved or
//! updated clip is read back as it was returned, a deleted one is gone, the
//! count follows, and a listing with no conditions lists every clip once.
use vstd::prelude::*;
use crate::clock::rfc3339_utc;
use crate::db::{
    deleted, existing_tags, fetched, inserted, limit_val, listed, listing_pred, new_clip_row,
    offset_val, reads_as, searched, tag_rows_of, updated, updated_clip_row, updated_tag_list,
    updated_with, DbView,
};
use crate::models::{ClipFilterView, ClipView, NewClipView, UpdateClipView};
use crate::sql::{
    clip_columns, clips_with_tag, col_saved, sql_ge_text, sql_le_text, col_tags, col_updated, row_width, sorted_matches, tags_without,
    window_end, window_start, SqlVal,
};
use crate::tags::{clean_tags_spec, law_clean_tags, tags_column_text, tags_from_column, trim_all};
use crate::text::{join_spec, lemma_join_nonempty, lemma_split_join, lowercase, trim_spec};

verus! {

/// Two clips read from the same row are the same clip when both of its
/// dates parse.
proof fn lemma_read_once(a: ClipView, b: ClipView, cols: Seq<SqlVal>)
    requires
        reads_as(a, cols),
        reads_as(b, cols),
        rfc3339_utc(cols[12]->Text_0) is Some,
        rfc3339_utc(cols[13]->Text_0) is Some,
    ensures
        a == b,
{
}

/// A clip saved with `insert_clip` is found by `get_clip_by_id` exactly as
/// `insert_clip` returned it.
pub proof fn law_get_after_insert(
    before: DbView,
    after: DbView,
    n: NewClipView,
    c: ClipView,
    got: Option<ClipView>,
)
    requires
        inserted(before, after, n, c),
        fetched(after, c.id, got),
    ensures
        got == Some(c),
{
    let row = after.clips[c.id];
    assert(row[11] == SqlVal::Text(c.date_saved));
    assert(row[12] == SqlVal::Text(c.date_saved));
    lemma_read_once(got->Some_0, c, clip_columns(c.id, row));
}

/// A clip changed with `update_clip` is found by `get_clip_by_id` exactly as
/// `update_clip` returned it.
pub proof fn law_get_after_update(
    before: DbView,
    after: DbView,
    u: UpdateClipView,
    c: ClipView,
    got: Option<ClipView>,
)
    requires
        updated(before, after, u, c),
        fetched(after, u.id, got),
        rfc3339_utc(before.clips[u.id][col_saved()]->Text_0) is Some,
    ensures
        got == Some(c),
{
    let row = after.clips[c.id];
    let old_row = before.clips[u.id];
    assert(row == updated_clip_row(old_row, u, c.date_updated));
    assert(row[col_updated()] == SqlVal::Text(c.date_updated));
    assert(row[col_saved()] == old_row[col_saved()]);
    let cols = clip_columns(c.id, row);
    assert(cols[13] == row[12]);
    assert(cols[12] == row[11]);
    lemma_read_once(got->Some_0, c, cols);
}

/// After `delete_clip`, `get_clip_by_id` finds no clip with that id.
pub proof fn law_get_after_delete(
    before: DbView,
    after: DbView,
    id: i64,
    existed: bool,
    got: Option<ClipView>,
)
    requires
        deleted(before, after, id, existed),
        fetched(after, id, got),
    ensures
        got is None,
{
}

/// Saving a clip adds one to the number of clips.
pub proof fn law_count_after_insert(before: DbView, after: DbView, n: NewClipView, c: ClipView)
    requires
        inserted(before, after, n, c),
        before.clips.dom().finite(),
    ensures
        after.clips.dom().finite(),
        after.clips.dom().len() == before.clips.dom().len() + 1,
{
    assert(after.clips.dom() =~= before.clips.dom().insert(c.id));
}

/// Deleting a clip that was there takes one from the number of clips;
/// deleting one that was not changes no clip.
pub proof fn law_count_after_delete(before: DbView, after: DbView, id: i64, existed: bool)
    requires
        deleted(before, after, id, existed),
        before.clips.dom().finite(),
    ensures
        after.clips.dom().finite(),
        existed ==> after.clips.dom().len() == before.clips.dom().len() - 1,
        !existed ==> after.clips == before.clips,
{
    assert(after.clips.dom() =~= before.clips.dom().remove(id));
    if !existed {
        assert(after.clips =~= before.clips);
    }
}

/// The tags of a saved clip, read back, are its cleaned tags (each trimmed
/// once more), provided no cleaned tag holds a comma, the separator of the
/// stored tags text.
pub proof fn law_inserted_tags(before: DbView, after: DbView, n: NewClipView, c: ClipView)
    requires
        inserted(before, after, n, c),
        forall|i: int|
            0 <= i < clean_tags_spec(n.tags).len() ==> !(#[trigger] clean_tags_spec(n.tags)[i]).contains(
                ',',
            ),
    ensures
        c.tags == trim_all(clean_tags_spec(n.tags)),
{
    let ts = clean_tags_spec(n.tags);
    law_clean_tags(n.tags);
    if ts.len() > 0 {
        lemma_split_join(ts, ',');
        lemma_join_nonempty(ts, seq![',']);
    } else {
        assert(tags_column_text(ts) == join_spec(ts, seq![',']));
        assert(trim_all(ts) =~= ts);
    }
    assert(c.tags == tags_from_column(tags_column_text(ts)));
}

/// A listing with no search text, tag, dates, limit or offset lists every
/// clip of the store, each once.
pub proof fn law_full_listing(v: DbView, f: ClipFilterView, cs: Seq<ClipView>)
    requires
        f.query is None,
        f.tag is None,
        f.from_date is None,
        f.to_date is None,
        f.limit is None,
        v.clips.dom().finite(),
        listed(v, f, cs),
    ensures
        cs.len() == v.clips.dom().len(),
        forall|id: i64| v.clips.contains_key(id) ==> exists|i: int| 0 <= i < cs.len() && (#[trigger] cs[i]).id == id,
        forall|i: int, j: int| 0 <= i < j < cs.len() ==> (#[trigger] cs[i]).id != (#[trigger] cs[j]).id,
{
    let pred = listing_pred(v.tags, f);
    let all = choose|all: Seq<i64>|
        #[trigger] sorted_matches(v.clips, pred, all) && crate::db::clips_at(
            v,
            all,
            limit_val(f),
            offset_val(f),
            cs,
        );
    assert(limit_val(f) == -1 && offset_val(f) == 0);
    assert(window_start(all.len() as int, 0i64) == 0);
    assert(window_end(all.len() as int, -1i64, 0i64) == all.len());
    assert forall|id: i64| #[trigger] v.clips.contains_key(id) implies all.contains(id) by {
        assert(pred(id, v.clips[id]));
    }
    assert(all.no_duplicates());
    assert(all.to_set() =~= v.clips.dom());
    all.unique_seq_to_set();
    assert forall|id: i64| v.clips.contains_key(id) implies exists|i: int|
        0 <= i < cs.len() && (#[trigger] cs[i]).id == id by {
        assert(all.contains(id));
        let k = choose|k: int| 0 <= k < all.len() && all[k] == id;
        assert(cs[k].id == all[k]);
    }
    assert forall|i: int, j: int| 0 <= i < j < cs.len() implies (#[trigger] cs[i]).id != (
    #[trigger] cs[j]).id by {
        assert(cs[i].id == all[i]);
        assert(cs[j].id == all[j]);
    }
}


/// A listing with only a tag lists the clips tied to that tag in lower
/// case, each once.
pub proof fn law_tag_listing(v: DbView, f: ClipFilterView, cs: Seq<ClipView>, t: Seq<char>)
    requires
        f.tag == Some(t),
        f.from_date is None,
        f.to_date is None,
        f.limit is None,
        listed(v, f, cs),
    ensures
        forall|i: int|
            0 <= i < cs.len() ==> v.tags.contains(((#[trigger] cs[i]).id, lowercase(t)))
                && v.clips.contains_key(cs[i].id),
        forall|id: i64|
            v.clips.contains_key(id) && v.tags.contains((id, lowercase(t))) ==> exists|i: int|
                0 <= i < cs.len() && (#[trigger] cs[i]).id == id,
        forall|i: int, j: int| 0 <= i < j < cs.len() ==> (#[trigger] cs[i]).id != (#[trigger] cs[j]).id,
{
    let pred = listing_pred(v.tags, f);
    let all = choose|all: Seq<i64>|
        #[trigger] sorted_matches(v.clips, pred, all) && crate::db::clips_at(
            v,
            all,
            limit_val(f),
            offset_val(f),
            cs,
        );
    assert(limit_val(f) == -1 && offset_val(f) == 0);
    assert(window_start(all.len() as int, 0i64) == 0);
    assert(window_end(all.len() as int, -1i64, 0i64) == all.len());
    assert forall|i: int| 0 <= i < cs.len() implies v.tags.contains(
        ((#[trigger] cs[i]).id, lowercase(t)),
    ) && v.clips.contains_key(cs[i].id) by {
        assert(cs[i].id == all[i]);
        assert(pred(all[i], v.clips[all[i]]));
    }
    assert forall|id: i64| v.clips.contains_key(id) && v.tags.contains((id, lowercase(t))) implies exists|i: int|
        0 <= i < cs.len() && (#[trigger] cs[i]).id == id by {
        assert(pred(id, v.clips[id]));
        assert(all.contains(id));
        let k = choose|k: int| 0 <= k < all.len() && all[k] == id;
        assert(cs[k].id == all[k]);
    }
    assert forall|i: int, j: int| 0 <= i < j < cs.len() implies (#[trigger] cs[i]).id != (
    #[trigger] cs[j]).id by {
        assert(cs[i].id == all[i]);
        assert(cs[j].id == all[j]);
    }
}

/// The `clip_tags` pairs of a store agree with its clips' tags texts: clip
/// `id` carries tag `t` there exactly when it is saved and its tags, read
/// back, hold `t`.
pub open spec fn tags_agree(v: DbView) -> bool {
    forall|id: i64, t: Seq<char>|
        #[trigger] v.tags.contains((id, t)) <==> v.clips.contains_key(id) && existing_tags(
            v.clips[id],
        ).contains(t)
}

/// Tags that the stored tags text gives back as they are: none holds a
/// comma, the separator, and each is its own trimmed text.
pub open spec fn column_safe(ts: Seq<Seq<char>>) -> bool {
    forall|i: int| 0 <= i < ts.len() ==> !(#[trigger] ts[i]).contains(',') && trim_spec(ts[i]) == ts[i]
}

/// Non-empty tags that the stored tags text gives back as they are, are read
/// back as written.
proof fn lemma_column_round_trip(ts: Seq<Seq<char>>)
    requires
        column_safe(ts),
        forall|i: int| 0 <= i < ts.len() ==> (#[trigger] ts[i]).len() > 0,
    ensures
        tags_from_column(tags_column_text(ts)) == ts,
{
    if ts.len() > 0 {
        lemma_split_join(ts, ',');
        lemma_join_nonempty(ts, seq![',']);
        assert(trim_all(ts) =~= ts);
    } else {
        assert(tags_column_text(ts) =~= Seq::<char>::empty());
    }
}

/// Deleting a clip keeps the tag pairs in agreement with the tags texts.
pub proof fn law_delete_keeps_tags_agree(before: DbView, after: DbView, id: i64, existed: bool)
    requires
        tags_agree(before),
        deleted(before, after, id, existed),
    ensures
        tags_agree(after),
{
    assert forall|k: i64, t: Seq<char>| #[trigger] after.tags.contains((k, t)) <==> after.clips.contains_key(k)
        && existing_tags(after.clips[k]).contains(t) by {
        assert(before.tags.contains((k, t)) <==> before.clips.contains_key(k) && existing_tags(
            before.clips[k],
        ).contains(t));
    }
}

/// Saving a clip keeps the tag pairs in agreement with the tags texts, when
/// its cleaned tags are read back as written (no comma in them, and none
/// changed by trimming once more).
pub proof fn law_insert_keeps_tags_agree(before: DbView, after: DbView, n: NewClipView, c: ClipView)
    requires
        tags_agree(before),
        inserted(before, after, n, c),
        column_safe(clean_tags_spec(n.tags)),
    ensures
        tags_agree(after),
{
    let ts = clean_tags_spec(n.tags);
    law_clean_tags(n.tags);
    lemma_column_round_trip(ts);
    let row = new_clip_row(n, c.date_saved);
    assert(existing_tags(row) == ts);
    assert forall|k: i64, t: Seq<char>| #[trigger] after.tags.contains((k, t)) <==> after.clips.contains_key(k)
        && existing_tags(after.clips[k]).contains(t) by {
        assert(before.tags.contains((k, t)) <==> before.clips.contains_key(k) && existing_tags(
            before.clips[k],
        ).contains(t));
        if k == c.id {
            assert(after.clips[k] == row);
            assert(tag_rows_of(c.id, ts).contains((k, t)) <==> ts.contains(t));
        }
    }
}

/// Giving a clip a new tag list with `update_clip` keeps the tag pairs in
/// agreement with the tags texts, when the cleaned new tags are read back as
/// written.
pub proof fn law_retag_keeps_tags_agree(before: DbView, after: DbView, u: UpdateClipView)
    requires
        tags_agree(before),
        updated_with(before, after, u),
        before.clips[u.id].len() == row_width(),
        u.tags is Some,
        column_safe(clean_tags_spec(u.tags->Some_0)),
    ensures
        tags_agree(after),
{
    let ts = clean_tags_spec(u.tags->Some_0);
    law_clean_tags(u.tags->Some_0);
    lemma_column_round_trip(ts);
    let row = before.clips[u.id];
    assert(updated_tag_list(row, u) == ts);
    let date = choose|date: Seq<char>|
        rfc3339_utc(date) == Some(date) && after.clips == #[trigger] before.clips.insert(
            u.id,
            updated_clip_row(row, u, date),
        );
    let new_row = updated_clip_row(row, u, date);
    assert(new_row[col_tags()] == SqlVal::Text(tags_column_text(ts)));
    assert(existing_tags(new_row) == ts);
    assert forall|k: i64, t: Seq<char>| #[trigger] after.tags.contains((k, t)) <==> after.clips.contains_key(k)
        && existing_tags(after.clips[k]).contains(t) by {
        assert(before.tags.contains((k, t)) <==> before.clips.contains_key(k) && existing_tags(
            before.clips[k],
        ).contains(t));
        if k == u.id {
            assert(after.clips[k] == new_row);
            assert(tag_rows_of(u.id, ts).contains((k, t)) <==> ts.contains(t));
            assert(!tags_without(before.tags, u.id).contains((k, t)));
        } else {
            assert(tags_without(before.tags, u.id).contains((k, t)) <==> before.tags.contains((k, t)));
        }
    }
}

/// Deleting a clip takes it off the clips that carry each tag, so each of
/// its tags is counted once less.
pub proof fn law_delete_drops_tags(before: DbView, after: DbView, id: i64, existed: bool, t: Seq<char>)
    requires
        deleted(before, after, id, existed),
    ensures
        clips_with_tag(after.tags, t) == clips_with_tag(before.tags, t).remove(id),
{
    assert(clips_with_tag(after.tags, t) =~= clips_with_tag(before.tags, t).remove(id));
}

/// The clips saved one after another on a new store get ids 1, 2, 3, ...:
/// saving into a store whose last id handed out is `s` gives id `s + 1`.
pub proof fn law_next_id(before: DbView, after: DbView, n: NewClipView, c: ClipView)
    requires
        inserted(before, after, n, c),
    ensures
        c.id == before.seq + 1,
        after.seq == c.id,
{
}

/// A saved clip carries every field of the new clip it was made from, its
/// tags aside (they are cleaned): url, title, description, notes, content
/// text, screenshot path, favicon url, author, site name and reading time;
/// and it was saved and last updated at the same instant.
pub proof fn law_insert_keeps_fields(before: DbView, after: DbView, n: NewClipView, c: ClipView)
    requires
        inserted(before, after, n, c),
    ensures
        c.url == n.url,
        c.title == n.title,
        c.description == n.description,
        c.notes == n.notes,
        c.content_text == n.content_text,
        c.screenshot_path == n.screenshot_path,
        c.favicon_url == n.favicon_url,
        c.author == n.author,
        c.site_name == n.site_name,
        c.reading_time_mins == n.reading_time_mins,
        c.date_saved == c.date_updated,
{
    let row = new_clip_row(n, c.date_saved);
    let cols = clip_columns(c.id, row);
    assert(cols[10] == row[9]);
    assert(cols[11] == row[10]);
    if let Some(m) = n.reading_time_mins {
        assert((m as i64) as u32 == m);
    }
}

/// An update gives the clip the title, description and notes it names and
/// leaves each one it leaves out as the clip had it; the url, content text,
/// screenshot path, favicon url, author, site name and reading time stay as
/// they were, and so does the saved date when it was readable; new tags
/// are the cleaned ones given (when the tags text gives them back as they
/// are).
pub proof fn law_update_keeps_absent_fields(
    before: DbView,
    after: DbView,
    u: UpdateClipView,
    c: ClipView,
    old: ClipView,
)
    requires
        updated(before, after, u, c),
        reads_as(old, clip_columns(u.id, before.clips[u.id])),
    ensures
        c.title == (match u.title {
            Some(t) => t,
            None => old.title,
        }),
        c.description == (match u.description {
            Some(d) => Some(d),
            None => old.description,
        }),
        c.notes == (match u.notes {
            Some(t) => Some(t),
            None => old.notes,
        }),
        c.url == old.url,
        c.content_text == old.content_text,
        c.screenshot_path == old.screenshot_path,
        c.favicon_url == old.favicon_url,
        c.author == old.author,
        c.site_name == old.site_name,
        c.reading_time_mins == old.reading_time_mins,
        rfc3339_utc(before.clips[u.id][col_saved()]->Text_0) is Some ==> c.date_saved == old.date_saved,
        u.tags is Some && column_safe(clean_tags_spec(u.tags->Some_0)) ==> c.tags == clean_tags_spec(
            u.tags->Some_0,
        ),
{
    if let Some(ts) = u.tags {
        if column_safe(clean_tags_spec(ts)) {
            law_clean_tags(ts);
            lemma_column_round_trip(clean_tags_spec(ts));
        }
    }
    let row = before.clips[u.id];
    let new_row = after.clips[u.id];
    let a = clip_columns(u.id, row);
    let b = clip_columns(u.id, new_row);
    assert(new_row == updated_clip_row(row, u, c.date_updated));
    assert(b[1] == a[1]);
    assert(b[6] == a[6]);
    assert(b[7] == a[7]);
    assert(b[8] == a[8]);
    assert(b[9] == a[9]);
    assert(b[10] == a[10]);
    assert(b[11] == a[11]);
    assert(b[12] == a[12]);
}

/// A clip is within the tag and date conditions of a filter: it carries the
/// tag (lower-cased), and its stored saved date is no earlier than
/// `from_date` and no later than `to_date`, as SQLite compares them.
pub open spec fn within_filter(v: DbView, f: ClipFilterView, id: i64) -> bool {
    let saved = v.clips[id][col_saved()];
    &&& f.tag matches Some(t) ==> v.tags.contains((id, lowercase(t)))
    &&& f.from_date matches Some(d) ==> sql_ge_text(saved, d)
    &&& f.to_date matches Some(d) ==> sql_le_text(saved, d)
}

/// Every clip a search returns is a stored clip within the filter's tag and
/// date conditions: a search text narrows what the filter selects, never
/// widens it.
pub proof fn law_search_within_filter(v: DbView, f: ClipFilterView, cs: Seq<ClipView>)
    requires
        searched(v, f, cs),
    ensures
        forall|i: int|
            0 <= i < cs.len() ==> v.clips.contains_key(#[trigger] cs[i].id) && within_filter(
                v,
                f,
                cs[i].id,
            ),
{
    let fts = crate::db::fts_search_pred(v.tags, f);
    let like = crate::db::like_search_pred(v.tags, f);
    if cs.len() > 0 && crate::db::clips_found(v, fts, limit_val(f), cs) {
        assert forall|i: int| 0 <= i < cs.len() implies v.clips.contains_key(#[trigger] cs[i].id)
            && within_filter(v, f, cs[i].id) by {
            assert(fts(cs[i].id, v.clips[cs[i].id]));
        }
    } else {
        let all = choose|all: Seq<i64>|
            #[trigger] sorted_matches(v.clips, like, all) && crate::db::clips_at(v, all, limit_val(f), 0, cs);
        let st = window_start(all.len() as int, 0);
        assert forall|i: int| 0 <= i < cs.len() implies v.clips.contains_key(#[trigger] cs[i].id)
            && within_filter(v, f, cs[i].id) by {
            assert(cs[i].id == all[st + i]);
            assert(0 <= st + i < all.len());
            assert(like(all[st + i], v.clips[all[st + i]]));
        }
    }
}

} // verus!
