//! The SQLite statements of the clip store, the model of the tables they act
//! on, and the calls into `rusqlite` that run them.
//!
//! The contents of the `clips` and `clip_tags` tables of a connection are
//! named by `stored_clips` and `stored_tags`; each call states, over these
//! names, what the statement it runs does to the tables and returns.
use vstd::prelude::*;
use crate::query::like_pattern;

verus! {

#[verifier::external_type_specification]
#[verifier::external_body]
pub struct ExConnection(rusqlite::Connection);

#[verifier::external_type_specification]
#[verifier::external_body]
pub struct ExSqliteError(rusqlite::Error);

#[verifier::external_type_specification]
#[verifier::external_body]
pub struct ExSqliteValue(rusqlite::types::Value);

/// One SQL value as it is bound to a statement or read from a result row.
/// A floating-point value read back is kept only as the fact that it was one.
#[derive(Debug, Clone)]
pub enum SqlValue {
    Null,
    Integer(i64),
    Text(String),
    Blob(Vec<u8>),
    Real,
}

/// The mathematical value of a `SqlValue`.
pub enum SqlVal {
    Null,
    Integer(i64),
    Text(Seq<char>),
    Blob(Seq<u8>),
    Real,
}

impl View for SqlValue {
    type V = SqlVal;

    open spec fn view(&self) -> SqlVal {
        match self {
            SqlValue::Null => SqlVal::Null,
            SqlValue::Integer(i) => SqlVal::Integer(*i),
            SqlValue::Text(s) => SqlVal::Text(s@),
            SqlValue::Blob(b) => SqlVal::Blob(b@),
            SqlValue::Real => SqlVal::Real,
        }
    }
}

impl DeepView for SqlValue {
    type V = SqlVal;

    open spec fn deep_view(&self) -> SqlVal {
        self@
    }
}

/// An optional text, bound as NULL when absent.
pub open spec fn opt_text_val(s: Option<Seq<char>>) -> SqlVal {
    match s {
        Some(t) => SqlVal::Text(t),
        None => SqlVal::Null,
    }
}

/// Whether `v` is a text value or NULL.
pub open spec fn is_text_or_null(v: SqlVal) -> bool {
    v is Text || v is Null
}

// Column positions inside a stored clip row (the `id` column is the key).
pub open spec fn col_url() -> int { 0 }
pub open spec fn col_title() -> int { 1 }
pub open spec fn col_description() -> int { 2 }
pub open spec fn col_tags() -> int { 3 }
pub open spec fn col_notes() -> int { 4 }
pub open spec fn col_content() -> int { 5 }
pub open spec fn col_screenshot() -> int { 6 }
pub open spec fn col_favicon() -> int { 7 }
pub open spec fn col_author() -> int { 8 }
pub open spec fn col_site() -> int { 9 }
pub open spec fn col_reading_time() -> int { 10 }
pub open spec fn col_saved() -> int { 11 }
pub open spec fn col_updated() -> int { 12 }

/// The number of columns of a stored clip row besides its `id`.
pub open spec fn row_width() -> int { 13 }

/// The rows of the `clips` table of a connection, keyed by `id`; each row
/// holds the 13 other columns in the order of `SELECT_CLIP_COLUMNS`.
pub uninterp spec fn stored_clips(conn: rusqlite::Connection) -> Map<i64, Seq<SqlVal>>;

/// The rows of the `clip_tags` table of a connection: (clip id, tag).
pub uninterp spec fn stored_tags(conn: rusqlite::Connection) -> Set<(i64, Seq<char>)>;

/// The database behind a connection holds the tables, index and triggers
/// that `SCHEMA_SQL` creates, as it creates them, and no other connection
/// writes to it (so every clip got its id from the `clips` table's
/// AUTOINCREMENT sequence).
pub uninterp spec fn sole_store(conn: rusqlite::Connection) -> bool;

/// A connection to a private in-memory database (no other connection can
/// reach it) that holds no table but, possibly, an empty `migrations`.
pub uninterp spec fn blank_memory(conn: rusqlite::Connection) -> bool;

/// The connection enforces foreign keys (`PRAGMA foreign_keys` is on).
pub uninterp spec fn foreign_keys_on(conn: rusqlite::Connection) -> bool;

/// The path a connection was opened on (what `Connection::open` was given).
pub uninterp spec fn conn_path(conn: rusqlite::Connection) -> Seq<char>;

/// The largest id the `clips` table has handed out: its row of
/// `sqlite_sequence` (0 while there is none).
pub uninterp spec fn clip_seq(conn: rusqlite::Connection) -> i64;

/// The rowid of the most recent successful INSERT on a connection.
pub uninterp spec fn last_rowid(conn: rusqlite::Connection) -> i64;

/// `q` occurs in `t` as a run of consecutive characters.
pub open spec fn is_infix(q: Seq<char>, t: Seq<char>) -> bool {
    exists|i: int| 0 <= i && i + q.len() <= t.len() && #[trigger] t.subrange(i, i + q.len()) == q
}

/// A text and a search text that SQLite's `LIKE` reads whole: the text holds
/// no NUL character (SQLite reads both as C strings, which end at the first
/// NUL), and the pattern `%q%` is within SQLite's default limit of 50000
/// bytes (a character takes at most 4).
pub open spec fn like_readable(q: Seq<char>, t: Seq<char>) -> bool {
    &&& !t.contains('\0')
    &&& 4 * (q.len() + 2) <= 50000
}

/// What SQLite's `LIKE` operator yields for a pattern and a value (case
/// folding of ASCII letters, `%` and `_` wildcards; false for NULL).
pub uninterp spec fn sql_like(pattern: Seq<char>, value: SqlVal) -> bool;

/// Whether an FTS5 `MATCH` of `query` (default `unicode61` tokenizer) selects
/// the full-text entry the triggers of the schema keep for a stored clip row
/// (its title, description, content text, tags, notes and url).
pub uninterp spec fn fts_match(query: Seq<char>, row: Seq<SqlVal>) -> bool;

/// A result row of a clip query: the `id` followed by the stored columns.
pub open spec fn clip_columns(id: i64, row: Seq<SqlVal>) -> Seq<SqlVal> {
    seq![SqlVal::Integer(id)] + row
}

/// The `id` of a result row whose first column is an integer.
pub open spec fn row_id(r: Seq<SqlVal>) -> i64 {
    match r[0] {
        SqlVal::Integer(i) => i,
        _ => 0,
    }
}

/// Lexicographic order of texts by code point (SQLite's BINARY collation on
/// UTF-8 text).
pub open spec fn text_le(a: Seq<char>, b: Seq<char>) -> bool
    decreases a.len(),
{
    if a.len() == 0 {
        true
    } else if b.len() == 0 {
        false
    } else if a[0] != b[0] {
        (a[0] as int) < (b[0] as int)
    } else {
        text_le(a.drop_first(), b.drop_first())
    }
}

/// Lexicographic order of byte strings.
pub open spec fn bytes_le(a: Seq<u8>, b: Seq<u8>) -> bool
    decreases a.len(),
{
    if a.len() == 0 {
        true
    } else if b.len() == 0 {
        false
    } else if a[0] != b[0] {
        a[0] < b[0]
    } else {
        bytes_le(a.drop_first(), b.drop_first())
    }
}

/// The storage class rank SQLite sorts by: NULL, numbers, text, blobs.
pub open spec fn class_rank(v: SqlVal) -> int {
    match v {
        SqlVal::Null => 0,
        SqlVal::Integer(_) => 1,
        SqlVal::Real => 1,
        SqlVal::Text(_) => 2,
        SqlVal::Blob(_) => 3,
    }
}

/// `a` sorts no later than `b` in an ascending `ORDER BY` (pairs that involve
/// a floating-point value are left open).
pub open spec fn sql_le(a: SqlVal, b: SqlVal) -> bool {
    if class_rank(a) != class_rank(b) {
        class_rank(a) < class_rank(b)
    } else {
        match (a, b) {
            (SqlVal::Integer(x), SqlVal::Integer(y)) => x <= y,
            (SqlVal::Text(x), SqlVal::Text(y)) => text_le(x, y),
            (SqlVal::Blob(x), SqlVal::Blob(y)) => bytes_le(x, y),
            _ => true,
        }
    }
}

/// `v >= t` for a text bound `t`, as SQLite compares a column with a text.
pub open spec fn sql_ge_text(v: SqlVal, t: Seq<char>) -> bool {
    match v {
        SqlVal::Text(x) => text_le(t, x),
        SqlVal::Blob(_) => true,
        _ => false,
    }
}

/// `v <= t` for a text bound `t`, as SQLite compares a column with a text.
pub open spec fn sql_le_text(v: SqlVal, t: Seq<char>) -> bool {
    match v {
        SqlVal::Text(x) => text_le(x, t),
        SqlVal::Integer(_) => true,
        SqlVal::Real => true,
        _ => false,
    }
}

/// The conditions that the clip queries share: an optional tag that the clip
/// must carry, and optional bounds on the saved date (all bound as NULL when
/// absent).
pub open spec fn clip_filter_holds(
    tags: Set<(i64, Seq<char>)>,
    tag: SqlVal,
    from: SqlVal,
    to: SqlVal,
    id: i64,
    row: Seq<SqlVal>,
) -> bool {
    &&& (match tag {
        SqlVal::Text(t) => tags.contains((id, t)),
        _ => true,
    })
    &&& (match from {
        SqlVal::Text(t) => sql_ge_text(row[col_saved()], t),
        _ => true,
    })
    &&& (match to {
        SqlVal::Text(t) => sql_le_text(row[col_saved()], t),
        _ => true,
    })
}

/// The tag and date parameters of a clip query are each text or NULL (the
/// only kinds `clip_filter_holds` describes).
pub open spec fn filter_params_ok(tag: SqlVal, from: SqlVal, to: SqlVal) -> bool {
    &&& is_text_or_null(tag)
    &&& is_text_or_null(from)
    &&& is_text_or_null(to)
}

/// The conditions of a listing, as a predicate on a stored row.
pub open spec fn filter_pred(
    tags: Set<(i64, Seq<char>)>,
    tag: SqlVal,
    from: SqlVal,
    to: SqlVal,
) -> spec_fn(i64, Seq<SqlVal>) -> bool {
    |id: i64, row: Seq<SqlVal>| clip_filter_holds(tags, tag, from, to, id, row)
}

/// The conditions of a `LIKE` search: those of a listing, and one of the
/// title, description, content text, notes, tags and url columns is `like`.
pub open spec fn like_pred(
    tags: Set<(i64, Seq<char>)>,
    tag: SqlVal,
    from: SqlVal,
    to: SqlVal,
    like: spec_fn(SqlVal) -> bool,
) -> spec_fn(i64, Seq<SqlVal>) -> bool {
    |id: i64, row: Seq<SqlVal>|
        clip_filter_holds(tags, tag, from, to, id, row) && (like(row[col_title()]) || like(
            row[col_description()],
        ) || like(row[col_content()]) || like(row[col_notes()]) || like(row[col_tags()]) || like(
            row[col_url()],
        ))
}

/// The conditions of a full-text search: those of a listing, and `matches`.
pub open spec fn fts_pred(
    tags: Set<(i64, Seq<char>)>,
    tag: SqlVal,
    from: SqlVal,
    to: SqlVal,
    matches: spec_fn(Seq<SqlVal>) -> bool,
) -> spec_fn(i64, Seq<SqlVal>) -> bool {
    |id: i64, row: Seq<SqlVal>| clip_filter_holds(tags, tag, from, to, id, row) && matches(row)
}

/// `all` lists, once each, the ids of the rows of `rows` that satisfy
/// `pred`, latest saved first (rows saved at the same time in any order).
pub open spec fn sorted_matches(
    rows: Map<i64, Seq<SqlVal>>,
    pred: spec_fn(i64, Seq<SqlVal>) -> bool,
    all: Seq<i64>,
) -> bool {
    &&& forall|i: int|
        0 <= i < all.len() ==> rows.contains_key(#[trigger] all[i]) && pred(all[i], rows[all[i]])
    &&& forall|i: int, j: int|
        0 <= i < j < all.len() ==> #[trigger] all[i] != #[trigger] all[j] && sql_le(
            rows[all[j]][col_saved()],
            rows[all[i]][col_saved()],
        )
    &&& forall|id: i64| #[trigger] rows.contains_key(id) && pred(id, rows[id]) ==> all.contains(id)
}

/// Where the rows kept by `LIMIT limit OFFSET offset` start, in a list of
/// `n` rows (a negative offset counts as none).
pub open spec fn window_start(n: int, offset: i64) -> int {
    if offset <= 0 {
        0
    } else if offset < n {
        offset as int
    } else {
        n
    }
}

/// Where the rows kept by `LIMIT limit OFFSET offset` end, in a list of `n`
/// rows (a negative limit means no limit).
pub open spec fn window_end(n: int, limit: i64, offset: i64) -> int {
    let s = window_start(n, offset);
    if limit < 0 || s + limit > n {
        n
    } else {
        s + limit
    }
}

/// `out` holds the result rows, `id` first, of the ids `all` kept by
/// `LIMIT limit OFFSET offset`.
pub open spec fn window_rows(
    rows: Map<i64, Seq<SqlVal>>,
    all: Seq<i64>,
    limit: i64,
    offset: i64,
    out: Seq<Seq<SqlVal>>,
) -> bool {
    let s = window_start(all.len() as int, offset);
    &&& out.len() == window_end(all.len() as int, limit, offset) - s
    &&& forall|i: int|
        0 <= i < out.len() ==> rows[all[s + i]].len() == row_width() && #[trigger] out[i]
            == clip_columns(all[s + i], rows[all[s + i]])
}

/// `out` is a result of `SELECT ... WHERE pred ORDER BY date_saved DESC
/// LIMIT limit OFFSET offset` on `rows`.
pub open spec fn ordered_selection(
    rows: Map<i64, Seq<SqlVal>>,
    pred: spec_fn(i64, Seq<SqlVal>) -> bool,
    limit: i64,
    offset: i64,
    out: Seq<Seq<SqlVal>>,
) -> bool {
    exists|all: Seq<i64>|
        #[trigger] sorted_matches(rows, pred, all) && window_rows(rows, all, limit, offset, out)
}

/// `out` is a result of a query whose rows satisfy `pred`, each at most once,
/// in an order that is not stated, cut to `limit` rows (a negative limit
/// means no limit, and then every such row is there).
pub open spec fn unordered_selection(
    rows: Map<i64, Seq<SqlVal>>,
    pred: spec_fn(i64, Seq<SqlVal>) -> bool,
    limit: i64,
    out: Seq<Seq<SqlVal>>,
) -> bool {
    &&& forall|i: int|
        0 <= i < out.len() ==> {
            let id = row_id(#[trigger] out[i]);
            &&& out[i][0] is Integer
            &&& rows.contains_key(id)
            &&& rows[id].len() == row_width()
            &&& pred(id, rows[id])
            &&& out[i] == clip_columns(id, rows[id])
        }
    &&& forall|i: int, j: int|
        0 <= i < j < out.len() ==> row_id(#[trigger] out[i]) != row_id(#[trigger] out[j])
    &&& limit >= 0 ==> out.len() <= limit
    &&& limit < 0 ==> forall|id: i64|
        #[trigger] rows.contains_key(id) && pred(id, rows[id]) ==> exists|i: int|
            0 <= i < out.len() && row_id(#[trigger] out[i]) == id
}

/// The distinct tags of the `clip_tags` table.
pub open spec fn tag_names(tags: Set<(i64, Seq<char>)>) -> Set<Seq<char>> {
    Set::new(|t: Seq<char>| exists|c: i64| tags.contains((c, t)))
}

/// The ids of the clips that carry tag `t` in the `clip_tags` table.
pub open spec fn clips_with_tag(tags: Set<(i64, Seq<char>)>, t: Seq<char>) -> Set<i64> {
    Set::new(|c: i64| tags.contains((c, t)))
}

/// The parameters of `INSERT_CLIP_SQL` are typed as the columns they fill.
pub open spec fn insert_params_typed(p: Seq<SqlVal>) -> bool {
    &&& p.len() == row_width()
    &&& p[col_url()] is Text
    &&& p[col_title()] is Text
    &&& is_text_or_null(p[col_description()])
    &&& p[col_tags()] is Text
    &&& is_text_or_null(p[col_notes()])
    &&& is_text_or_null(p[col_content()])
    &&& is_text_or_null(p[col_screenshot()])
    &&& is_text_or_null(p[col_favicon()])
    &&& is_text_or_null(p[col_author()])
    &&& is_text_or_null(p[col_site()])
    &&& (p[col_reading_time()] is Integer || p[col_reading_time()] is Null)
    &&& p[col_saved()] is Text
    &&& p[col_updated()] is Text
}

/// Whether some stored clip has the url `u`.
pub open spec fn url_taken(rows: Map<i64, Seq<SqlVal>>, u: SqlVal) -> bool {
    exists|id: i64| #[trigger] rows.contains_key(id) && rows[id][col_url()] == u
}

/// A stored row after `UPDATE_CLIP_SQL` with parameters `p`.
pub open spec fn row_updated(row: Seq<SqlVal>, p: Seq<SqlVal>) -> Seq<SqlVal> {
    row.update(col_title(), p[0]).update(col_description(), p[1]).update(col_tags(), p[2]).update(
        col_notes(),
        p[3],
    ).update(col_updated(), p[4])
}

/// The parameters of `UPDATE_CLIP_SQL` are typed as the columns they fill.
pub open spec fn update_params_typed(p: Seq<SqlVal>) -> bool {
    &&& p.len() == 6
    &&& p[0] is Text
    &&& is_text_or_null(p[1])
    &&& p[2] is Text
    &&& is_text_or_null(p[3])
    &&& p[4] is Text
    &&& p[5] is Integer
}

/// The rows of `clip_tags` that belong to clips other than `id`.
pub open spec fn tags_without(tags: Set<(i64, Seq<char>)>, id: i64) -> Set<(i64, Seq<char>)> {
    tags.filter(|p: (i64, Seq<char>)| p.0 != id)
}

pub const PRAGMA_MEMORY_SQL: &'static str = "PRAGMA foreign_keys = ON;";

pub const PRAGMA_FILE_SQL: &'static str = "PRAGMA foreign_keys = ON;
             PRAGMA journal_mode = WAL;";

pub const MIGRATIONS_TABLE_SQL: &'static str = "CREATE TABLE IF NOT EXISTS migrations (
                id INTEGER PRIMARY KEY,
                version INTEGER NOT NULL UNIQUE,
                applied_at TEXT NOT NULL
            );";

pub const SCHEMA_VERSION_SQL: &'static str = "SELECT COALESCE(MAX(version), 0) FROM migrations";

pub const SCHEMA_SQL: &'static str = "CREATE TABLE IF NOT EXISTS clips (
                    id INTEGER PRIMARY KEY AUTOINCREMENT,
                    url TEXT NOT NULL UNIQUE,
                    title TEXT NOT NULL,
                    description TEXT,
                    tags TEXT NOT NULL,
                    notes TEXT,
                    content_text TEXT,
                    screenshot_path TEXT,
                    favicon_url TEXT,
                    author TEXT,
                    site_name TEXT,
                    reading_time_mins INTEGER,
                    date_saved TEXT NOT NULL,
                    date_updated TEXT NOT NULL
                );

                CREATE TABLE IF NOT EXISTS clip_tags (
                    clip_id INTEGER NOT NULL,
                    tag TEXT NOT NULL,
                    PRIMARY KEY (clip_id, tag),
                    FOREIGN KEY (clip_id) REFERENCES clips(id) ON DELETE CASCADE
                );
                CREATE INDEX IF NOT EXISTS idx_clip_tags_tag ON clip_tags(tag);

                CREATE VIRTUAL TABLE IF NOT EXISTS clips_fts USING fts5(
                    clip_id UNINDEXED,
                    title,
                    description,
                    content_text,
                    tags,
                    notes,
                    url
                );

                CREATE TRIGGER IF NOT EXISTS clips_ai AFTER INSERT ON clips BEGIN
                    INSERT INTO clips_fts(clip_id, title, description, content_text, tags, notes, url)
                    VALUES (new.id, new.title, COALESCE(new.description, ''), COALESCE(new.content_text, ''), new.tags, COALESCE(new.notes, ''), new.url);
                END;

                CREATE TRIGGER IF NOT EXISTS clips_ad AFTER DELETE ON clips BEGIN
                    DELETE FROM clips_fts WHERE clip_id = old.id;
                END;

                CREATE TRIGGER IF NOT EXISTS clips_au AFTER UPDATE ON clips BEGIN
                    DELETE FROM clips_fts WHERE clip_id = old.id;
                    INSERT INTO clips_fts(clip_id, title, description, content_text, tags, notes, url)
                    VALUES (new.id, new.title, COALESCE(new.description, ''), COALESCE(new.content_text, ''), new.tags, COALESCE(new.notes, ''), new.url);
                END;
                ";

pub const RECORD_MIGRATION_SQL: &'static str = "INSERT INTO migrations (version, applied_at) VALUES (1, ?1)";

pub const INSERT_CLIP_SQL: &'static str = "INSERT INTO clips (
                url, title, description, tags, notes, content_text,
                screenshot_path, favicon_url, author, site_name,
                reading_time_mins, date_saved, date_updated
            ) VALUES (?1, ?2, ?3, ?4, ?5, ?6, ?7, ?8, ?9, ?10, ?11, ?12, ?13)";

pub const INSERT_TAG_SQL: &'static str = "INSERT OR IGNORE INTO clip_tags (clip_id, tag) VALUES (?1, ?2)";

pub const SELECT_CLIP_BY_ID_SQL: &'static str = "SELECT id, url, title, description, tags, notes, content_text, screenshot_path, favicon_url, author, site_name, reading_time_mins, date_saved, date_updated
             FROM clips WHERE id = ?1";

pub const SELECT_CLIP_BY_URL_SQL: &'static str = "SELECT id, url, title, description, tags, notes, content_text, screenshot_path, favicon_url, author, site_name, reading_time_mins, date_saved, date_updated
             FROM clips WHERE url = ?1";

pub const UPDATE_CLIP_SQL: &'static str = "UPDATE clips SET title = ?1, description = ?2, tags = ?3, notes = ?4, date_updated = ?5 WHERE id = ?6";

pub const DELETE_CLIP_TAGS_SQL: &'static str = "DELETE FROM clip_tags WHERE clip_id = ?1";

pub const DELETE_CLIP_SQL: &'static str = "DELETE FROM clips WHERE id = ?1";

pub const LIST_CLIPS_SQL: &'static str = "SELECT c.id, c.url, c.title, c.description, c.tags, c.notes, c.content_text, c.screenshot_path, c.favicon_url, c.author, c.site_name, c.reading_time_mins, c.date_saved, c.date_updated
             FROM clips c
             WHERE (?1 IS NULL OR EXISTS (SELECT 1 FROM clip_tags ct WHERE ct.clip_id = c.id AND ct.tag = ?1))
               AND (?2 IS NULL OR c.date_saved >= ?2)
               AND (?3 IS NULL OR c.date_saved <= ?3)
             ORDER BY c.date_saved DESC LIMIT ?4 OFFSET ?5";

pub const SEARCH_FTS_SQL: &'static str = "SELECT c.id, c.url, c.title, c.description, c.tags, c.notes, c.content_text, c.screenshot_path, c.favicon_url, c.author, c.site_name, c.reading_time_mins, c.date_saved, c.date_updated
             FROM clips c
             JOIN clips_fts fts ON c.id = fts.clip_id
             WHERE clips_fts MATCH ?1
               AND (?2 IS NULL OR EXISTS (SELECT 1 FROM clip_tags ct WHERE ct.clip_id = c.id AND ct.tag = ?2))
               AND (?3 IS NULL OR c.date_saved >= ?3)
               AND (?4 IS NULL OR c.date_saved <= ?4)
             ORDER BY rank, c.date_saved DESC LIMIT ?5";

pub const SEARCH_LIKE_SQL: &'static str = "SELECT c.id, c.url, c.title, c.description, c.tags, c.notes, c.content_text, c.screenshot_path, c.favicon_url, c.author, c.site_name, c.reading_time_mins, c.date_saved, c.date_updated
             FROM clips c
             WHERE (?1 IS NULL OR EXISTS (SELECT 1 FROM clip_tags ct WHERE ct.clip_id = c.id AND ct.tag = ?1))
               AND (c.title LIKE ?2 OR c.description LIKE ?2 OR c.content_text LIKE ?2 OR c.notes LIKE ?2 OR c.tags LIKE ?2 OR c.url LIKE ?2)
               AND (?3 IS NULL OR c.date_saved >= ?3)
               AND (?4 IS NULL OR c.date_saved <= ?4)
             ORDER BY c.date_saved DESC LIMIT ?5";

pub const LIST_TAGS_SQL: &'static str = "SELECT tag, COUNT(*) as count FROM clip_tags GROUP BY tag ORDER BY count DESC, tag ASC";

pub const CLIP_IDS_WITH_TAG_SQL: &'static str = "SELECT clip_id FROM clip_tags WHERE tag = ?1";

pub const COUNT_CLIPS_SQL: &'static str = "SELECT COUNT(*) FROM clips";

/// The store's writing statements.
pub open spec fn is_write_sql(sql: Seq<char>) -> bool {
    ||| sql == RECORD_MIGRATION_SQL@
    ||| sql == INSERT_CLIP_SQL@
    ||| sql == INSERT_TAG_SQL@
    ||| sql == UPDATE_CLIP_SQL@
    ||| sql == DELETE_CLIP_TAGS_SQL@
    ||| sql == DELETE_CLIP_SQL@
}

/// The statements that create tables, indexes and triggers or set
/// connection options; none of them touches a row of `clips` or `clip_tags`.
pub open spec fn is_setup_sql(sql: Seq<char>) -> bool {
    ||| sql == PRAGMA_MEMORY_SQL@
    ||| sql == PRAGMA_FILE_SQL@
    ||| sql == MIGRATIONS_TABLE_SQL@
    ||| sql == SCHEMA_SQL@
}

/// What `execute` of one of the store's writing statements does to the
/// tables, for parameters `p` (`Ok(n)` carries the number of changed rows).
pub open spec fn execute_effect(
    sql: Seq<char>,
    p: Seq<SqlVal>,
    before: rusqlite::Connection,
    after: rusqlite::Connection,
    r: Result<usize, rusqlite::Error>,
) -> bool {
    let rows = stored_clips(before);
    let tags = stored_tags(before);
    &&& (sql == INSERT_CLIP_SQL@ && insert_params_typed(p)) ==> {
        match r {
            Ok(_) => {
                let id = last_rowid(after);
                &&& id == clip_seq(before) + 1
                &&& clip_seq(after) == id
                &&& !rows.contains_key(id)
                &&& forall|k: i64| #[trigger] rows.contains_key(k) ==> k < id
                &&& !url_taken(rows, p[col_url()])
                &&& stored_clips(after) == rows.insert(id, p)
                &&& stored_tags(after) == tags
            },
            Err(_) => stored_clips(after) == rows && stored_tags(after) == tags
                && clip_seq(after) == clip_seq(before),
        }
    }
    &&& (sql == INSERT_TAG_SQL@ && p.len() == 2 && p[0] is Integer && p[1] is Text) ==> {
        match r {
            Ok(_) => stored_clips(after) == rows && stored_tags(after) == tags.insert(
                (p[0]->Integer_0, p[1]->Text_0),
            ) && clip_seq(after) == clip_seq(before),
            Err(_) => stored_clips(after) == rows && stored_tags(after) == tags
                && clip_seq(after) == clip_seq(before),
        }
    }
    &&& (sql == UPDATE_CLIP_SQL@ && update_params_typed(p)) ==> {
        let id = p[5]->Integer_0;
        match r {
            Ok(n) => {
                &&& stored_tags(after) == tags
                &&& clip_seq(after) == clip_seq(before)
                &&& if rows.contains_key(id) {
                    n == 1 && stored_clips(after) == rows.insert(id, row_updated(rows[id], p))
                } else {
                    n == 0 && stored_clips(after) == rows
                }
            },
            Err(_) => stored_clips(after) == rows && stored_tags(after) == tags
                && clip_seq(after) == clip_seq(before),
        }
    }
    &&& (sql == DELETE_CLIP_TAGS_SQL@ && p.len() == 1 && p[0] is Integer) ==> {
        match r {
            Ok(_) => stored_clips(after) == rows && stored_tags(after) == tags_without(
                tags,
                p[0]->Integer_0,
            ) && clip_seq(after) == clip_seq(before),
            Err(_) => stored_clips(after) == rows && stored_tags(after) == tags
                && clip_seq(after) == clip_seq(before),
        }
    }
    &&& (sql == DELETE_CLIP_SQL@ && p.len() == 1 && p[0] is Integer) ==> {
        let id = p[0]->Integer_0;
        match r {
            Ok(n) => {
                &&& n == (if rows.contains_key(id) { 1usize } else { 0usize })
                &&& stored_clips(after) == rows.remove(id)
                &&& clip_seq(after) == clip_seq(before)
                &&& stored_tags(after).subset_of(tags)
                &&& tags_without(stored_tags(after), id) == tags_without(tags, id)
                &&& foreign_keys_on(before) ==> stored_tags(after) == tags_without(tags, id)
            },
            Err(_) => stored_clips(after) == rows && stored_tags(after) == tags
                && clip_seq(after) == clip_seq(before),
        }
    }
    &&& (sql == RECORD_MIGRATION_SQL@) ==> {
        stored_clips(after) == rows && stored_tags(after) == tags && clip_seq(after) == clip_seq(before)
    }
}

/// What a query of the store returns, for parameters `p`.
pub open spec fn query_result(
    sql: Seq<char>,
    p: Seq<SqlVal>,
    conn: rusqlite::Connection,
    out: Seq<Seq<SqlVal>>,
) -> bool {
    let rows = stored_clips(conn);
    let tags = stored_tags(conn);
    &&& (sql == SELECT_CLIP_BY_ID_SQL@ && p.len() == 1 && p[0] is Integer) ==> {
        let id = p[0]->Integer_0;
        if rows.contains_key(id) {
            out == seq![clip_columns(id, rows[id])] && rows[id].len() == row_width()
        } else {
            out.len() == 0
        }
    }
    &&& (sql == SELECT_CLIP_BY_URL_SQL@ && p.len() == 1 && p[0] is Text) ==> {
        &&& out.len() <= 1
        &&& (out.len() == 1 <==> url_taken(rows, p[0]))
        &&& out.len() == 1 ==> {
            let id = row_id(out[0]);
            &&& out[0][0] is Integer
            &&& rows.contains_key(id)
            &&& rows[id].len() == row_width()
            &&& rows[id][col_url()] == p[0]
            &&& out[0] == clip_columns(id, rows[id])
        }
    }
    &&& (sql == LIST_CLIPS_SQL@ && p.len() == 5 && p[3] is Integer && p[4] is Integer
        && filter_params_ok(p[0], p[1], p[2])) ==> {
        ordered_selection(rows, filter_pred(tags, p[0], p[1], p[2]), p[3]->Integer_0, p[4]->Integer_0, out)
    }
    &&& (sql == LIST_TAGS_SQL@ && p.len() == 0) ==> {
        &&& tags.finite()
        &&& forall|i: int|
            0 <= i < out.len() ==> {
                &&& (#[trigger] out[i]).len() == 2
                &&& out[i][0] is Text
                &&& out[i][1] is Integer
                &&& tag_names(tags).contains(out[i][0]->Text_0)
                &&& out[i][1]->Integer_0 == clips_with_tag(tags, out[i][0]->Text_0).len()
            }
        &&& forall|t: Seq<char>|
            #[trigger] tag_names(tags).contains(t) ==> exists|i: int|
                0 <= i < out.len() && (#[trigger] out[i])[0] == SqlVal::Text(t)
        &&& forall|i: int, j: int|
            0 <= i < j < out.len() ==> {
                let (a, b) = (#[trigger] out[i], #[trigger] out[j]);
                &&& a[0] != b[0]
                &&& (a[1]->Integer_0 > b[1]->Integer_0 || (a[1]->Integer_0 == b[1]->Integer_0
                    && text_le(a[0]->Text_0, b[0]->Text_0)))
            }
    }
    &&& (sql == CLIP_IDS_WITH_TAG_SQL@ && p.len() == 1 && p[0] is Text) ==> {
        let t = p[0]->Text_0;
        &&& forall|i: int|
            0 <= i < out.len() ==> (#[trigger] out[i]).len() == 1 && out[i][0] is Integer
                && tags.contains((row_id(out[i]), t))
        &&& forall|i: int, j: int|
            0 <= i < j < out.len() ==> row_id(#[trigger] out[i]) != row_id(#[trigger] out[j])
        &&& forall|c: i64|
            #[trigger] tags.contains((c, t)) ==> exists|i: int|
                0 <= i < out.len() && row_id(#[trigger] out[i]) == c
    }
    &&& (sql == COUNT_CLIPS_SQL@ && p.len() == 0) ==> {
        &&& rows.dom().finite()
        &&& out.len() == 1
        &&& out[0].len() == 1
        &&& out[0][0] == SqlVal::Integer(rows.dom().len() as i64)
        &&& rows.dom().len() <= i64::MAX
    }
}

/// Opens (or creates) the SQLite database file at `path` with
/// `rusqlite::Connection::open`: the connection is to that path. What the
/// file already holds is not known.
#[verifier::external_body]
pub(crate) fn sql_open(path: &str) -> (r: Result<rusqlite::Connection, rusqlite::Error>)
    ensures
        r is Ok ==> conn_path(r->Ok_0) == path@,
{
    rusqlite::Connection::open(path)
}

/// Opens a fresh in-memory database with
/// `rusqlite::Connection::open_in_memory`: a private database with no table
/// yet, so no rows.
#[verifier::external_body]
pub(crate) fn sql_open_in_memory() -> (opened: Result<rusqlite::Connection, rusqlite::Error>)
    ensures
        opened is Ok ==> blank_memory(opened->Ok_0),
        opened is Ok ==> clip_seq(opened->Ok_0) == 0,
        opened is Ok ==> stored_clips(opened->Ok_0).is_empty(),
        opened is Ok ==> stored_tags(opened->Ok_0).is_empty(),
{
    rusqlite::Connection::open_in_memory()
}

/// Runs `rusqlite::Connection::execute_batch` on one of the setup batches.
/// These only create tables, indexes and triggers (`IF NOT EXISTS`) or set
/// connection options, so on a database that only this connection writes
/// they leave the rows of `clips` and `clip_tags` and the id sequence as
/// they were and keep
/// `sole_store` and `blank_memory` (but for `SCHEMA_SQL`, which creates the
/// tables: run to the end on a blank database, it makes the store whole).
/// The foreign-key pragma batches turn foreign keys on when they succeed;
/// the others leave that setting alone. No batch changes the path the
/// connection is to. Of a database that other
/// connections may write nothing is claimed about its rows.
#[verifier::external_body]
pub(crate) fn sql_execute_batch(conn: &mut rusqlite::Connection, sql: &str) -> (r: Result<
    (),
    rusqlite::Error,
>)
    requires
        is_setup_sql(sql@),
    ensures
        sole_store(*old(conn)) || blank_memory(*old(conn)) ==> stored_clips(*final(conn))
            == stored_clips(*old(conn)) && stored_tags(*final(conn)) == stored_tags(*old(conn))
            && clip_seq(*final(conn)) == clip_seq(*old(conn)),
        sole_store(*old(conn)) ==> sole_store(*final(conn)),
        blank_memory(*old(conn)) && (sql@ == PRAGMA_MEMORY_SQL@ || sql@ == PRAGMA_FILE_SQL@ || sql@
            == MIGRATIONS_TABLE_SQL@) ==> blank_memory(*final(conn)),
        blank_memory(*old(conn)) && sql@ == SCHEMA_SQL@ && r is Ok ==> sole_store(*final(conn)),
        (sql@ == PRAGMA_MEMORY_SQL@ || sql@ == PRAGMA_FILE_SQL@) && r is Ok ==> foreign_keys_on(
            *final(conn),
        ),
        sql@ == MIGRATIONS_TABLE_SQL@ || sql@ == SCHEMA_SQL@ ==> foreign_keys_on(*final(conn))
            == foreign_keys_on(*old(conn)),
        conn_path(*final(conn)) == conn_path(*old(conn)),
{
    conn.execute_batch(sql)
}

/// Runs one of the store's writing statements with
/// `rusqlite::Connection::execute`, the parameters bound in order. On a
/// store with the schema that only this connection writes (`sole_store`),
/// the effect on the tables is `execute_effect` (SQLite runs each statement
/// atomically, so a failed one changes nothing) and the store stays so;
/// nothing is claimed of another database. No statement changes the
/// connection's foreign-key setting or the path it is to.
#[verifier::external_body]
pub(crate) fn sql_execute(conn: &mut rusqlite::Connection, sql: &str, params: &Vec<SqlValue>) -> (r:
    Result<usize, rusqlite::Error>)
    requires
        is_write_sql(sql@),
        forall|i: int| 0 <= i < params@.len() ==> !(params@[i] is Real),
    ensures
        sole_store(*old(conn)) ==> sole_store(*final(conn)) && execute_effect(
            sql@,
            params.deep_view(),
            *old(conn),
            *final(conn),
            r,
        ),
        foreign_keys_on(*final(conn)) == foreign_keys_on(*old(conn)),
        conn_path(*final(conn)) == conn_path(*old(conn)),
{
    let values: Vec<rusqlite::types::Value> = params.iter().map(SqlValue::to_sqlite).collect();
    conn.execute(sql, rusqlite::params_from_iter(values))
}

/// Calls `rusqlite::Connection::last_insert_rowid`.
#[verifier::external_body]
pub(crate) fn sql_last_insert_rowid(conn: &rusqlite::Connection) -> (r: i64)
    ensures
        r == last_rowid(*conn),
{
    conn.last_insert_rowid()
}

/// Runs one query with `rusqlite::Connection::prepare` and
/// `Statement::query`, the parameters bound in order, and hands back every
/// result row as its column values. On a store with the schema that only
/// this connection writes (`sole_store`): for the store's queries the rows
/// are those of `query_result`; for the `LIKE` search they are the rows
/// whose columns `sql_like` accepts, and for the full-text search the rows
/// that `fts_match` selects, in an order that is not claimed (it follows the
/// index's ranking). The filter parameters are described only when they are
/// text or NULL (SQLite would compare a number with a text column under text
/// affinity). With the `LIKE` search comes what SQLite's `LIKE` does with a
/// pattern `%q%`: it accepts every text without a NUL that holds `q` as a
/// run of characters, when the pattern is within the length limit (`%` matches any run, `_` any one character, and every other
/// character itself, ASCII letters in either case). On a blank in-memory
/// database the schema version reads 0.
/// Nothing is claimed of other SQL or of another database.
#[verifier::external_body]
pub(crate) fn sql_query(conn: &rusqlite::Connection, sql: &str, params: &Vec<SqlValue>) -> (r: Result<
    Vec<Vec<SqlValue>>,
    rusqlite::Error,
>)
    requires
        forall|i: int| 0 <= i < params@.len() ==> !(params@[i] is Real),
    ensures
        r is Ok && sole_store(*conn) ==> query_result(
            sql@,
            params.deep_view(),
            *conn,
            r->Ok_0.deep_view(),
        ),
        r is Ok && blank_memory(*conn) && sql@ == SCHEMA_VERSION_SQL@ && params@.len() == 0
            ==> r->Ok_0.deep_view() == seq![seq![SqlVal::Integer(0)]],
        r is Ok && sole_store(*conn) && sql@ == SEARCH_LIKE_SQL@ && params@.len() == 5
            && params@[1] is Text && params@[4] is Integer && filter_params_ok(
            params@[0]@,
            params@[2]@,
            params@[3]@,
        ) ==> ordered_selection(
            stored_clips(*conn),
            like_pred(
                stored_tags(*conn),
                params@[0]@,
                params@[2]@,
                params@[3]@,
                |v: SqlVal| sql_like(params@[1]@->Text_0, v),
            ),
            params@[4]->Integer_0,
            0,
            r->Ok_0.deep_view(),
        ) && forall|q: Seq<char>, t: Seq<char>|
            #[trigger] is_infix(q, t) && like_readable(q, t) ==> sql_like(
                like_pattern(q),
                SqlVal::Text(t),
            ),
        r is Ok && sole_store(*conn) && sql@ == SEARCH_FTS_SQL@ && params@.len() == 5
            && params@[0] is Text && params@[4] is Integer && filter_params_ok(
            params@[1]@,
            params@[2]@,
            params@[3]@,
        ) ==> unordered_selection(
            stored_clips(*conn),
            fts_pred(
                stored_tags(*conn),
                params@[1]@,
                params@[2]@,
                params@[3]@,
                |row: Seq<SqlVal>| fts_match(params@[0]@->Text_0, row),
            ),
            params@[4]->Integer_0,
            r->Ok_0.deep_view(),
        ),
{
    let mut stmt = conn.prepare(sql)?;
    let width = stmt.column_count();
    let values: Vec<rusqlite::types::Value> = params.iter().map(SqlValue::to_sqlite).collect();
    let mut rows = stmt.query(rusqlite::params_from_iter(values))?;
    let mut out = Vec::new();
    while let Some(row) = rows.next()? {
        let cols: Result<Vec<SqlValue>, rusqlite::Error> =
            (0..width).map(|i| row.get(i).map(SqlValue::from_sqlite)).collect();
        out.push(cols?);
    }
    Ok(out)
}

/// The text of a `rusqlite::Error`, by its `Display` implementation.
#[verifier::external_body]
pub(crate) fn sql_error_text(e: &rusqlite::Error) -> (r: String) {
    format!("{}", e)
}

impl SqlValue {
    /// The `rusqlite` value that binds this one (an absent float binds NULL).
    #[verifier::external_body]
    fn to_sqlite(&self) -> rusqlite::types::Value {
        match self {
            SqlValue::Null | SqlValue::Real => rusqlite::types::Value::Null,
            SqlValue::Integer(i) => rusqlite::types::Value::Integer(*i),
            SqlValue::Text(s) => rusqlite::types::Value::Text(s.clone()),
            SqlValue::Blob(b) => rusqlite::types::Value::Blob(b.clone()),
        }
    }

    /// The value read from a result column.
    #[verifier::external_body]
    fn from_sqlite(v: rusqlite::types::Value) -> SqlValue {
        match v {
            rusqlite::types::Value::Null => SqlValue::Null,
            rusqlite::types::Value::Integer(i) => SqlValue::Integer(i),
            rusqlite::types::Value::Real(_) => SqlValue::Real,
            rusqlite::types::Value::Text(s) => SqlValue::Text(s),
            rusqlite::types::Value::Blob(b) => SqlValue::Blob(b),
        }
    }
}

} // verus!
