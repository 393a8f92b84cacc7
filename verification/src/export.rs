//! Exports of saved clips: CSV through the `csv` crate, and a standalone
//! HTML page that embeds the clips as JSON.
use vstd::prelude::*;
use vstd::utf8::{decode_utf8, valid_utf8};
use crate::models::{Clip, ClipView};
use crate::text::{decimal, i64_text, join, join_spec, owned, signed_decimal, u64_text};

verus! {

#[verifier::external_type_specification]
#[verifier::external_body]
pub struct ExCsvError(csv::Error);

/// A `csv::Writer` into a byte buffer.
#[verifier::external_body]
pub struct CsvSink {
    writer: csv::Writer<Vec<u8>>,
}

#[verifier::external_type_specification]
#[verifier::external_body]
pub struct ExFromUtf8Error(std::string::FromUtf8Error);

/// The records a CSV writer has been given so far, each a list of fields.
pub uninterp spec fn csv_records(w: CsvSink) -> Seq<Seq<Seq<char>>>;

/// The bytes a CSV writer with the default settings of `csv::WriterBuilder`
/// (comma delimiter, `\n` terminator, fields quoted where needed) produces
/// for a list of records.
pub uninterp spec fn csv_encoding(records: Seq<Seq<Seq<char>>>) -> Seq<u8>;

/// Calls `csv::WriterBuilder::new().from_writer(Vec::new())`: a writer with
/// the default settings into an empty buffer, which has been given nothing.
#[verifier::external_body]
fn csv_writer() -> (w: CsvSink)
    ensures
        csv_records(w) == Seq::<Seq<Seq<char>>>::empty(),
{
    CsvSink { writer: csv::WriterBuilder::new().from_writer(Vec::new()) }
}

/// Calls `csv::Writer::write_record` with the fields in order and hands the
/// writer back on success, when it has been given one record more; a writer
/// that failed is dropped. The writer writes into a `Vec<u8>`, whose writes
/// do not fail, so the one error left is its check (the builder's default,
/// not flexible) that a record has as many fields as the first one: with
/// that many fields, or as the first record, the call succeeds.
#[verifier::external_body]
fn csv_write_record(w: CsvSink, fields: &Vec<String>) -> (r: Result<CsvSink, csv::Error>)
    ensures
        r is Ok ==> csv_records(r->Ok_0) == csv_records(w).push(fields.deep_view()),
        csv_records(w).len() == 0 || csv_records(w)[0].len() == fields@.len() ==> r is Ok,
{
    let mut w = w;
    match w.writer.write_record(fields.iter()) {
        Ok(()) => Ok(w),
        Err(e) => Err(e),
    }
}

/// Calls `csv::Writer::into_inner`, which flushes the writer into its
/// `Vec<u8>` and hands that back: the encoding of the records it was given.
/// Writes into a `Vec<u8>` do not fail, so neither does the flush. The
/// encoding copies the bytes of each field and adds only ASCII quotes
/// (doubling those inside a field), commas and newlines, so it is UTF-8 as
/// the fields are.
#[verifier::external_body]
fn csv_into_bytes(w: CsvSink) -> (r: Result<Vec<u8>, csv::Error>)
    ensures
        r is Ok,
        r->Ok_0@ == csv_encoding(csv_records(w)),
        valid_utf8(r->Ok_0@),
{
    match w.writer.into_inner() {
        Ok(bytes) => Ok(bytes),
        Err(e) => Err(csv::Error::from(e.into_error())),
    }
}

/// Calls `String::from_utf8`, which succeeds exactly on valid UTF-8 and then
/// holds the decoded characters.
#[verifier::external_body]
fn utf8_string(bytes: Vec<u8>) -> (r: Result<String, std::string::FromUtf8Error>)
    ensures
        r is Ok <==> valid_utf8(bytes@),
        r is Ok ==> r->Ok_0@ == decode_utf8(bytes@),
{
    String::from_utf8(bytes)
}

/// Why an export failed.
#[derive(Debug, Clone)]
pub enum ExportError {
    /// The CSV writer reported an error.
    Csv,
    /// The CSV writer produced bytes that are not UTF-8.
    NotUtf8,
}

impl ExportError {
    /// The message shown for this error.
    pub fn message(&self) -> (m: String)
        ensures
            self is Csv ==> m@ == "Failed to generate CSV data"@,
            self is NotUtf8 ==> m@ == "CSV output is not valid UTF-8"@,
    {
        match self {
            ExportError::Csv => owned("Failed to generate CSV data"),
            ExportError::NotUtf8 => owned("CSV output is not valid UTF-8"),
        }
    }
}

/// The text of an optional field, empty when absent.
pub open spec fn or_empty(o: Option<Seq<char>>) -> Seq<char> {
    match o {
        Some(s) => s,
        None => Seq::<char>::empty(),
    }
}

/// The header record of the CSV export.
pub open spec fn csv_header() -> Seq<Seq<char>> {
    seq![
        "id"@,
        "url"@,
        "title"@,
        "description"@,
        "tags"@,
        "notes"@,
        "author"@,
        "site_name"@,
        "reading_time_mins"@,
        "date_saved"@,
        "date_updated"@,
    ]
}

/// The CSV record of a clip: its id, url, title, description, tags joined
/// by semicolons, notes, author, site name, reading time and dates (absent
/// values empty).
pub open spec fn csv_row(c: ClipView) -> Seq<Seq<char>> {
    seq![
        signed_decimal(c.id as int),
        c.url,
        c.title,
        or_empty(c.description),
        join_spec(c.tags, seq![';']),
        or_empty(c.notes),
        or_empty(c.author),
        or_empty(c.site_name),
        match c.reading_time_mins {
            Some(m) => decimal(m as nat),
            None => Seq::<char>::empty(),
        },
        c.date_saved,
        c.date_updated,
    ]
}

/// The records of the CSV export of `cs`: the header, then one per clip.
pub open spec fn csv_export_records(cs: Seq<Clip>) -> Seq<Seq<Seq<char>>> {
    seq![csv_header()] + cs.map_values(|c: Clip| csv_row(c@))
}

/// The HTML page for `count` clips whose JSON is `json`.
pub open spec fn html_page(json: Seq<char>, count: nat) -> Seq<char> {
    HTML_HEAD@ + decimal(count) + HTML_TITLE_TO_HEADING@ + decimal(count) + HTML_HEADING_TO_DATA@
        + json + HTML_TAIL@
}

/// Exports clips to CSV and HTML.
pub struct Exporter;

impl Exporter {
    /// The CSV record of a clip.
    fn csv_fields(clip: &Clip) -> (r: Vec<String>)
        ensures
            r.deep_view() == csv_row(clip@),
    {
        let reading = match clip.reading_time_mins {
            Some(m) => u64_text(m as u64),
            None => String::new(),
        };
        let fields = vec![
            i64_text(clip.id),
            clip.url.clone(),
            clip.title.clone(),
            Self::or_empty_text(&clip.description),
            join(&clip.tags, ";"),
            Self::or_empty_text(&clip.notes),
            Self::or_empty_text(&clip.author),
            Self::or_empty_text(&clip.site_name),
            reading,
            clip.date_saved.rfc3339.clone(),
            clip.date_updated.rfc3339.clone(),
        ];
        proof {
            reveal_strlit(";");
            assert(";"@ =~= seq![';']);
        }
        assert(fields.deep_view() =~= csv_row(clip@));
        fields
    }

    fn or_empty_text(o: &Option<String>) -> (r: String)
        ensures
            r@ == or_empty(o.deep_view()),
    {
        match o {
            Some(s) => s.clone(),
            None => String::new(),
        }
    }

    /// The CSV export of `clips`: a header record, then one record per clip
    /// in order, as the `csv` crate writes them with its default settings.
    pub fn to_csv(clips: &[Clip]) -> (r: Result<String, ExportError>)
        ensures
            r is Ok,
            valid_utf8(csv_encoding(csv_export_records(clips@))),
            r->Ok_0@ == decode_utf8(csv_encoding(csv_export_records(clips@))),
    {
        let w = csv_writer();
        let header = vec![
            owned("id"),
            owned("url"),
            owned("title"),
            owned("description"),
            owned("tags"),
            owned("notes"),
            owned("author"),
            owned("site_name"),
            owned("reading_time_mins"),
            owned("date_saved"),
            owned("date_updated"),
        ];
        assert(header.deep_view() =~= csv_header());
        let mut w = match csv_write_record(w, &header) {
            Ok(w) => w,
            Err(_) => return Err(ExportError::Csv),
        };
        let ghost recs = csv_export_records(clips@);
        let n = clips.len();
        for i in 0..n
            invariant
                n == clips@.len(),
                recs == csv_export_records(clips@),
                csv_records(w) == recs.take(i + 1),
                recs[0] == csv_header(),
        {
            let fields = Self::csv_fields(&clips[i]);
            assert(csv_records(w)[0] == recs[0]);
            assert(fields@.len() == fields.deep_view().len());
            assert(fields.deep_view().len() == 11);
            w = match csv_write_record(w, &fields) {
                Ok(w) => w,
                Err(_) => return Err(ExportError::Csv),
            };
            assert(recs.take(i + 2) =~= recs.take(i + 1).push(csv_row(clips@[i as int]@)));
        }
        assert(recs.take(n + 1) =~= recs);
        let bytes = match csv_into_bytes(w) {
            Ok(b) => b,
            Err(_) => return Err(ExportError::Csv),
        };
        match utf8_string(bytes) {
            Ok(s) => Ok(s),
            Err(_) => Err(ExportError::NotUtf8),
        }
    }

    /// The standalone HTML page of `count` clips whose JSON is `clips_json`
    /// (`[]` when there is none): a searchable card grid with the count in
    /// its title and heading.
    pub fn to_html(clips_json: Option<&str>, count: usize) -> (r: String)
        ensures
            r@ == html_page(
                match clips_json {
                    Some(j) => j@,
                    None => "[]"@,
                },
                count as nat,
            ),
    {
        let digits = u64_text(count as u64);
        let mut page = owned(HTML_HEAD);
        page.append(digits.as_str());
        page.append(HTML_TITLE_TO_HEADING);
        page.append(digits.as_str());
        page.append(HTML_HEADING_TO_DATA);
        match clips_json {
            Some(j) => page.append(j),
            None => page.append("[]"),
        }
        page.append(HTML_TAIL);
        page
    }
}

/// The page up to the clip count in its title.
pub const HTML_HEAD: &'static str = "<!DOCTYPE html>
<html lang=\"en\">
<head>
  <meta charset=\"UTF-8\">
  <meta name=\"viewport\" content=\"width=device-width, initial-scale=1.0\">
  <title>Clipper - Saved Clips (";

/// The page from the clip count in its title to the one in its heading.
pub const HTML_TITLE_TO_HEADING: &'static str = ")</title>
  <style>
    :root {
      --bg-color: #0f172a;
      --card-bg: #1e293b;
      --card-border: #334155;
      --text-main: #f8fafc;
      --text-muted: #94a3b8;
      --accent: #38bdf8;
      --accent-hover: #0284c7;
      --tag-bg: #0f766e;
      --tag-text: #ccfbf1;
      --font-family: system-ui, -apple-system, BlinkMacSystemFont, 'Segoe UI', Roboto, sans-serif;
    }
    * { box-sizing: border-box; margin: 0; padding: 0; }
    body {
      background-color: var(--bg-color);
      color: var(--text-main);
      font-family: var(--font-family);
      line-height: 1.5;
      padding: 2rem;
    }
    header {
      max-width: 1200px;
      margin: 0 auto 2rem auto;
      display: flex;
      flex-wrap: wrap;
      justify-content: space-between;
      align-items: center;
      gap: 1rem;
      border-bottom: 1px solid var(--card-border);
      padding-bottom: 1.5rem;
    }
    h1 {
      font-size: 1.8rem;
      font-weight: 700;
      color: var(--accent);
      display: flex;
      align-items: center;
      gap: 0.5rem;
    }
    .search-box {
      flex: 1;
      max-width: 400px;
      position: relative;
    }
    .search-box input {
      width: 100%;
      padding: 0.6rem 1rem;
      border-radius: 8px;
      border: 1px solid var(--card-border);
      background: var(--card-bg);
      color: var(--text-main);
      font-size: 0.95rem;
      outline: none;
    }
    .search-box input:focus {
      border-color: var(--accent);
    }
    .grid {
      max-width: 1200px;
      margin: 0 auto;
      display: grid;
      grid-template-columns: repeat(auto-fill, minmax(340px, 1fr));
      gap: 1.5rem;
    }
    .card {
      background: var(--card-bg);
      border: 1px solid var(--card-border);
      border-radius: 12px;
      padding: 1.25rem;
      display: flex;
      flex-direction: column;
      justify-content: space-between;
      transition: transform 0.15s ease, border-color 0.15s ease;
    }
    .card:hover {
      transform: translateY(-2px);
      border-color: var(--accent);
    }
    .card-title {
      font-size: 1.1rem;
      font-weight: 600;
      margin-bottom: 0.5rem;
    }
    .card-title a {
      color: var(--text-main);
      text-decoration: none;
    }
    .card-title a:hover {
      color: var(--accent);
    }
    .card-desc {
      font-size: 0.9rem;
      color: var(--text-muted);
      margin-bottom: 1rem;
      display: -webkit-box;
      -webkit-line-clamp: 3;
      -webkit-box-orient: vertical;
      overflow: hidden;
    }
    .tags {
      display: flex;
      flex-wrap: wrap;
      gap: 0.4rem;
      margin-bottom: 1rem;
    }
    .tag {
      background: var(--tag-bg);
      color: var(--tag-text);
      font-size: 0.75rem;
      font-weight: 500;
      padding: 0.2rem 0.6rem;
      border-radius: 9999px;
      cursor: pointer;
    }
    .meta {
      font-size: 0.8rem;
      color: var(--text-muted);
      display: flex;
      justify-content: space-between;
      align-items: center;
      border-top: 1px solid var(--card-border);
      padding-top: 0.75rem;
      margin-top: auto;
    }
    .site-info {
      display: flex;
      align-items: center;
      gap: 0.4rem;
    }
  </style>
</head>
<body>
  <header>
    <h1>🔖 Clipper Collection (";

/// The page from the clip count in its heading to the clip data.
pub const HTML_HEADING_TO_DATA: &'static str = ")</h1>
    <div class=\"search-box\">
      <input type=\"text\" id=\"searchInput\" placeholder=\"Search clips by title, tag, or content...\" oninput=\"filterClips()\">
    </div>
  </header>
  <div class=\"grid\" id=\"clipsGrid\"></div>

  <script>
    const clips = ";

/// The page after the clip data.
pub const HTML_TAIL: &'static str = ";

    function renderClips(items) {
      const container = document.getElementById('clipsGrid');
      if (items.length === 0) {
        container.innerHTML = '<p style=\"grid-column: 1/-1; text-align: center; color: var(--text-muted);\">No matching clips found.</p>';
        return;
      }
      container.innerHTML = items.map(clip => `
        <div class=\"card\">
          <div>
            <div class=\"card-title\">
              <a href=\"${clip.url}\" target=\"_blank\" rel=\"noopener\">${escapeHtml(clip.title || clip.url)}</a>
            </div>
            <p class=\"card-desc\">${escapeHtml(clip.description || clip.notes || 'No description provided.')}</p>
            <div class=\"tags\">
              ${clip.tags.map(t => `<span class=\"tag\" onclick=\"filterByTag('${t}')\">#${escapeHtml(t)}</span>`).join('')}
            </div>
          </div>
          <div class=\"meta\">
            <span class=\"site-info\">
              ${clip.site_name ? escapeHtml(clip.site_name) : new URL(clip.url).hostname}
            </span>
            <span>${new Date(clip.date_saved).toLocaleDateString()}</span>
          </div>
        </div>
      `).join('');
    }

    function filterClips() {
      const q = document.getElementById('searchInput').value.toLowerCase().trim();
      if (!q) {
        renderClips(clips);
        return;
      }
      const filtered = clips.filter(c => 
        (c.title && c.title.toLowerCase().includes(q)) ||
        (c.url && c.url.toLowerCase().includes(q)) ||
        (c.description && c.description.toLowerCase().includes(q)) ||
        (c.notes && c.notes.toLowerCase().includes(q)) ||
        (c.tags && c.tags.some(t => t.toLowerCase().includes(q)))
      );
      renderClips(filtered);
    }

    function filterByTag(tag) {
      document.getElementById('searchInput').value = tag;
      filterClips();
    }

    function escapeHtml(str) {
      return String(str)
        .replace(/&/g, \"&amp;\")
        .replace(/</g, \"&lt;\")
        .replace(/>/g, \"&gt;\")
        .replace(/\"/g, \"&quot;\")
        .replace(/'/g, \"&#039;\");
    }

    renderClips(clips);
  </script>
</body>
</html>
";

/// The CSV export has one record more than there are clips: first the
/// header, then for clip `k` a record whose field under each header name is
/// that clip's value: id, url, title, description, tags joined by `;`,
/// notes, author, site name, reading time and the two dates (an absent
/// value empty).
pub proof fn law_csv_fields(cs: Seq<Clip>, k: int)
    requires
        0 <= k < cs.len(),
    ensures
        ({
            let recs = csv_export_records(cs);
            let c = cs[k]@;
            &&& recs.len() == cs.len() + 1
            &&& recs[0] == seq![
                "id"@,
                "url"@,
                "title"@,
                "description"@,
                "tags"@,
                "notes"@,
                "author"@,
                "site_name"@,
                "reading_time_mins"@,
                "date_saved"@,
                "date_updated"@,
            ]
            &&& recs[k + 1].len() == 11
            &&& recs[k + 1][0] == signed_decimal(c.id as int)
            &&& recs[k + 1][1] == c.url
            &&& recs[k + 1][2] == c.title
            &&& recs[k + 1][3] == or_empty(c.description)
            &&& recs[k + 1][4] == join_spec(c.tags, seq![';'])
            &&& recs[k + 1][5] == or_empty(c.notes)
            &&& recs[k + 1][6] == or_empty(c.author)
            &&& recs[k + 1][7] == or_empty(c.site_name)
            &&& recs[k + 1][8] == (match c.reading_time_mins {
                Some(m) => decimal(m as nat),
                None => Seq::<char>::empty(),
            })
            &&& recs[k + 1][9] == c.date_saved
            &&& recs[k + 1][10] == c.date_updated
        }),
{
    let recs = csv_export_records(cs);
    assert(recs[k + 1] == csv_row(cs[k]@));
}

} // verus!
