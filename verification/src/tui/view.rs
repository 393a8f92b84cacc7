//! The texts the terminal UI shows: the mode badge, the counts in the
//! header, the list's title and tag suffixes, and the details' lines.
use vstd::prelude::*;
use crate::commands::{hashed, tags_cell};
use crate::models::ExportFormat;
use crate::text::{decimal, join_spec, owned, u64_text};
use crate::tui::app::InputMode;

verus! {

/// The badge of a mode.
pub fn mode_label(mode: InputMode) -> (s: &'static str)
    ensures
        s@ == (match mode {
            InputMode::Normal => " NORMAL "@,
            InputMode::Search => " SEARCH "@,
            InputMode::Command => " COMMAND "@,
            InputMode::AddClip => " NEW CLIP "@,
            InputMode::EditTags => " EDIT TAGS "@,
            InputMode::Export => " EXPORT "@,
            InputMode::ConfirmDelete => " DELETE "@,
            InputMode::HelpModal => " HELP "@,
        }),
{
    match mode {
        InputMode::Normal => " NORMAL ",
        InputMode::Search => " SEARCH ",
        InputMode::Command => " COMMAND ",
        InputMode::AddClip => " NEW CLIP ",
        InputMode::EditTags => " EDIT TAGS ",
        InputMode::Export => " EXPORT ",
        InputMode::ConfirmDelete => " DELETE ",
        InputMode::HelpModal => " HELP ",
    }
}

/// The counts in the header.
pub fn stats_text(clips: usize, tags: usize) -> (s: String)
    ensures
        s@ == " Clips: "@ + decimal(clips as nat) + " | Tags: "@ + decimal(tags as nat)
            + " | Press '?' for Help "@,
{
    let mut s = owned(" Clips: ");
    s.append(u64_text(clips as u64).as_str());
    s.append(" | Tags: ");
    s.append(u64_text(tags as u64).as_str());
    s.append(" | Press '?' for Help ");
    s
}

/// The title of the clip list: the number of clips, as search results
/// while a search text is typed.
pub fn list_title(searching: bool, clips: usize) -> (s: String)
    ensures
        s@ == (if searching {
            " Search Results ("@
        } else {
            " Clips ("@
        }) + decimal(clips as nat) + ") "@,
{
    let mut s = if searching {
        owned(" Search Results (")
    } else {
        owned(" Clips (")
    };
    s.append(u64_text(clips as u64).as_str());
    s.append(") ");
    s
}

/// The marker before a clip's title in the list: an arrow for the selected
/// clip, blanks for the others.
pub fn list_marker(selected: bool) -> (s: String)
    ensures
        s@ == (if selected {
            "▶ "@
        } else {
            "  "@
        }),
{
    if selected {
        owned("▶ ")
    } else {
        owned("  ")
    }
}

/// A clip's url as the list shows it under the title, indented.
pub fn list_url(url: &str) -> (s: String)
    ensures
        s@ == "    "@ + url@,
{
    let mut s = owned("    ");
    s.append(url);
    s
}

/// The tags after a clip's url in the list: ` [#a #b]`, or nothing.
pub fn list_tags_suffix(tags: &Vec<String>) -> (s: String)
    ensures
        s@ == (if tags@.len() == 0 {
            ""@
        } else {
            " ["@ + join_spec(hashed(tags.deep_view()), seq![' ']) + "]"@
        }),
{
    if tags.len() == 0 {
        return owned("");
    }
    let mut s = owned(" [");
    s.append(tags_cell(tags).as_str());
    s.append("]");
    s
}

/// The tags in the details: `#a #b`, or `None`.
pub fn detail_tags(tags: &Vec<String>) -> (s: String)
    ensures
        s@ == (if tags@.len() == 0 {
            "None"@
        } else {
            join_spec(hashed(tags.deep_view()), seq![' '])
        }),
{
    if tags.len() == 0 {
        owned("None")
    } else {
        tags_cell(tags)
    }
}

/// The reading time in the details (one minute when it is not known).
pub fn reading_label(minutes: Option<u32>) -> (s: String)
    ensures
        s@ == "~"@ + decimal(
            match minutes {
                Some(m) => m as nat,
                None => 1nat,
            },
        ) + " min"@,
{
    let m: u32 = match minutes {
        Some(m) => m,
        None => 1,
    };
    let mut s = owned("~");
    s.append(u64_text(m as u64).as_str());
    s.append(" min");
    s
}

/// The question of the delete confirmation.
pub fn delete_prompt(title: Option<&str>) -> (s: String)
    ensures
        s@ == "Delete clip '"@ + (match title {
            Some(t) => t@,
            None => "clip"@,
        }) + "'?"@,
{
    let mut s = owned("Delete clip '");
    match title {
        Some(t) => s.append(t),
        None => s.append("clip"),
    }
    s.append("'?");
    s
}

/// The format line of the export form.
pub fn export_format_line(format: ExportFormat) -> (s: String)
    ensures
        s@ == "Format: "@ + (match format {
            ExportFormat::Json => "json"@,
            ExportFormat::Csv => "csv"@,
            ExportFormat::Html => "html"@,
        }) + " (Press Tab to toggle json/csv/html)"@,
{
    let mut s = owned("Format: ");
    s.append(format.as_str());
    s.append(" (Press Tab to toggle json/csv/html)");
    s
}

} // verus!
