//! The command line: the commands and options the program takes, as plain
//! values (the parser that fills them lives with the program).
use vstd::prelude::*;
use crate::models::ExportFormat;

verus! {

/// The whole command line.
#[derive(Debug, Clone)]
pub struct Cli {
    /// The command to run; none launches the terminal UI.
    pub command: Option<Commands>,
    /// Launch the terminal UI directly.
    pub tui: bool,
    /// A database file to use instead of the default one.
    pub db: Option<String>,
}

/// The commands.
#[derive(Debug, Clone)]
pub enum Commands {
    /// Clip a new URL, fetch metadata, and save it.
    Clip(ClipArgs),
    /// Search clips by keyword, tag, or date range.
    Search(SearchArgs),
    /// List saved clips.
    List(ListArgs),
    /// Display the details and extracted text of one clip.
    Show(ShowArgs),
    /// Open a clip's URL in the default web browser.
    Open(OpenArgs),
    /// Edit a clip's title, tags or notes.
    Edit(EditArgs),
    /// Delete a clip by ID.
    Delete(DeleteArgs),
    /// Tag management.
    Tag(TagArgs),
    /// Export saved clips to JSON, CSV, or an HTML page.
    Export(ExportArgs),
    /// Launch the terminal UI.
    Tui,
}

/// Options of `clip`.
#[derive(Debug, Clone)]
pub struct ClipArgs {
    /// The URL of the web page to clip.
    pub url: String,
    /// A title that overrides the page's.
    pub title: Option<String>,
    /// Comma-separated tags.
    pub tags: Option<String>,
    /// Personal notes.
    pub notes: Option<String>,
    /// Save the URL without fetching the page.
    pub no_fetch: bool,
}

/// Options of `search`.
#[derive(Debug, Clone)]
pub struct SearchArgs {
    /// The search text.
    pub query: Option<String>,
    /// Only clips with this tag.
    pub tag: Option<String>,
    /// Only clips saved from this day on (YYYY-MM-DD).
    pub from: Option<String>,
    /// Only clips saved up to this day (YYYY-MM-DD).
    pub to: Option<String>,
    /// At most this many results.
    pub limit: Option<usize>,
    /// Show the results in the terminal UI.
    pub tui: bool,
}

/// Options of `list`.
#[derive(Debug, Clone)]
pub struct ListArgs {
    /// Only clips with this tag.
    pub tag: Option<String>,
    /// At most this many clips.
    pub limit: usize,
    /// Show them in the terminal UI.
    pub tui: bool,
}

/// Options of `show`.
#[derive(Debug, Clone)]
pub struct ShowArgs {
    /// The clip's ID.
    pub id: i64,
}

/// Options of `open`.
#[derive(Debug, Clone)]
pub struct OpenArgs {
    /// The clip's ID.
    pub id: i64,
}

/// Options of `edit`.
#[derive(Debug, Clone)]
pub struct EditArgs {
    /// The clip's ID.
    pub id: i64,
    /// A new title.
    pub title: Option<String>,
    /// Comma-separated tags that replace all the clip's tags.
    pub tags: Option<String>,
    /// Comma-separated tags to add.
    pub add_tag: Option<String>,
    /// Comma-separated tags to remove.
    pub remove_tag: Option<String>,
    /// New notes.
    pub notes: Option<String>,
}

/// Options of `delete`.
#[derive(Debug, Clone)]
pub struct DeleteArgs {
    /// The clip's ID.
    pub id: i64,
    /// Skip the confirmation prompt.
    pub force: bool,
}

/// Options of `tag`.
#[derive(Debug, Clone)]
pub struct TagArgs {
    /// The tag command.
    pub command: TagSubcommands,
}

/// The tag commands.
#[derive(Debug, Clone)]
pub enum TagSubcommands {
    /// List all tags with their clip counts.
    List,
    /// Add comma-separated tags to a clip.
    Add { id: i64, tags: String },
    /// Remove comma-separated tags from a clip.
    Remove { id: i64, tags: String },
    /// Rename a tag across all clips.
    Rename { old_tag: String, new_tag: String },
    /// Delete a tag from all clips.
    Delete { tag: String },
}

/// Options of `export`.
#[derive(Debug, Clone)]
pub struct ExportArgs {
    /// The format: json, csv or html.
    pub format: ExportFormat,
    /// The file to write (standard output when absent).
    pub output: Option<String>,
    /// Only clips with this tag.
    pub tag: Option<String>,
    /// Only clips matching this search text.
    pub query: Option<String>,
}

} // verus!
