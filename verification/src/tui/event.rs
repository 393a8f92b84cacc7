//! What each key does in each mode of the terminal UI, and what the UI
//! makes of the outside work it asked for.
use vstd::prelude::*;
use crate::db::{deleted, inserted, updated_with, DbError};
use crate::sql::{url_taken, SqlVal};
use crate::models::{ClipView, ExportFormat, NewClip, UpdateClip};
use crate::text::{
    join, join_spec, lowercase, owned, pop_char, push_char, split_words, starts_with, str_eq,
    suffix_from, to_lowercase, trim, trim_spec, words,
};
use crate::tui::app::{next_index, previous_index, Action, AddClipForm, App, InputMode};

verus! {

/// A key as the UI tells keys apart.
#[derive(Debug, Clone, Copy, PartialEq, Eq, Structural)]
pub enum Key {
    Char(char),
    Up,
    Down,
    /// The down arrow with Shift held.
    ShiftDown,
    /// The up arrow with Shift held.
    ShiftUp,
    Enter,
    Esc,
    Tab,
    Backspace,
    Other,
}

/// Whether the UI goes on after a key.
#[derive(Debug, Clone, Copy, PartialEq, Eq, Structural)]
pub enum EventResult {
    Continue,
    Exit,
}

/// `s` after a backspace: without its last character, if any.
pub open spec fn backspaced(s: Seq<char>) -> Seq<char> {
    if s.len() == 0 {
        s
    } else {
        s.drop_last()
    }
}

/// Typing a character and then a backspace leaves a text as it was.
pub proof fn law_type_then_backspace(s: Seq<char>, c: char)
    ensures
        backspaced(s.push(c)) == s,
{
    assert(s.push(c).drop_last() =~= s);
}

/// The message shown is `text`, reporting an error or not.
pub open spec fn shows(a: &App, text: Seq<char>, err: bool) -> bool {
    a.status_message matches Some((m, e)) && m@ == text && e == err
}

/// Nothing is changed.
pub open spec fn unchanged(a: &App, b: &App) -> bool {
    b.same_except_status(a) && b.status_message == a.status_message
}

/// The store, the modes, the tag counts, the pending work and the message
/// are as they were.
pub open spec fn keeps_state(a: &App, b: &App) -> bool {
    &&& b.db@ == a.db@
    &&& b.mode == a.mode
    &&& b.previous_mode == a.previous_mode
    &&& b.tags_summary == a.tags_summary
    &&& b.pending == a.pending
    &&& b.status_message == a.status_message
}

/// The list, its selection and the details' scroll are as they were.
pub open spec fn keeps_list(a: &App, b: &App) -> bool {
    &&& b.clips == a.clips
    &&& b.selected_index == a.selected_index
    &&& b.detail_scroll == a.detail_scroll
}

/// The typed texts are as they were, but for those flagged false: the
/// search text, the command, the tag text, the new-clip form, and the
/// export path and format.
pub open spec fn keeps_inputs(
    a: &App,
    b: &App,
    search: bool,
    command: bool,
    tag: bool,
    form: bool,
    export: bool,
) -> bool {
    &&& search ==> b.search_query@ == a.search_query@
    &&& command ==> b.command_input@ == a.command_input@
    &&& tag ==> b.tag_input@ == a.tag_input@
    &&& form ==> b.add_form == a.add_form
    &&& export ==> b.export_path_input@ == a.export_path_input@ && b.export_format == a.export_format
}

/// Everything but the message and the mode is as it was.
pub open spec fn same_but_mode(a: &App, b: &App) -> bool {
    &&& b.db@ == a.db@
    &&& b.clips == a.clips
    &&& b.selected_index == a.selected_index
    &&& b.detail_scroll == a.detail_scroll
    &&& b.previous_mode == a.previous_mode
    &&& b.search_query@ == a.search_query@
    &&& b.command_input@ == a.command_input@
    &&& b.tag_input@ == a.tag_input@
    &&& b.export_path_input@ == a.export_path_input@
    &&& b.export_format == a.export_format
    &&& b.add_form == a.add_form
    &&& b.tags_summary == a.tags_summary
    &&& b.pending == a.pending
}

/// Search mode: Esc and Enter go back to normal mode; typing edits the
/// search text and lists the clips again (a failed listing keeps the list).
pub open spec fn search_step(a: &App, b: &App, key: Key) -> bool {
    &&& b.db@ == a.db@
    &&& match key {
        Key::Esc | Key::Enter => b.mode == InputMode::Normal && same_but_mode(a, b),
        Key::Backspace => keeps_state(a, b) && keeps_inputs(a, b, false, true, true, true, true)
            && b.search_query@ == backspaced(a.search_query@) && (crate::tui::app::shown_clips(
            b.db@,
            b.search_query@,
            b.clips.deep_view(),
        ) || b.clips.deep_view() == a.clips.deep_view()),
        Key::Char(c) => keeps_state(a, b) && keeps_inputs(a, b, false, true, true, true, true)
            && b.search_query@ == a.search_query@.push(c) && (crate::tui::app::shown_clips(
            b.db@,
            b.search_query@,
            b.clips.deep_view(),
        ) || b.clips.deep_view() == a.clips.deep_view()),
        _ => unchanged(a, b),
    }
}

fn handle_search_key(app: &mut App, key: Key) -> (r: Result<EventResult, DbError>)
    requires
        old(app).db@.whole,
    ensures
        final(app).db@.whole,
        search_step(&*old(app), &*final(app), key),
        r == Ok::<EventResult, DbError>(EventResult::Continue),
{
    match key {
        Key::Esc | Key::Enter => {
            app.mode = InputMode::Normal;
        },
        Key::Backspace => {
            pop_char(&mut app.search_query);
            let _ = app.reload_clips();
        },
        Key::Char(c) => {
            push_char(&mut app.search_query, c);
            let _ = app.reload_clips();
        },
        _ => {},
    }
    Ok(EventResult::Continue)
}

/// What giving the selected clip of `a` the tags `ts` leaves in `b`. When
/// it went through (`failed` false), either `done` is shown and the update
/// is applied, or an error message after `Tag update failed: ` is shown and
/// the update was not made or stopped part-way;
/// when listing again after the update failed, the update is applied.
pub open spec fn retag_outcome(a: &App, b: &App, ts: Seq<Seq<char>>, done: Seq<char>, failed: bool) -> bool {
    let u = crate::db::retag_update(a.clips@[a.selected_index as int].id, ts);
    if failed {
        updated_with(a.db@, b.db@, u)
    } else {
        ||| shows(b, done, false) && updated_with(a.db@, b.db@, u)
        ||| b.status_message matches Some((m, e)) && e && "Tag update failed: "@.is_prefix_of(m@)
            && (b.db@ == a.db@ || crate::db::partly_updated(a.db@, b.db@, u))
    }
}

/// What deleting the selected clip of `a` leaves in `b`. When it went
/// through (`failed` false), either `Clip deleted` is shown and the clip and
/// its tags are gone, or an error message after `Delete failed: ` is shown
/// and the store is as it was; when listing again after the deletion
/// failed, the clip is gone.
pub open spec fn delete_outcome(a: &App, b: &App, failed: bool) -> bool {
    let id = a.clips@[a.selected_index as int].id;
    let gone = deleted(a.db@, b.db@, id, a.db@.clips.contains_key(id));
    if failed {
        gone
    } else {
        ||| shows(b, "Clip deleted"@, false) && gone
        ||| b.status_message matches Some((m, e)) && e && "Delete failed: "@.is_prefix_of(m@) && b.db@
            == a.db@
    }
}

/// Edit-tags mode: Esc goes back to normal mode, typing edits the tag
/// text, and Enter gives the selected clip the typed tags, lists the clips
/// and tags again, and goes back to normal mode.
pub open spec fn edit_tags_step(a: &App, b: &App, key: Key, r: Result<EventResult, DbError>) -> bool {
    match key {
        Key::Esc => b.mode == InputMode::Normal && same_but_mode(a, b),
        Key::Backspace => keeps_state(a, b) && keeps_list(a, b) && keeps_inputs(
            a,
            b,
            true,
            true,
            false,
            true,
            true,
        ) && b.tag_input@ == backspaced(a.tag_input@),
        Key::Char(c) => keeps_state(a, b) && keeps_list(a, b) && keeps_inputs(
            a,
            b,
            true,
            true,
            false,
            true,
            true,
        ) && b.tag_input@ == a.tag_input@.push(c),
        Key::Enter => {
            &&& r is Ok ==> b.mode == InputMode::Normal
            &&& a.selected_index >= a.clips.len() ==> b.db@ == a.db@ && r is Ok
            &&& a.selected_index < a.clips.len() ==> retag_outcome(
                a,
                b,
                crate::commands::tag_list(a.tag_input@),
                "Tags updated"@,
                r is Err,
            )
        },
        _ => unchanged(a, b),
    }
}

/// Gives the selected clip the tags of the comma-separated `text`, then
/// lists the clips and tags again; the message tells how it went.
fn retag_selected(app: &mut App, text: &str, done: &str) -> (r: Result<(), DbError>)
    requires
        old(app).db@.whole,
        old(app).selected_index < old(app).clips.len(),
        old(app).status_message is None,
    ensures
        final(app).db@.whole,
        final(app).mode == old(app).mode,
        retag_outcome(&*old(app), &*final(app), crate::commands::tag_list(text@), done@, r is Err),
        r is Err ==> r->Err_0 is Sqlite || r->Err_0 is InvalidRow,
{
    let clip_id = app.clips[app.selected_index].id;
    let tags = crate::commands::parse_tag_list(text);
    let update = UpdateClip { id: clip_id, title: None, description: None, tags: Some(tags), notes: None };
    match app.db.update_clip(update) {
        Ok(_) => {
            if let Err(e) = app.reload_clips() {
                return Err(e);
            }
            if let Err(e) = app.reload_tags() {
                return Err(e);
            }
            app.set_status(owned(done), false);
            Ok(())
        },
        Err(e) => {
            let m = message_with("Tag update failed: ", e.message().as_str());
            assert(m@.take("Tag update failed: "@.len() as int) =~= "Tag update failed: "@);
            app.set_status(m, true);
            Ok(())
        },
    }
}


fn handle_edit_tags_key(app: &mut App, key: Key) -> (r: Result<EventResult, DbError>)
    requires
        old(app).db@.whole,
        old(app).status_message is None,
    ensures
        final(app).db@.whole,
        edit_tags_step(&*old(app), &*final(app), key, r),
        r is Ok ==> r == Ok::<EventResult, DbError>(EventResult::Continue),
{
    match key {
        Key::Esc => {
            app.mode = InputMode::Normal;
        },
        Key::Backspace => {
            pop_char(&mut app.tag_input);
        },
        Key::Char(c) => {
            push_char(&mut app.tag_input, c);
        },
        Key::Enter => {
            if app.selected_index < app.clips.len() {
                let text = app.tag_input.clone();
                retag_selected(app, text.as_str(), "Tags updated")?;
            }
            app.mode = InputMode::Normal;
        },
        _ => {},
    }
    Ok(EventResult::Continue)
}

/// The form field `i` of `f` (0 url, 1 tags, 2 notes).
pub open spec fn form_field(f: AddClipForm, i: usize) -> Seq<char> {
    if i == 0 {
        f.url@
    } else if i == 1 {
        f.tags@
    } else {
        f.notes@
    }
}

/// New-clip mode: Esc goes back to normal mode, Tab moves to the next
/// field, typing edits the field being typed in, and Enter asks for the
/// url's page to be fetched and clipped with the typed tags and notes (an
/// empty url is refused).
pub open spec fn add_clip_step(a: &App, b: &App, key: Key) -> bool {
    &&& b.db@ == a.db@
    &&& match key {
        Key::Esc => b.mode == InputMode::Normal && same_but_mode(a, b),
        Key::Tab => keeps_state(a, b) && keeps_list(a, b) && keeps_inputs(a, b, true, true, true, false, true)
            && b.add_form.active_field == (a.add_form.active_field + 1) % 3
            && b.add_form.url@ == a.add_form.url@ && b.add_form.tags@ == a.add_form.tags@
            && b.add_form.notes@ == a.add_form.notes@,
        Key::Backspace => keeps_state(a, b) && keeps_list(a, b) && keeps_inputs(
            a,
            b,
            true,
            true,
            true,
            false,
            true,
        ) && b.add_form.active_field == a.add_form.active_field && (forall|i: usize|
            i < 3 ==> #[trigger] form_field(b.add_form, i) == if i == a.add_form.active_field {
                backspaced(form_field(a.add_form, i))
            } else {
                form_field(a.add_form, i)
            }),
        Key::Char(c) => keeps_state(a, b) && keeps_list(a, b) && keeps_inputs(
            a,
            b,
            true,
            true,
            true,
            false,
            true,
        ) && b.add_form.active_field == a.add_form.active_field && (forall|i: usize|
            i < 3 ==> #[trigger] form_field(b.add_form, i) == if i == a.add_form.active_field {
                form_field(a.add_form, i).push(c)
            } else {
                form_field(a.add_form, i)
            }),
        Key::Enter => if crate::text::trim_spec(a.add_form.url@).len() == 0 {
            shows(b, "URL cannot be empty"@, true) && b.mode == a.mode && b.pending == a.pending
        } else {
            &&& b.mode == InputMode::Normal
            &&& shows(b, "Fetching page metadata..."@, false)
            &&& b.pending matches Some(Action::FetchClip { url, tags, notes, from_form })
            &&& url@ == crate::text::trim_spec(a.add_form.url@)
            &&& tags.deep_view() == crate::commands::tag_list(a.add_form.tags@)
            &&& notes.deep_view() == (if crate::text::trim_spec(a.add_form.notes@).len() == 0 {
                None
            } else {
                Some(crate::text::trim_spec(a.add_form.notes@))
            })
            &&& from_form
        },
        _ => unchanged(a, b),
    }
}

fn handle_add_clip_key(app: &mut App, key: Key) -> (r: Result<EventResult, DbError>)
    requires
        old(app).db@.whole,
        old(app).add_form.active_field < usize::MAX,
    ensures
        final(app).db@.whole,
        add_clip_step(&*old(app), &*final(app), key),
        r == Ok::<EventResult, DbError>(EventResult::Continue),
{
    match key {
        Key::Esc => {
            app.mode = InputMode::Normal;
        },
        Key::Tab => {
            app.add_form.active_field = (app.add_form.active_field + 1) % 3;
        },
        Key::Enter => {
            let url = owned(crate::text::trim(app.add_form.url.as_str()));
            if url.as_str().is_empty() {
                app.set_status(owned("URL cannot be empty"), true);
                return Ok(EventResult::Continue);
            }
            let tags = crate::commands::parse_tag_list(app.add_form.tags.as_str());
            let trimmed_notes = crate::text::trim(app.add_form.notes.as_str());
            let notes = if trimmed_notes.is_empty() {
                None
            } else {
                Some(owned(trimmed_notes))
            };
            app.mode = InputMode::Normal;
            app.set_status(owned("Fetching page metadata..."), false);
            app.pending = Some(Action::FetchClip { url, tags, notes, from_form: true });
        },
        Key::Backspace => {
            let ghost before = app.add_form;
            if app.add_form.active_field == 0 {
                pop_char(&mut app.add_form.url);
            } else if app.add_form.active_field == 1 {
                pop_char(&mut app.add_form.tags);
            } else if app.add_form.active_field == 2 {
                pop_char(&mut app.add_form.notes);
            }
            assert forall|i: usize| i < 3 implies #[trigger] form_field(app.add_form, i) == if i
                == before.active_field {
                backspaced(form_field(before, i))
            } else {
                form_field(before, i)
            } by {}
        },
        Key::Char(c) => {
            let ghost before = app.add_form;
            if app.add_form.active_field == 0 {
                push_char(&mut app.add_form.url, c);
            } else if app.add_form.active_field == 1 {
                push_char(&mut app.add_form.tags, c);
            } else if app.add_form.active_field == 2 {
                push_char(&mut app.add_form.notes, c);
            }
            assert forall|i: usize| i < 3 implies #[trigger] form_field(app.add_form, i) == if i
                == before.active_field {
                form_field(before, i).push(c)
            } else {
                form_field(before, i)
            } by {}
        },
        _ => {},
    }
    Ok(EventResult::Continue)
}

/// The export path offered for a format.
pub open spec fn default_export_path(f: ExportFormat) -> Seq<char> {
    match f {
        ExportFormat::Json => "clipper_export.json"@,
        ExportFormat::Csv => "clipper_export.csv"@,
        ExportFormat::Html => "clipper_export.html"@,
    }
}

/// The format after `f` in the cycle json, csv, html.
pub open spec fn next_format(f: ExportFormat) -> ExportFormat {
    match f {
        ExportFormat::Json => ExportFormat::Csv,
        ExportFormat::Csv => ExportFormat::Html,
        ExportFormat::Html => ExportFormat::Json,
    }
}

/// Three presses of Tab in the export form come back to the format there
/// was.
pub proof fn law_formats_cycle(f: ExportFormat)
    ensures
        next_format(next_format(next_format(f))) == f,
{
}

/// Export mode: Esc goes back to normal mode, Tab moves to the next
/// format with its path, typing edits the path, and Enter asks for the
/// listed clips to be exported and goes back to normal mode.
pub open spec fn export_step(a: &App, b: &App, key: Key) -> bool {
    &&& b.db@ == a.db@
    &&& match key {
        Key::Esc => b.mode == InputMode::Normal && same_but_mode(a, b),
        Key::Tab => keeps_state(a, b) && keeps_list(a, b) && keeps_inputs(a, b, true, true, true, true, false)
            && b.export_format == next_format(a.export_format)
            && b.export_path_input@ == default_export_path(b.export_format),
        Key::Enter => b.mode == InputMode::Normal && (b.pending matches Some(
            Action::Export { format, path },
        ) && format == a.export_format && path@ == a.export_path_input@),
        Key::Backspace => keeps_state(a, b) && keeps_list(a, b) && keeps_inputs(
            a,
            b,
            true,
            true,
            true,
            true,
            false,
        ) && b.export_format == a.export_format && b.export_path_input@ == backspaced(
            a.export_path_input@,
        ),
        Key::Char(c) => keeps_state(a, b) && keeps_list(a, b) && keeps_inputs(
            a,
            b,
            true,
            true,
            true,
            true,
            false,
        ) && b.export_format == a.export_format && b.export_path_input@ == a.export_path_input@.push(
            c,
        ),
        _ => unchanged(a, b),
    }
}

fn handle_export_key(app: &mut App, key: Key) -> (r: Result<EventResult, DbError>)
    requires
        old(app).db@.whole,
    ensures
        final(app).db@.whole,
        export_step(&*old(app), &*final(app), key),
        r == Ok::<EventResult, DbError>(EventResult::Continue),
{
    match key {
        Key::Esc => {
            app.mode = InputMode::Normal;
        },
        Key::Tab => {
            match app.export_format {
                ExportFormat::Json => {
                    app.export_path_input = owned("clipper_export.csv");
                    app.export_format = ExportFormat::Csv;
                },
                ExportFormat::Csv => {
                    app.export_path_input = owned("clipper_export.html");
                    app.export_format = ExportFormat::Html;
                },
                ExportFormat::Html => {
                    app.export_path_input = owned("clipper_export.json");
                    app.export_format = ExportFormat::Json;
                },
            }
        },
        Key::Enter => {
            app.pending = Some(
                Action::Export { format: app.export_format, path: app.export_path_input.clone() },
            );
            app.mode = InputMode::Normal;
        },
        Key::Backspace => {
            pop_char(&mut app.export_path_input);
        },
        Key::Char(c) => {
            push_char(&mut app.export_path_input, c);
        },
        _ => {},
    }
    Ok(EventResult::Continue)
}

/// Deletes the selected clip, if any, then lists the clips and tags again;
/// the message tells how it went.
fn delete_selected(app: &mut App) -> (r: Result<(), DbError>)
    requires
        old(app).db@.whole,
        old(app).status_message is None,
    ensures
        final(app).db@.whole,
        final(app).mode == old(app).mode,
        old(app).selected_index >= old(app).clips.len() ==> final(app).db@ == old(app).db@
            && final(app).status_message == old(app).status_message && r is Ok,
        old(app).selected_index < old(app).clips.len() ==> delete_outcome(
            &*old(app),
            &*final(app),
            r is Err,
        ),
        r is Err ==> r->Err_0 is Sqlite || r->Err_0 is InvalidRow,
{
    if app.selected_index < app.clips.len() {
        let clip_id = app.clips[app.selected_index].id;
        match app.db.delete_clip(clip_id) {
            Ok(_) => {
                if let Err(e) = app.reload_clips() {
                    return Err(e);
                }
                if let Err(e) = app.reload_tags() {
                    return Err(e);
                }
                app.set_status(owned("Clip deleted"), false);
                Ok(())
            },
            Err(e) => {
                let m = message_with("Delete failed: ", e.message().as_str());
                assert(m@.take("Delete failed: "@.len() as int) =~= "Delete failed: "@);
                app.set_status(m, true);
                Ok(())
            },
        }
    } else {
        Ok(())
    }
}


/// `cmd` begins with `prefix`.
pub open spec fn begins(cmd: Seq<char>, prefix: Seq<char>) -> bool {
    prefix.len() <= cmd.len() && cmd.take(prefix.len() as int) == prefix
}

/// The export format a command names: `csv` and `html` (in any case), else
/// json.
pub open spec fn format_named(parts: Seq<Seq<char>>) -> ExportFormat {
    if parts.len() > 1 && lowercase(parts[1]) == "csv"@ {
        ExportFormat::Csv
    } else if parts.len() > 1 && lowercase(parts[1]) == "html"@ {
        ExportFormat::Html
    } else {
        ExportFormat::Json
    }
}

/// What a command typed after `:` does to the UI `a`, leaving `b`:
/// `q`, `quit` and `exit` leave; `help` shows the help; `new URL` and
/// `clip URL` ask for the url to be fetched and clipped; `export [FORMAT
/// [PATH]]` asks for the listed clips to be exported; `tag TAGS` gives the
/// selected clip those tags; `del` and `delete` delete it; anything else is
/// reported as unknown.
pub open spec fn command_step(a: &App, b: &App, cmd: Seq<char>, r: Result<EventResult, DbError>) -> bool {
    if cmd == "q"@ || cmd == "quit"@ || cmd == "exit"@ {
        r == Ok::<EventResult, DbError>(EventResult::Exit) && unchanged(a, b)
    } else if cmd == "help"@ {
        r == Ok::<EventResult, DbError>(EventResult::Continue) && b.mode == InputMode::HelpModal
            && same_but_mode(a, b)
    } else if begins(cmd, "new "@) || begins(cmd, "clip "@) {
        let url = trim_spec(cmd.skip(if begins(cmd, "new "@) { 4 } else { 5 }));
        &&& r == Ok::<EventResult, DbError>(EventResult::Continue)
        &&& b.db@ == a.db@
        &&& if url.len() == 0 {
            shows(b, "Usage: :new <URL>"@, true) && b.pending == a.pending
        } else {
            &&& shows(b, "Fetching metadata for "@ + url + "..."@, false)
            &&& b.pending matches Some(Action::FetchClip { url: u, tags, notes, from_form })
            &&& u@ == url && tags@.len() == 0 && notes is None && !from_form
        }
    } else if begins(cmd, "export"@) {
        let parts = words(cmd);
        let format = format_named(parts);
        &&& r == Ok::<EventResult, DbError>(EventResult::Continue)
        &&& b.db@ == a.db@
        &&& b.pending matches Some(Action::Export { format: f, path })
        &&& f == format
        &&& path@ == (if parts.len() > 2 {
            parts[2]
        } else {
            default_export_path(format)
        })
    } else if begins(cmd, "tag "@) {
        let tags = crate::commands::tag_list(trim_spec(cmd.skip(4)));
        &&& r is Ok ==> r == Ok::<EventResult, DbError>(EventResult::Continue)
        &&& a.selected_index >= a.clips.len() ==> b.db@ == a.db@ && shows(b, "No clip selected"@, true)
            && r is Ok
        &&& a.selected_index < a.clips.len() ==> retag_outcome(
            a,
            b,
            tags,
            "Tags updated successfully"@,
            r is Err,
        )
    } else if cmd == "del"@ || cmd == "delete"@ {
        &&& r is Ok ==> r == Ok::<EventResult, DbError>(EventResult::Continue)
        &&& a.selected_index >= a.clips.len() ==> b.db@ == a.db@ && r is Ok
        &&& a.selected_index < a.clips.len() ==> delete_outcome(a, b, r is Err)
    } else {
        r == Ok::<EventResult, DbError>(EventResult::Continue) && shows(
            b,
            "Unknown command: :"@ + cmd,
            true,
        ) && same_but_mode(a, b) && b.mode == a.mode
    }
}

fn execute_command(app: &mut App, cmd: &str) -> (r: Result<EventResult, DbError>)
    requires
        old(app).db@.whole,
        old(app).status_message is None,
    ensures
        final(app).db@.whole,
        command_step(&*old(app), &*final(app), cmd@, r),
{
    if str_eq(cmd, "q") || str_eq(cmd, "quit") || str_eq(cmd, "exit") {
        return Ok(EventResult::Exit);
    }
    if str_eq(cmd, "help") {
        app.mode = InputMode::HelpModal;
        return Ok(EventResult::Continue);
    }
    let is_new = starts_with(cmd, "new ");
    if is_new || starts_with(cmd, "clip ") {
        let skip: usize = if is_new {
            proof {
                reveal_strlit("new ");
            }
            4
        } else {
            proof {
                reveal_strlit("clip ");
            }
            5
        };
        let rest = suffix_from(cmd, skip);
        let url = owned(trim(rest.as_str()));
        if url.as_str().is_empty() {
            app.set_status(owned("Usage: :new <URL>"), true);
            return Ok(EventResult::Continue);
        }
        let mut m = owned("Fetching metadata for ");
        m.append(url.as_str());
        m.append("...");
        app.set_status(m, false);
        app.pending = Some(
            Action::FetchClip { url, tags: Vec::new(), notes: None, from_form: false },
        );
        return Ok(EventResult::Continue);
    }
    if starts_with(cmd, "export") {
        let parts = split_words(cmd);
        let format = if parts.len() > 1 {
            let name = to_lowercase(parts[1].as_str());
            if str_eq(name.as_str(), "csv") {
                ExportFormat::Csv
            } else if str_eq(name.as_str(), "html") {
                ExportFormat::Html
            } else {
                ExportFormat::Json
            }
        } else {
            ExportFormat::Json
        };
        let path = if parts.len() > 2 {
            parts[2].clone()
        } else {
            match format {
                ExportFormat::Json => owned("clipper_export.json"),
                ExportFormat::Csv => owned("clipper_export.csv"),
                ExportFormat::Html => owned("clipper_export.html"),
            }
        };
        app.pending = Some(Action::Export { format, path });
        return Ok(EventResult::Continue);
    }
    if starts_with(cmd, "tag ") {
        proof {
            reveal_strlit("tag ");
        }
        let rest = suffix_from(cmd, 4);
        let tags_part = owned(trim(rest.as_str()));
        if app.selected_index < app.clips.len() {
            retag_selected(app, tags_part.as_str(), "Tags updated successfully")?;
        } else {
            app.set_status(owned("No clip selected"), true);
        }
        return Ok(EventResult::Continue);
    }
    if str_eq(cmd, "del") || str_eq(cmd, "delete") {
        delete_selected(app)?;
        return Ok(EventResult::Continue);
    }
    let mut m = owned("Unknown command: :");
    m.append(cmd);
    app.set_status(m, true);
    Ok(EventResult::Continue)
}

/// Command mode: Esc drops the command and goes back to normal mode,
/// typing edits the command, and Enter runs it (trimmed) in normal mode.
pub open spec fn command_key_step(a: &App, b: &App, key: Key, r: Result<EventResult, DbError>) -> bool {
    match key {
        Key::Esc => b.mode == InputMode::Normal && b.command_input@.len() == 0 && b.db@ == a.db@
            && keeps_list(a, b) && keeps_inputs(a, b, true, false, true, true, true)
            && b.previous_mode == a.previous_mode && b.tags_summary == a.tags_summary && b.pending
            == a.pending && b.status_message == a.status_message && r == Ok::<EventResult, DbError>(
            EventResult::Continue,
        ),
        Key::Backspace => b.command_input@ == backspaced(a.command_input@) && keeps_state(a, b)
            && keeps_list(a, b) && keeps_inputs(a, b, true, false, true, true, true) && r == Ok::<
            EventResult,
            DbError,
        >(EventResult::Continue),
        Key::Char(c) => b.command_input@ == a.command_input@.push(c) && keeps_state(a, b)
            && keeps_list(a, b) && keeps_inputs(a, b, true, false, true, true, true) && r == Ok::<
            EventResult,
            DbError,
        >(EventResult::Continue),
        Key::Enter => exists|mid: App|
            mid.command_input@.len() == 0 && mid.mode == InputMode::Normal && mid.db@ == a.db@
                && mid.clips == a.clips && mid.selected_index == a.selected_index && mid.pending
                == a.pending && mid.status_message is None && #[trigger] command_step(
                &mid,
                b,
                trim_spec(a.command_input@),
                r,
            ),
        _ => unchanged(a, b) && r == Ok::<EventResult, DbError>(EventResult::Continue),
    }
}

fn handle_command_key(app: &mut App, key: Key) -> (r: Result<EventResult, DbError>)
    requires
        old(app).db@.whole,
        old(app).status_message is None,
    ensures
        final(app).db@.whole,
        command_key_step(&*old(app), &*final(app), key, r),
{
    match key {
        Key::Esc => {
            app.mode = InputMode::Normal;
            app.command_input = String::new();
        },
        Key::Backspace => {
            pop_char(&mut app.command_input);
        },
        Key::Char(c) => {
            push_char(&mut app.command_input, c);
        },
        Key::Enter => {
            let cmd = owned(trim(app.command_input.as_str()));
            app.command_input = String::new();
            app.mode = InputMode::Normal;
            let ghost mid = *app;
            let r = execute_command(app, cmd.as_str());
            assert(command_step(&mid, &*app, trim_spec(old(app).command_input@), r));
            return r;
        },
        _ => {},
    }
    Ok(EventResult::Continue)
}


/// Delete-confirmation mode: `y` and Enter delete the selected clip and go
/// back to normal mode; `n` and Esc just go back.
pub open spec fn confirm_delete_step(a: &App, b: &App, key: Key, r: Result<EventResult, DbError>) -> bool {
    match key {
        Key::Char('y') | Key::Enter => {
            &&& r is Ok ==> b.mode == InputMode::Normal
            &&& a.selected_index >= a.clips.len() ==> b.db@ == a.db@ && r is Ok
            &&& a.selected_index < a.clips.len() ==> delete_outcome(a, b, r is Err)
        },
        Key::Char('n') | Key::Esc => b.mode == InputMode::Normal && same_but_mode(a, b) && r
            == Ok::<EventResult, DbError>(EventResult::Continue),
        _ => unchanged(a, b) && r == Ok::<EventResult, DbError>(EventResult::Continue),
    }
}

fn handle_confirm_delete_key(app: &mut App, key: Key) -> (r: Result<EventResult, DbError>)
    requires
        old(app).db@.whole,
        old(app).status_message is None,
    ensures
        final(app).db@.whole,
        confirm_delete_step(&*old(app), &*final(app), key, r),
        r is Ok ==> r == Ok::<EventResult, DbError>(EventResult::Continue),
{
    match key {
        Key::Char('y') | Key::Enter => {
            delete_selected(app)?;
            app.mode = InputMode::Normal;
        },
        Key::Char('n') | Key::Esc => {
            app.mode = InputMode::Normal;
        },
        _ => {},
    }
    Ok(EventResult::Continue)
}

/// Help mode: Esc, `q` and `?` go back to the mode the help was opened in.
pub open spec fn help_step(a: &App, b: &App, key: Key) -> bool {
    match key {
        Key::Esc | Key::Char('q') | Key::Char('?') => b.mode == a.previous_mode && same_but_mode(a, b),
        _ => unchanged(a, b),
    }
}

fn handle_help_key(app: &mut App, key: Key) -> (r: Result<EventResult, DbError>)
    requires
        old(app).db@.whole,
    ensures
        final(app).db@.whole,
        help_step(&*old(app), &*final(app), key),
        r == Ok::<EventResult, DbError>(EventResult::Continue),
{
    match key {
        Key::Esc | Key::Char('q') | Key::Char('?') => {
            app.mode = app.previous_mode;
        },
        _ => {},
    }
    Ok(EventResult::Continue)
}

/// Normal mode: `q` leaves; `j`/Down and `k`/Up move the selection; `J`
/// or Shift+Down and `K` or Shift+Up scroll the details; `/`, `:`, `n`, `e` open search, command,
/// new-clip and export modes; `t` edits the selected clip's tags and `d`
/// or `x` asks to delete it; `r` lists again; `?` shows the help; Enter
/// asks for the selected clip to be opened in the browser; Esc clears the
/// search text.
pub open spec fn normal_step(a: &App, b: &App, key: Key, r: Result<EventResult, DbError>) -> bool {
    let selected = a.selected_index < a.clips.len();
    let lists_again = key == Key::Char('r') || (key == Key::Esc && a.search_query@.len() > 0);
    &&& key != Key::Char('q') && r is Ok ==> r == Ok::<EventResult, DbError>(EventResult::Continue)
    &&& key != Key::Char('q') && !lists_again ==> r is Ok
    &&& match key {
        Key::Char('q') => r == Ok::<EventResult, DbError>(EventResult::Exit) && unchanged(a, b),
        Key::Char('j') | Key::Down => {
            &&& b.same_ui(a) && b.tags_summary == a.tags_summary
            &&& b.clips == a.clips
            &&& b.db@ == a.db@
            &&& a.clips.len() > 0 ==> b.selected_index == next_index(a.selected_index, a.clips.len() as int)
                && b.detail_scroll == 0
            &&& a.clips.len() == 0 ==> b.selected_index == a.selected_index
        },
        Key::Char('k') | Key::Up => {
            &&& b.same_ui(a) && b.tags_summary == a.tags_summary
            &&& b.clips == a.clips
            &&& b.db@ == a.db@
            &&& a.clips.len() > 0 ==> b.selected_index == previous_index(
                a.selected_index,
                a.clips.len() as int,
            ) && b.detail_scroll == 0
            &&& a.clips.len() == 0 ==> b.selected_index == a.selected_index
        },
        Key::Char('J') | Key::ShiftDown => b.same_ui(a) && b.clips == a.clips && b.selected_index
            == a.selected_index && b.tags_summary == a.tags_summary && b.db@ == a.db@ && b.detail_scroll == (if a.detail_scroll as int
            + 2 > u16::MAX {
            u16::MAX
        } else {
            (a.detail_scroll + 2) as u16
        }),
        Key::Char('K') | Key::ShiftUp => b.same_ui(a) && b.clips == a.clips && b.selected_index
            == a.selected_index && b.tags_summary == a.tags_summary && b.db@ == a.db@ && b.detail_scroll == (if a.detail_scroll
            < 2 {
            0
        } else {
            (a.detail_scroll - 2) as u16
        }),
        Key::Char('/') => b.mode == InputMode::Search && same_but_mode(a, b),
        Key::Char(':') => b.mode == InputMode::Command && b.command_input@.len() == 0 && b.db@ == a.db@,
        Key::Char('n') => b.mode == InputMode::AddClip && b.add_form.url@.len() == 0
            && b.add_form.tags@.len() == 0 && b.add_form.notes@.len() == 0
            && b.add_form.active_field == 0 && b.db@ == a.db@,
        Key::Char('e') => b.mode == InputMode::Export && same_but_mode(a, b),
        Key::Char('t') => b.db@ == a.db@ && if selected {
            b.mode == InputMode::EditTags && b.tag_input@ == join_spec(
                a.clips@[a.selected_index as int]@.tags,
                ", "@,
            )
        } else {
            b.mode == a.mode && shows(b, "No clip selected to tag"@, true)
        },
        Key::Char('d') | Key::Char('x') => b.db@ == a.db@ && if selected {
            b.mode == InputMode::ConfirmDelete && same_but_mode(a, b)
        } else {
            b.mode == a.mode && shows(b, "No clip selected to delete"@, true)
        },
        Key::Char('r') => b.db@ == a.db@ && b.mode == a.mode && (r is Ok ==> shows(
            b,
            "Clips refreshed"@,
            false,
        ) && crate::tui::app::shown_clips(b.db@, b.search_query@, b.clips.deep_view())
            && crate::db::tag_counts(b.db@.tags, b.tags_summary.deep_view())),
        Key::Char('?') => b.mode == InputMode::HelpModal && b.previous_mode == a.mode && b.db@ == a.db@,
        Key::Enter => b.db@ == a.db@ && b.mode == a.mode && if selected {
            b.pending matches Some(Action::OpenUrl(u)) && u@ == a.clips@[a.selected_index as int].url@
        } else {
            b.pending == a.pending
        },
        Key::Esc => b.db@ == a.db@ && b.mode == a.mode && if a.search_query@.len() > 0 {
            &&& b.search_query@.len() == 0
            &&& r is Ok ==> shows(b, "Search filter cleared"@, false)
                && crate::tui::app::shown_clips(b.db@, b.search_query@, b.clips.deep_view())
        } else {
            unchanged(a, b)
        },
        _ => unchanged(a, b) && r == Ok::<EventResult, DbError>(EventResult::Continue),
    }
}

/// In normal mode `j` and Down move the selection one clip down the list,
/// from the last clip back to the first, and `k` and Up move it one clip
/// up, from the first clip to the last; the details scroll to the top.
/// `J` and Shift+Down scroll the details two lines down (up to the largest
/// offset), `K` and Shift+Up two lines up (down to the top), keeping the
/// selection.
pub proof fn law_normal_mode_moves(a: App, b: App, key: Key, r: Result<EventResult, DbError>)
    requires
        normal_step(&a, &b, key, r),
        a.clips.len() > 0,
        a.selected_index < a.clips.len(),
    ensures
        key == Key::Char('j') || key == Key::Down ==> b.selected_index == (if a.selected_index + 1
            == a.clips.len() {
            0
        } else {
            a.selected_index + 1
        }) && b.detail_scroll == 0,
        key == Key::Char('k') || key == Key::Up ==> b.selected_index == (if a.selected_index == 0 {
            a.clips.len() - 1
        } else {
            a.selected_index - 1
        }) && b.detail_scroll == 0,
        key == Key::Char('J') || key == Key::ShiftDown ==> b.selected_index == a.selected_index
            && b.detail_scroll == (if a.detail_scroll + 2 <= 65535 {
            a.detail_scroll + 2
        } else {
            65535
        }),
        key == Key::Char('K') || key == Key::ShiftUp ==> b.selected_index == a.selected_index
            && b.detail_scroll == (if a.detail_scroll >= 2 {
            a.detail_scroll - 2
        } else {
            0
        }),
{
    let n = a.clips.len() as int;
    let i = a.selected_index as int;
    if i + 1 < n {
        vstd::arithmetic::div_mod::lemma_small_mod((i + 1) as nat, n as nat);
    } else {
        vstd::arithmetic::div_mod::lemma_mod_self_0(n);
    }
}

fn handle_normal_key(app: &mut App, key: Key) -> (r: Result<EventResult, DbError>)
    requires
        old(app).db@.whole,
    ensures
        final(app).db@.whole,
        normal_step(&*old(app), &*final(app), key, r),
{
    match key {
        Key::Char('q') => {
            return Ok(EventResult::Exit);
        },
        Key::Char('j') | Key::Down => app.next_clip(),
        Key::Char('k') | Key::Up => app.previous_clip(),
        Key::Char('J') | Key::ShiftDown => app.scroll_detail_down(),
        Key::Char('K') | Key::ShiftUp => app.scroll_detail_up(),
        Key::Char('/') => {
            app.mode = InputMode::Search;
        },
        Key::Char(':') => {
            app.mode = InputMode::Command;
            app.command_input = String::new();
        },
        Key::Char('n') => {
            app.mode = InputMode::AddClip;
            app.add_form = AddClipForm::default();
        },
        Key::Char('e') => {
            app.mode = InputMode::Export;
        },
        Key::Char('t') => {
            if app.selected_index < app.clips.len() {
                let tags = join(&app.clips[app.selected_index].tags, ", ");
                app.tag_input = tags;
                app.mode = InputMode::EditTags;
            } else {
                app.set_status(owned("No clip selected to tag"), true);
            }
        },
        Key::Char('d') | Key::Char('x') => {
            if app.selected_index < app.clips.len() {
                app.mode = InputMode::ConfirmDelete;
            } else {
                app.set_status(owned("No clip selected to delete"), true);
            }
        },
        Key::Char('r') => {
            app.reload_clips()?;
            app.reload_tags()?;
            app.set_status(owned("Clips refreshed"), false);
        },
        Key::Char('?') => {
            app.previous_mode = app.mode;
            app.mode = InputMode::HelpModal;
        },
        Key::Enter => {
            if app.selected_index < app.clips.len() {
                let url = app.clips[app.selected_index].url.clone();
                app.pending = Some(Action::OpenUrl(url));
            }
        },
        Key::Esc => {
            if !app.search_query.as_str().is_empty() {
                app.search_query = String::new();
                app.reload_clips()?;
                app.set_status(owned("Search filter cleared"), false);
            }
        },
        _ => {},
    }
    Ok(EventResult::Continue)
}

/// Handles one key: the message is cleared, then the key acts as the mode
/// the UI is in says.
pub fn handle_key_event(app: &mut App, key: Key) -> (r: Result<EventResult, DbError>)
    requires
        old(app).db@.whole,
        old(app).add_form.active_field < usize::MAX,
    ensures
        final(app).db@.whole,
        ({
            let a = *old(app);
            let b = *final(app);
            exists|s: App|
                #[trigger] s.same_except_status(&a) && s.status_message is None && match a.mode {
                    InputMode::Normal => normal_step(&s, &b, key, r),
                    InputMode::Search => search_step(&s, &b, key) && r
                        == Ok::<EventResult, DbError>(EventResult::Continue),
                    InputMode::Command => command_key_step(&s, &b, key, r),
                    InputMode::AddClip => add_clip_step(&s, &b, key) && r == Ok::<
                        EventResult,
                        DbError,
                    >(EventResult::Continue),
                    InputMode::EditTags => edit_tags_step(&s, &b, key, r),
                    InputMode::Export => export_step(&s, &b, key) && r == Ok::<EventResult, DbError>(
                        EventResult::Continue,
                    ),
                    InputMode::ConfirmDelete => confirm_delete_step(&s, &b, key, r),
                    InputMode::HelpModal => help_step(&s, &b, key) && r == Ok::<EventResult, DbError>(
                        EventResult::Continue,
                    ),
                }
        }),
{
    app.clear_status();
    let ghost s = *app;
    let r = match app.mode {
        InputMode::Normal => handle_normal_key(app, key),
        InputMode::Search => handle_search_key(app, key),
        InputMode::Command => handle_command_key(app, key),
        InputMode::AddClip => handle_add_clip_key(app, key),
        InputMode::EditTags => handle_edit_tags_key(app, key),
        InputMode::Export => handle_export_key(app, key),
        InputMode::ConfirmDelete => handle_confirm_delete_key(app, key),
        InputMode::HelpModal => handle_help_key(app, key),
    };
    assert(s.same_except_status(&*old(app)));
    r
}


/// Shows how opening `url` in the browser went: `failure` is the error
/// the browser launch reported, if any.
pub fn finish_open(app: &mut App, url: &str, failure: Option<String>)
    ensures
        match failure {
            None => shows(&*final(app), "Opened "@ + url@, false),
            Some(e) => shows(&*final(app), "Failed to open browser: "@ + e@, true),
        },
        final(app).same_except_status(&*old(app)),
{
    match failure {
        None => {
            let mut m = owned("Opened ");
            m.append(url);
            app.set_status(m, false);
        },
        Some(e) => {
            let mut m = owned("Failed to open browser: ");
            m.append(e.as_str());
            app.set_status(m, true);
        },
    }
}

/// Shows how exporting the listed clips to `path` went: `failure` is the
/// error the export reported, if any.
pub fn finish_export(app: &mut App, path: &str, failure: Option<String>)
    ensures
        match failure {
            None => shows(
                &*final(app),
                "Exported "@ + crate::text::decimal(old(app).clips.len() as nat) + " clips to "@ + path@,
                false,
            ),
            Some(e) => shows(&*final(app), "Export failed: "@ + e@, true),
        },
        final(app).same_except_status(&*old(app)),
{
    match failure {
        None => {
            let mut m = owned("Exported ");
            let count = crate::text::u64_text(app.clips.len() as u64);
            m.append(count.as_str());
            m.append(" clips to ");
            m.append(path);
            app.set_status(m, false);
        },
        Some(e) => {
            let mut m = owned("Export failed: ");
            m.append(e.as_str());
            app.set_status(m, true);
        },
    }
}

/// What became of a request to fetch a url's page and clip it.
#[derive(Debug, Clone)]
pub enum FetchOutcome {
    /// The clip made from the url and its page.
    Fetched(NewClip),
    /// The page could not be fetched; the error.
    Failed(String),
    /// No HTTP client could be made; the error.
    NoClient(String),
}

/// `text` followed by `e`.
fn message_with(text: &str, e: &str) -> (m: String)
    ensures
        m@ == text@ + e@,
{
    let mut m = owned(text);
    m.append(e);
    m
}

/// Saves `clip`, then lists the clips and tags again and shows `Clipped:`
/// with its title; a failure to save is shown after `failed`.
fn save_clip(app: &mut App, clip: NewClip, failed: &str) -> (r: Result<(), DbError>)
    requires
        old(app).db@.whole,
    ensures
        final(app).db@.whole,
        final(app).mode == old(app).mode,
        r is Ok ==> (exists|c: ClipView|
            #[trigger] inserted(old(app).db@, final(app).db@, clip@, c) && shows(
                &*final(app),
                "Clipped: "@ + c.title,
                false,
            )) || (final(app).status_message matches Some((m, true)) && m@.len() >= failed@.len()
            && m@.take(failed@.len() as int) == failed@),
        r is Err ==> (exists|c: ClipView| #[trigger] inserted(old(app).db@, final(app).db@, clip@, c))
            && (r->Err_0 is Sqlite || r->Err_0 is InvalidRow),
        url_taken(old(app).db@.clips, SqlVal::Text(clip@.url)) ==> r is Ok && final(app).db@ == old(
            app,
        ).db@ && (final(app).status_message matches Some((m, true)) && failed@.is_prefix_of(m@)),
{
    let ghost n = clip@;
    match app.db.insert_clip(clip) {
        Ok(c) => {
            let ghost cv = c@;
            if let Err(e) = app.reload_clips() {
                return Err(e);
            }
            if let Err(e) = app.reload_tags() {
                return Err(e);
            }
            app.set_status(message_with("Clipped: ", c.title.as_str()), false);
            assert(inserted(old(app).db@, app.db@, n, cv));
            Ok(())
        },
        Err(e) => {
            let m = message_with(failed, e.message().as_str());
            assert(m@.take(failed@.len() as int) =~= failed@);
            app.set_status(m, true);
            Ok(())
        },
    }
}

/// Takes in what became of a request to fetch `url`'s page and clip it
/// with `tags` and `notes`: the clip made is saved; when the page could not
/// be fetched, a request of the new-clip form still saves the url, titled
/// with itself. The message tells how it went.
pub fn finish_clip(
    app: &mut App,
    url: &str,
    tags: Vec<String>,
    notes: Option<String>,
    from_form: bool,
    outcome: FetchOutcome,
) -> (r: Result<(), DbError>)
    requires
        old(app).db@.whole,
    ensures
        final(app).db@.whole,
        final(app).mode == old(app).mode,
        match outcome {
            FetchOutcome::Fetched(n) => r is Ok ==> (exists|c: ClipView|
                #[trigger] inserted(old(app).db@, final(app).db@, n@, c) && shows(
                    &*final(app),
                    "Clipped: "@ + c.title,
                    false,
                )) || (final(app).status_message matches Some((m, true)) && m@.take(
                (if from_form {
                    "Save error: "@
                } else {
                    "Failed to save clip: "@
                }).len() as int,
            ) == (if from_form {
                "Save error: "@
            } else {
                "Failed to save clip: "@
            })),
            FetchOutcome::Failed(e) => if from_form {
                let fb = crate::commands::unfetched_clip(
                    url@,
                    Some(url@),
                    tags.deep_view(),
                    notes.deep_view(),
                );
                &&& r is Ok ==> shows(&*final(app), "Saved clip (Fetch error: "@ + e@ + ")"@, false)
                &&& (exists|c: ClipView| #[trigger] inserted(old(app).db@, final(app).db@, fb, c))
                    || crate::db::partly_inserted(old(app).db@, final(app).db@, fb) || final(app).db@
                    == old(app).db@
                &&& url_taken(old(app).db@.clips, SqlVal::Text(url@)) ==> final(app).db@ == old(
                    app,
                ).db@
            } else {
                final(app).db@ == old(app).db@ && shows(&*final(app), "Failed to fetch URL: "@ + e@, true)
            },
            FetchOutcome::NoClient(e) => final(app).db@ == old(app).db@ && if from_form {
                final(app).status_message == old(app).status_message
            } else {
                shows(&*final(app), "Fetcher error: "@ + e@, true)
            },
        },
{
    match outcome {
        FetchOutcome::Fetched(clip) => {
            let failed = if from_form {
                "Save error: "
            } else {
                "Failed to save clip: "
            };
            save_clip(app, clip, failed)
        },
        FetchOutcome::Failed(e) => {
            if from_form {
                let fallback = crate::commands::clip_without_fetch(url, Some(owned(url)), tags, notes);
                let _ = app.db.insert_clip(fallback);
                app.reload_clips()?;
                app.reload_tags()?;
                let mut m = owned("Saved clip (Fetch error: ");
                m.append(e.as_str());
                m.append(")");
                app.set_status(m, false);
                Ok(())
            } else {
                app.set_status(message_with("Failed to fetch URL: ", e.as_str()), true);
                Ok(())
            }
        },
        FetchOutcome::NoClient(e) => {
            if !from_form {
                app.set_status(message_with("Fetcher error: ", e.as_str()), true);
            }
            Ok(())
        },
    }
}

} // verus!
