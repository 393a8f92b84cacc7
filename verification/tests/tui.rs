use clipper::db::Database;
use clipper::models::{ExportFormat, NewClip};
use clipper::tui::app::{Action, App, InputMode};
use clipper::tui::event::{finish_clip, finish_export, finish_open, handle_key_event, EventResult, FetchOutcome, Key};
use clipper::tui::view::{delete_prompt, detail_tags, list_tags_suffix, list_title, mode_label, reading_label, stats_text};

fn clip(url: &str, title: &str, tags: &[&str]) -> NewClip {
    NewClip {
        url: url.to_string(),
        title: title.to_string(),
        description: None,
        tags: tags.iter().map(|t| t.to_string()).collect(),
        notes: None,
        content_text: None,
        screenshot_path: None,
        favicon_url: None,
        author: None,
        site_name: None,
        reading_time_mins: None,
    }
}

fn app_with_two() -> App {
    let mut db = Database::in_memory().unwrap();
    db.insert_clip(clip("https://1.example", "one", &["a"])).unwrap();
    db.insert_clip(clip("https://2.example", "two", &["b"])).unwrap();
    App::new(db).unwrap()
}

fn key(app: &mut App, k: Key) -> EventResult {
    handle_key_event(app, k).unwrap()
}

fn type_text(app: &mut App, s: &str) {
    for c in s.chars() {
        key(app, Key::Char(c));
    }
}

#[test]
fn navigation_wraps_around() {
    let mut app = app_with_two();
    assert_eq!(app.clips.len(), 2);
    assert_eq!(app.selected_index, 0);
    key(&mut app, Key::Char('j'));
    assert_eq!(app.selected_index, 1);
    key(&mut app, Key::Down);
    assert_eq!(app.selected_index, 0);
    key(&mut app, Key::Up);
    assert_eq!(app.selected_index, 1);
    key(&mut app, Key::Char('J'));
    assert_eq!(app.detail_scroll, 2);
    key(&mut app, Key::Char('K'));
    key(&mut app, Key::Char('K'));
    assert_eq!(app.detail_scroll, 0);
    assert_eq!(key(&mut app, Key::Char('q')), EventResult::Exit);
}

#[test]
fn search_mode_filters_live() {
    let mut app = app_with_two();
    key(&mut app, Key::Char('/'));
    assert_eq!(app.mode, InputMode::Search);
    type_text(&mut app, "two");
    assert_eq!(app.search_query, "two");
    assert_eq!(app.clips.len(), 1);
    key(&mut app, Key::Backspace);
    assert_eq!(app.search_query, "tw");
    key(&mut app, Key::Enter);
    assert_eq!(app.mode, InputMode::Normal);
    key(&mut app, Key::Esc);
    assert_eq!(app.search_query, "");
    assert_eq!(app.clips.len(), 2);
    assert_eq!(app.status_message, Some(("Search filter cleared".to_string(), false)));
}

#[test]
fn commands_run_from_command_mode() {
    let mut app = app_with_two();
    key(&mut app, Key::Char(':'));
    type_text(&mut app, " tag x, y ");
    key(&mut app, Key::Enter);
    assert_eq!(app.mode, InputMode::Normal);
    assert_eq!(app.status_message, Some(("Tags updated successfully".to_string(), false)));
    assert_eq!(app.clips[app.selected_index].tags, vec!["x", "y"]);
    key(&mut app, Key::Char(':'));
    type_text(&mut app, "export csv out.csv");
    key(&mut app, Key::Enter);
    match &app.pending {
        Some(Action::Export { format, path }) => {
            assert_eq!(*format, ExportFormat::Csv);
            assert_eq!(path, "out.csv");
        }
        _ => panic!("no export requested"),
    }
    key(&mut app, Key::Char(':'));
    type_text(&mut app, "bogus");
    key(&mut app, Key::Enter);
    assert_eq!(app.status_message, Some(("Unknown command: :bogus".to_string(), true)));
    key(&mut app, Key::Char(':'));
    type_text(&mut app, "new ");
    key(&mut app, Key::Enter);
    assert_eq!(app.status_message, Some(("Unknown command: :new".to_string(), true)));
    key(&mut app, Key::Char(':'));
    type_text(&mut app, "del");
    key(&mut app, Key::Enter);
    assert_eq!(app.status_message, Some(("Clip deleted".to_string(), false)));
    assert_eq!(app.clips.len(), 1);
    key(&mut app, Key::Char(':'));
    type_text(&mut app, "quit");
    assert_eq!(key(&mut app, Key::Enter), EventResult::Exit);
}

#[test]
fn delete_confirmation_and_tag_editing() {
    let mut app = app_with_two();
    key(&mut app, Key::Char('t'));
    assert_eq!(app.mode, InputMode::EditTags);
    let before = app.tag_input.clone();
    assert!(before == "a" || before == "b");
    key(&mut app, Key::Backspace);
    type_text(&mut app, "z, w");
    key(&mut app, Key::Enter);
    assert_eq!(app.status_message, Some(("Tags updated".to_string(), false)));
    assert_eq!(app.clips[app.selected_index].tags, vec!["z", "w"]);
    key(&mut app, Key::Char('d'));
    assert_eq!(app.mode, InputMode::ConfirmDelete);
    key(&mut app, Key::Char('n'));
    assert_eq!(app.mode, InputMode::Normal);
    assert_eq!(app.clips.len(), 2);
    key(&mut app, Key::Char('x'));
    key(&mut app, Key::Char('y'));
    assert_eq!(app.clips.len(), 1);
    key(&mut app, Key::Char('?'));
    assert_eq!(app.mode, InputMode::HelpModal);
    key(&mut app, Key::Esc);
    assert_eq!(app.mode, InputMode::Normal);
}

#[test]
fn new_clip_form_and_fetch_outcomes() {
    let mut app = app_with_two();
    key(&mut app, Key::Char('n'));
    assert_eq!(app.mode, InputMode::AddClip);
    key(&mut app, Key::Enter);
    assert_eq!(app.status_message, Some(("URL cannot be empty".to_string(), true)));
    type_text(&mut app, " https://3.example ");
    key(&mut app, Key::Tab);
    type_text(&mut app, "k, l");
    key(&mut app, Key::Tab);
    type_text(&mut app, "  ");
    key(&mut app, Key::Enter);
    assert_eq!(app.mode, InputMode::Normal);
    let (url, tags, notes, from_form) = match app.pending.take() {
        Some(Action::FetchClip { url, tags, notes, from_form }) => (url, tags, notes, from_form),
        _ => panic!("no fetch requested"),
    };
    assert_eq!(url, "https://3.example");
    assert_eq!(tags, vec!["k", "l"]);
    assert_eq!(notes, None);
    assert!(from_form);
    app.status_message = None;
    finish_clip(&mut app, &url, tags, notes, from_form, FetchOutcome::Failed("offline".to_string())).unwrap();
    assert_eq!(app.status_message, Some(("Saved clip (Fetch error: offline)".to_string(), false)));
    assert_eq!(app.clips.len(), 3);
    app.status_message = None;
    finish_clip(&mut app, "u", vec![], None, false, FetchOutcome::Fetched(clip("https://4.example", "Four", &[]))).unwrap();
    assert_eq!(app.status_message, Some(("Clipped: Four".to_string(), false)));
    app.status_message = None;
    finish_clip(&mut app, "u", vec![], None, false, FetchOutcome::Failed("down".to_string())).unwrap();
    assert_eq!(app.status_message, Some(("Failed to fetch URL: down".to_string(), true)));
    finish_open(&mut app, "https://1.example", None);
    assert_eq!(app.status_message, Some(("Opened https://1.example".to_string(), false)));
    finish_export(&mut app, "out.json", None);
    assert_eq!(app.status_message, Some(("Exported 4 clips to out.json".to_string(), false)));
    finish_export(&mut app, "out.json", Some("disk full".to_string()));
    assert_eq!(app.status_message, Some(("Export failed: disk full".to_string(), true)));
}

#[test]
fn export_mode_cycles_formats() {
    let mut app = app_with_two();
    key(&mut app, Key::Char('e'));
    assert_eq!(app.mode, InputMode::Export);
    key(&mut app, Key::Tab);
    assert_eq!(app.export_format, ExportFormat::Csv);
    assert_eq!(app.export_path_input, "clipper_export.csv");
    key(&mut app, Key::Tab);
    key(&mut app, Key::Tab);
    assert_eq!(app.export_format, ExportFormat::Json);
    assert_eq!(app.export_path_input, "clipper_export.json");
    key(&mut app, Key::Enter);
    assert!(matches!(app.pending, Some(Action::Export { format: ExportFormat::Json, .. })));
}

#[test]
fn view_texts() {
    assert_eq!(mode_label(InputMode::AddClip), " NEW CLIP ");
    assert_eq!(stats_text(3, 2), " Clips: 3 | Tags: 2 | Press '?' for Help ");
    assert_eq!(list_title(false, 4), " Clips (4) ");
    assert_eq!(list_title(true, 1), " Search Results (1) ");
    assert_eq!(list_tags_suffix(&vec!["a".to_string()]), " [#a]");
    assert_eq!(list_tags_suffix(&vec![]), "");
    assert_eq!(detail_tags(&vec![]), "None");
    assert_eq!(reading_label(None), "~1 min");
    assert_eq!(reading_label(Some(12)), "~12 min");
    assert_eq!(delete_prompt(Some("T")), "Delete clip 'T'?");
    assert_eq!(delete_prompt(None), "Delete clip 'clip'?");
}

#[test]
fn saving_a_clip_whose_url_is_taken_reports_the_failure() {
    let mut app = app_with_two();
    finish_clip(&mut app, "u", vec![], None, false, FetchOutcome::Fetched(clip("https://1.example", "Again", &[]))).unwrap();
    let (m, is_error) = app.status_message.clone().unwrap();
    assert!(is_error);
    assert!(m.starts_with("Failed to save clip: "));
    assert_eq!(app.clips.len(), 2);
}

#[test]
fn shift_arrows_scroll_the_details() {
    let mut app = app_with_two();
    let selected = app.selected_index;
    key(&mut app, Key::ShiftDown);
    assert_eq!(app.detail_scroll, 2);
    assert_eq!(app.selected_index, selected);
    key(&mut app, Key::ShiftDown);
    key(&mut app, Key::ShiftUp);
    assert_eq!(app.detail_scroll, 2);
    assert_eq!(app.selected_index, selected);
}

#[test]
fn quitting_changes_nothing_but_the_cleared_message() {
    let mut app = app_with_two();
    app.status_message = Some(("hello".to_string(), false));
    let clips = app.clips.len();
    let selected = app.selected_index;
    assert_eq!(handle_key_event(&mut app, Key::Char('q')).unwrap(), EventResult::Exit);
    assert_eq!(app.status_message, None);
    assert_eq!(app.mode, InputMode::Normal);
    assert_eq!(app.clips.len(), clips);
    assert_eq!(app.selected_index, selected);
}

#[test]
fn export_tab_cycles_without_queuing_work() {
    let mut app = app_with_two();
    key(&mut app, Key::Char('e'));
    assert_eq!(key(&mut app, Key::Tab), EventResult::Continue);
    assert_eq!(app.export_format, ExportFormat::Csv);
    assert_eq!(app.export_path_input, "clipper_export.csv");
    assert!(app.pending.is_none());
    key(&mut app, Key::Char('x'));
    assert_eq!(app.export_path_input, "clipper_export.csvx");
    assert!(app.pending.is_none());
}

#[test]
fn navigation_keys_continue_and_other_confirm_keys_change_nothing() {
    let mut app = app_with_two();
    assert_eq!(key(&mut app, Key::Char('j')), EventResult::Continue);
    assert_eq!(key(&mut app, Key::ShiftUp), EventResult::Continue);
    key(&mut app, Key::Char('d'));
    assert_eq!(app.mode, InputMode::ConfirmDelete);
    assert_eq!(key(&mut app, Key::Char('z')), EventResult::Continue);
    assert_eq!(app.mode, InputMode::ConfirmDelete);
    assert_eq!(app.clips.len(), 2);
    assert_eq!(app.status_message, None);
}
