//! The state of the terminal UI and the moves that change it.
use vstd::prelude::*;
use crate::db::{
    is_search, listed, searched, tag_count_too_large, tag_counts, Database, DbError, DbView,
};
use crate::models::{Clip, ClipFilter, ClipFilterView, ExportFormat, TagCount};
use crate::text::owned;

verus! {

/// What the keys of the UI act on.
#[derive(Debug, Clone, Copy, PartialEq, Eq, Structural)]
pub enum InputMode {
    Normal,
    Search,
    Command,
    AddClip,
    EditTags,
    Export,
    ConfirmDelete,
    HelpModal,
}

/// The fields of the form that clips a new url.
#[derive(Debug, Clone)]
pub struct AddClipForm {
    pub url: String,
    pub tags: String,
    pub notes: String,
    /// The field being typed in: 0 url, 1 tags, 2 notes.
    pub active_field: usize,
}

impl Default for AddClipForm {
    fn default() -> (f: Self)
        ensures
            f.url@.len() == 0,
            f.tags@.len() == 0,
            f.notes@.len() == 0,
            f.active_field == 0,
    {
        AddClipForm { url: String::new(), tags: String::new(), notes: String::new(), active_field: 0 }
    }
}

/// Outside work the UI asks for; the program does it and reports back.
#[derive(Debug, Clone)]
pub enum Action {
    /// Open a url in the default web browser.
    OpenUrl(String),
    /// Fetch a url's page and clip it, with tags and notes; `from_form`
    /// tells that the new-clip form asked (its url is then saved even when
    /// the page cannot be fetched).
    FetchClip { url: String, tags: Vec<String>, notes: Option<String>, from_form: bool },
    /// Export the listed clips to a file.
    Export { format: ExportFormat, path: String },
}

/// The state of the terminal UI.
pub struct App {
    pub db: Database,
    pub clips: Vec<Clip>,
    pub selected_index: usize,
    pub detail_scroll: u16,
    pub mode: InputMode,
    pub previous_mode: InputMode,
    pub search_query: String,
    pub command_input: String,
    pub tag_input: String,
    pub export_path_input: String,
    pub export_format: ExportFormat,
    pub add_form: AddClipForm,
    /// A message and whether it reports an error.
    pub status_message: Option<(String, bool)>,
    pub tags_summary: Vec<TagCount>,
    /// Outside work waiting to be done.
    pub pending: Option<Action>,
}

/// The filter the clip list uses for the search text `q`: the text, when
/// there is one, and nothing else.
pub open spec fn search_filter_of(q: Seq<char>) -> ClipFilterView {
    ClipFilterView {
        query: if q.len() == 0 {
            None
        } else {
            Some(q)
        },
        tag: None,
        from_date: None,
        to_date: None,
        limit: None,
        offset: None,
    }
}

/// `cs` is what the clip list shows for the search text `q` in `v`.
pub open spec fn shown_clips(v: DbView, q: Seq<char>, cs: Seq<crate::models::ClipView>) -> bool {
    let f = search_filter_of(q);
    if is_search(f) {
        searched(v, f, cs)
    } else {
        listed(v, f, cs)
    }
}

/// The selection after moving down from `sel` in a list of `n > 0` clips.
pub open spec fn next_index(sel: usize, n: int) -> int {
    (sel + 1) % n
}

/// The selection after moving up from `sel` in a list of `n > 0` clips.
pub open spec fn previous_index(sel: usize, n: int) -> int {
    if sel == 0 {
        n - 1
    } else {
        sel - 1
    }
}

/// Moving down and then up, or up and then down, comes back to the clip
/// the selection was on.
pub proof fn law_down_up_returns(sel: usize, n: int)
    requires
        0 <= sel < n,
        n <= usize::MAX,
    ensures
        previous_index(next_index(sel, n) as usize, n) == sel,
        next_index(previous_index(sel, n) as usize, n) == sel,
{
    if sel + 1 < n {
        vstd::arithmetic::div_mod::lemma_small_mod((sel + 1) as nat, n as nat);
    } else {
        assert(next_index(sel, n) == 0) by {
            vstd::arithmetic::div_mod::lemma_mod_self_0(n);
        }
    }
    if sel == 0 {
        assert((n - 1 + 1) % n == 0) by {
            vstd::arithmetic::div_mod::lemma_mod_self_0(n);
        }
    } else {
        vstd::arithmetic::div_mod::lemma_small_mod(sel as nat, n as nat);
    }
}

/// The selection after the list was reloaded with `n` clips.
pub open spec fn kept_selection(sel: usize, n: int) -> usize {
    if n == 0 {
        0
    } else if sel >= n {
        (n - 1) as usize
    } else {
        sel
    }
}

impl App {
    /// The two states show the same mode, inputs, form, message and
    /// waiting work.
    pub open spec fn same_ui(&self, other: &App) -> bool {
        &&& self.mode == other.mode
        &&& self.previous_mode == other.previous_mode
        &&& self.search_query@ == other.search_query@
        &&& self.command_input@ == other.command_input@
        &&& self.tag_input@ == other.tag_input@
        &&& self.export_path_input@ == other.export_path_input@
        &&& self.export_format == other.export_format
        &&& self.add_form == other.add_form
        &&& self.status_message == other.status_message
        &&& self.pending == other.pending
    }

    /// Everything but the message is as in `other`.
    pub open spec fn same_except_status(&self, other: &App) -> bool {
        &&& self.db@ == other.db@
        &&& self.clips == other.clips
        &&& self.selected_index == other.selected_index
        &&& self.detail_scroll == other.detail_scroll
        &&& self.mode == other.mode
        &&& self.previous_mode == other.previous_mode
        &&& self.search_query@ == other.search_query@
        &&& self.command_input@ == other.command_input@
        &&& self.tag_input@ == other.tag_input@
        &&& self.export_path_input@ == other.export_path_input@
        &&& self.export_format == other.export_format
        &&& self.add_form == other.add_form
        &&& self.tags_summary == other.tags_summary
        &&& self.pending == other.pending
    }

    /// The selection points at a clip, or the list is empty and it is 0.
    pub open spec fn selection_ok(&self) -> bool {
        if self.clips.len() == 0 {
            self.selected_index == 0
        } else {
            self.selected_index < self.clips.len()
        }
    }

    /// A UI on the store `db` in normal mode, with every clip listed and
    /// the tags counted.
    pub fn new(db: Database) -> (r: Result<App, DbError>)
        requires
            db@.whole,
        ensures
            r is Ok ==> {
                let a = r->Ok_0;
                &&& a.db@ == db@
                &&& a.mode == InputMode::Normal
                &&& a.previous_mode == InputMode::Normal
                &&& a.search_query@.len() == 0
                &&& a.export_path_input@ == "clipper_export.json"@
                &&& a.export_format == ExportFormat::Json
                &&& a.selected_index == 0
                &&& a.detail_scroll == 0
                &&& a.command_input@.len() == 0
                &&& a.tag_input@.len() == 0
                &&& a.add_form.url@.len() == 0 && a.add_form.tags@.len() == 0
                    && a.add_form.notes@.len() == 0 && a.add_form.active_field == 0
                &&& a.status_message is None
                &&& a.pending is None
                &&& a.selection_ok()
                &&& shown_clips(a.db@, a.search_query@, a.clips.deep_view())
                &&& tag_counts(a.db@.tags, a.tags_summary.deep_view())
            },
            r matches Err(e) ==> e is Sqlite || e is InvalidRow,
    {
        let mut app = App {
            db,
            clips: Vec::new(),
            selected_index: 0,
            detail_scroll: 0,
            mode: InputMode::Normal,
            previous_mode: InputMode::Normal,
            search_query: String::new(),
            command_input: String::new(),
            tag_input: String::new(),
            export_path_input: owned("clipper_export.json"),
            export_format: ExportFormat::Json,
            add_form: AddClipForm::default(),
            status_message: None,
            tags_summary: Vec::new(),
            pending: None,
        };
        if let Err(e) = app.reload_clips() {
            return Err(e);
        }
        if let Err(e) = app.reload_tags() {
            return Err(e);
        }
        Ok(app)
    }

    /// Lists the clips again for the current search text, keeps the
    /// selection on the list, and scrolls the details back to the top.
    pub fn reload_clips(&mut self) -> (r: Result<(), DbError>)
        requires
            old(self).db@.whole,
        ensures
            final(self).db@ == old(self).db@,
            final(self).same_ui(&*old(self)),
            final(self).tags_summary == old(self).tags_summary,
            r is Ok ==> {
                &&& shown_clips(final(self).db@, final(self).search_query@, final(self).clips.deep_view())
                &&& final(self).selected_index == kept_selection(
                    old(self).selected_index,
                    final(self).clips.len() as int,
                )
                &&& final(self).detail_scroll == 0
                &&& final(self).selection_ok()
            },
            r is Err ==> final(self).clips.deep_view() == old(self).clips.deep_view()
                && final(self).selected_index == old(self).selected_index
                && final(self).detail_scroll == old(self).detail_scroll,
            r matches Err(e) ==> e is Sqlite || e is InvalidRow,
    {
        let filter = ClipFilter {
            query: if self.search_query.as_str().is_empty() {
                None
            } else {
                Some(self.search_query.clone())
            },
            tag: None,
            from_date: None,
            to_date: None,
            limit: None,
            offset: None,
        };
        assert(filter@ == search_filter_of(self.search_query@));
        let clips = match self.db.list_clips(&filter) {
            Ok(clips) => clips,
            Err(e) => return Err(e),
        };
        self.clips = clips;
        if self.clips.len() == 0 {
            self.selected_index = 0;
        } else if self.selected_index >= self.clips.len() {
            self.selected_index = self.clips.len() - 1;
        }
        self.detail_scroll = 0;
        Ok(())
    }

    /// Counts the tags again.
    pub fn reload_tags(&mut self) -> (r: Result<(), DbError>)
        requires
            old(self).db@.whole,
        ensures
            final(self).db@ == old(self).db@,
            final(self).same_ui(&*old(self)),
            final(self).clips.deep_view() == old(self).clips.deep_view(),
            final(self).selected_index == old(self).selected_index,
            final(self).detail_scroll == old(self).detail_scroll,
            r is Ok ==> tag_counts(final(self).db@.tags, final(self).tags_summary.deep_view()),
            r matches Err(e) ==> e is Sqlite || (e is InvalidRow && tag_count_too_large(
                old(self).db@.tags,
            )),
    {
        let tags = match self.db.list_tags() {
            Ok(tags) => tags,
            Err(e) => return Err(e),
        };
        self.tags_summary = tags;
        Ok(())
    }

    /// The selected clip, if the selection points at one.
    pub fn selected_clip(&self) -> (r: Option<&Clip>)
        ensures
            match r {
                Some(c) => self.selected_index < self.clips.len() && *c == self.clips@[self.selected_index as int],
                None => self.selected_index >= self.clips.len(),
            },
    {
        if self.selected_index < self.clips.len() {
            Some(&self.clips[self.selected_index])
        } else {
            None
        }
    }

    /// Shows a message, telling whether it reports an error.
    pub fn set_status(&mut self, msg: String, is_error: bool)
        ensures
            final(self).status_message matches Some((m, e)) && m@ == msg@ && e == is_error,
            final(self).same_except_status(&*old(self)),
    {
        self.status_message = Some((msg, is_error));
    }

    /// Clears the message.
    pub fn clear_status(&mut self)
        ensures
            final(self).status_message is None,
            final(self).same_except_status(&*old(self)),
    {
        self.status_message = None;
    }

    /// Selects the next clip, from the last back to the first, and scrolls
    /// the details to the top; nothing happens on an empty list.
    pub fn next_clip(&mut self)
        ensures
            old(self).clips.len() > 0 ==> final(self).selected_index == next_index(
                old(self).selected_index,
                old(self).clips.len() as int,
            ) && final(self).detail_scroll == 0,
            old(self).clips.len() == 0 ==> final(self).selected_index == old(self).selected_index
                && final(self).detail_scroll == old(self).detail_scroll,
            final(self).clips == old(self).clips,
            final(self).mode == old(self).mode,
            final(self).db@ == old(self).db@,
            final(self).same_ui(&*old(self)),
            final(self).tags_summary == old(self).tags_summary,
    {
        if self.clips.len() > 0 {
            if self.selected_index < self.clips.len() - 1 {
                self.selected_index = self.selected_index + 1;
                proof {
                    vstd::arithmetic::div_mod::lemma_small_mod(
                        self.selected_index as nat,
                        self.clips.len() as nat,
                    );
                }
            } else {
                self.selected_index = (self.selected_index % self.clips.len() + 1) % self.clips.len();
                proof {
                    let n = old(self).clips.len() as int;
                    let s = old(self).selected_index as int;
                    vstd::arithmetic::div_mod::lemma_fundamental_div_mod(s, n);
                    vstd::arithmetic::div_mod::lemma_mod_multiples_vanish(s / n, s % n + 1, n);
                    assert(s + 1 == n * (s / n) + (s % n + 1));
                }
            }
            self.detail_scroll = 0;
        }
    }

    /// Selects the previous clip, from the first back to the last, and
    /// scrolls the details to the top; nothing happens on an empty list.
    pub fn previous_clip(&mut self)
        ensures
            old(self).clips.len() > 0 ==> final(self).selected_index == previous_index(
                old(self).selected_index,
                old(self).clips.len() as int,
            ) && final(self).detail_scroll == 0,
            old(self).clips.len() == 0 ==> final(self).selected_index == old(self).selected_index
                && final(self).detail_scroll == old(self).detail_scroll,
            final(self).clips == old(self).clips,
            final(self).mode == old(self).mode,
            final(self).db@ == old(self).db@,
            final(self).same_ui(&*old(self)),
            final(self).tags_summary == old(self).tags_summary,
    {
        if self.clips.len() > 0 {
            if self.selected_index == 0 {
                self.selected_index = self.clips.len() - 1;
            } else {
                self.selected_index = self.selected_index - 1;
            }
            self.detail_scroll = 0;
        }
    }

    /// Scrolls the details two lines down (stopping at the largest offset).
    pub fn scroll_detail_down(&mut self)
        ensures
            final(self).detail_scroll == (if old(self).detail_scroll as int + 2 > u16::MAX {
                u16::MAX
            } else {
                (old(self).detail_scroll + 2) as u16
            }),
            final(self).selected_index == old(self).selected_index,
            final(self).mode == old(self).mode,
            final(self).db@ == old(self).db@,
            final(self).clips == old(self).clips,
            final(self).same_ui(&*old(self)),
            final(self).tags_summary == old(self).tags_summary,
    {
        self.detail_scroll = self.detail_scroll.saturating_add(2);
    }

    /// Scrolls the details two lines up (stopping at the top).
    pub fn scroll_detail_up(&mut self)
        ensures
            final(self).detail_scroll == (if old(self).detail_scroll < 2 {
                0
            } else {
                (old(self).detail_scroll - 2) as u16
            }),
            final(self).selected_index == old(self).selected_index,
            final(self).mode == old(self).mode,
            final(self).db@ == old(self).db@,
            final(self).clips == old(self).clips,
            final(self).same_ui(&*old(self)),
            final(self).tags_summary == old(self).tags_summary,
    {
        self.detail_scroll = self.detail_scroll.saturating_sub(2);
    }
}

} // verus!
