//! What a key does to a session. The caller reads the key, hands it over
//! and does what the outcome asks for; the session decides everything else.

use vstd::prelude::*;
use crate::app::{
    assignee_filter_toggled,
    board_switched,
    navigated,
    selected_item_url,
    selection_clamped,
    shown_positions,
    type_highlight_moved,
    type_menu_toggled,
    type_toggled,
    with_selection,
    with_type_picker,
    App,
    AppStateView,
    AppView,
    Key,
    ListViewStateView,
    LoadingState,
    LoadingStateView,
};
use crate::detail::{
    detail_opened,
    edit_begun,
    edit_cancelled,
    save_request,
    save_started,
    with_detail,
    UpdateRequest,
    UpdateRequestView,
};
use crate::edit::{
    clamped_cursor,
    confirmed,
    erased,
    field_wiped,
    next_cursor,
    previous_cursor,
    typed,
    EditSessionView,
};
use crate::metadata::{MetadataView, RefreshPolicy};
use crate::models::DetailField;
use crate::picker::{cleared, PickerView};
use crate::save::DetailViewStateView;

verus! {

/// What the caller has to do after a key.
#[derive(Debug, PartialEq, Eq)]
pub enum KeyOutcome {
    /// Nothing; go on with the next key.
    Continue,
    /// End the session.
    Quit,
    /// Load the active source.
    Reload,
    /// Open this address in the browser.
    OpenItem(String),
    /// Open the configuration file in the editor and end the session.
    EditConfig,
    /// Send this save and hand its outcome to the session when it comes.
    Save(UpdateRequest),
}

/// The mathematical value of a [`KeyOutcome`].
pub enum KeyOutcomeView {
    Continue,
    Quit,
    Reload,
    OpenItem(Seq<char>),
    EditConfig,
    Save(UpdateRequestView),
}

impl View for KeyOutcome {
    type V = KeyOutcomeView;

    open spec fn view(&self) -> KeyOutcomeView {
        match self {
            KeyOutcome::Continue => KeyOutcomeView::Continue,
            KeyOutcome::Quit => KeyOutcomeView::Quit,
            KeyOutcome::Reload => KeyOutcomeView::Reload,
            KeyOutcome::OpenItem(url) => KeyOutcomeView::OpenItem(url@),
            KeyOutcome::EditConfig => KeyOutcomeView::EditConfig,
            KeyOutcome::Save(request) => KeyOutcomeView::Save(request@),
        }
    }
}

/// Whether a character is an ASCII character.
pub open spec fn is_ascii_char(c: char) -> bool {
    c <= '\u{7f}'
}

/// Whether a typed character completes a binding. A binding of one ASCII
/// character is matched by that character. A binding of two ASCII
/// characters is matched by the second, typed right after the first. No
/// other binding is ever matched.
pub open spec fn sequence_matches(current: char, last: Option<Key>, binding: Seq<char>) -> bool {
    if binding.len() == 2 && is_ascii_char(binding[0]) && is_ascii_char(binding[1]) {
        last == Some(Key::Char(binding[0])) && current == binding[1]
    } else if binding.len() == 1 && is_ascii_char(binding[0]) {
        current == binding[0]
    } else {
        false
    }
}

/// Whether a typed character completes a binding.
pub fn key_matches_sequence(current_key: char, last_key: Option<Key>, target_sequence: &str) -> (r:
    bool)
    ensures
        r == sequence_matches(current_key, last_key, target_sequence@),
{
    let length = target_sequence.unicode_len();
    if length == 2 {
        let first = target_sequence.get_char(0);
        let second = target_sequence.get_char(1);
        if first <= '\u{7f}' && second <= '\u{7f}' {
            let after_first = match last_key {
                Some(Key::Char(c)) => c == first,
                _ => false,
            };
            return after_first && current_key == second;
        }
        return false;
    }
    if length == 1 {
        let only = target_sequence.get_char(0);
        return only <= '\u{7f}' && current_key == only;
    }
    false
}

/// A session and what the caller has to do.
pub struct Handled {
    pub state: AppStateView,
    pub outcome: KeyOutcomeView,
}

/// The session goes on as `state`.
pub open spec fn going_on(state: AppStateView) -> Handled {
    Handled { state, outcome: KeyOutcomeView::Continue }
}

/// The session without the hover.
pub open spec fn hover_hidden(s: AppStateView) -> AppStateView {
    AppStateView { list: ListViewStateView { is_list_details_hover_visible: false, ..s.list }, ..s }
}

/// The session with another last key.
pub open spec fn with_last_key(s: AppStateView, last_key: Option<Key>) -> AppStateView {
    AppStateView { last_key, ..s }
}

/// The session with another query, the selection brought back among the
/// shown rows.
pub open spec fn with_query(s: AppStateView, query: Seq<char>) -> AppStateView {
    selection_clamped(AppStateView { list: ListViewStateView { filter_query: query, ..s.list }, ..s })
}

/// The session with the type filter closed.
pub open spec fn type_menu_closed(s: AppStateView) -> AppStateView {
    with_type_picker(s, PickerView { is_open: false, selected: None, ..s.list.type_picker })
}

/// A key while the items are not there: `q` and Esc end the session.
pub open spec fn waiting_key(s: AppStateView, key: Key) -> Handled {
    Handled {
        state: s,
        outcome: if key == Key::Char('q') || key == Key::Esc {
            KeyOutcomeView::Quit
        } else {
            KeyOutcomeView::Continue
        },
    }
}

/// A key while the query is being typed. Enter keeps the query, Esc drops
/// it; both end the typing. Backspace takes the last character away; any
/// character but `/` joins the query.
pub open spec fn filtering_key(s: AppStateView, key: Key) -> Handled {
    let done = AppStateView { list: ListViewStateView { is_filtering: false, ..s.list }, ..s };
    match key {
        Key::Enter => going_on(done),
        Key::Esc => going_on(with_query(done, Seq::empty())),
        Key::Backspace => going_on(
            with_query(
                s,
                if s.list.filter_query.len() > 0 {
                    s.list.filter_query.drop_last()
                } else {
                    s.list.filter_query
                },
            ),
        ),
        Key::Char(c) => if c != '/' {
            going_on(with_query(s, s.list.filter_query.push(c)))
        } else {
            going_on(s)
        },
        _ => going_on(s),
    }
}

/// A key while the type filter is open. Esc closes it; `c` empties and
/// closes it; Enter and the blank toggle the highlighted type; the arrows
/// and the bindings for next and previous move the highlight; the binding
/// for quit closes it.
pub open spec fn type_menu_key(s: AppStateView, key: Key) -> Handled {
    match key {
        Key::Esc => going_on(type_menu_closed(s)),
        Key::Enter => going_on(type_toggled(s)),
        Key::Up => going_on(type_highlight_moved(s, -1)),
        Key::Down => going_on(type_highlight_moved(s, 1)),
        Key::Char(c) => if c == 'c' {
            going_on(
                type_menu_closed(
                    selection_clamped(with_type_picker(s, cleared(s.list.type_picker))),
                ),
            )
        } else if c == ' ' {
            going_on(type_toggled(s))
        } else if sequence_matches(c, s.last_key, s.keys.quit) {
            going_on(with_last_key(type_menu_closed(s), None))
        } else if sequence_matches(c, s.last_key, s.keys.next) {
            going_on(with_last_key(type_highlight_moved(s, 1), Some(key)))
        } else if sequence_matches(c, s.last_key, s.keys.previous) {
            going_on(with_last_key(type_highlight_moved(s, -1), Some(key)))
        } else {
            going_on(with_last_key(s, None))
        },
        _ => going_on(s),
    }
}

/// The session after a refresh was asked for: the next load is a full one.
pub open spec fn refresh_requested(s: AppStateView) -> AppStateView {
    AppStateView {
        metadata: MetadataView { policy: RefreshPolicy::Full, ..s.metadata },
        loading: LoadingStateView::Loading,
        ..s
    }
}

/// The session after the search was opened: the query is empty and being
/// typed.
pub open spec fn search_opened(s: AppStateView) -> AppStateView {
    let hidden = hover_hidden(s);
    selection_clamped(
        AppStateView {
            list: ListViewStateView { is_filtering: true, filter_query: Seq::empty(), ..hidden.list },
            ..hidden
        },
    )
}

/// A character in the list view: the first binding that it completes, in
/// the order of this function, decides. Bindings that leave the list (quit,
/// the two switches of source, refresh, the configuration) do not count as
/// the last key; everything else does.
pub open spec fn list_char(s: AppStateView, c: char) -> Handled {
    let key = Key::Char(c);
    if sequence_matches(c, s.last_key, s.keys.jump_to_top) {
        let hidden = hover_hidden(s);
        going_on(
            with_last_key(
                if shown_positions(hidden).len() > 0 {
                    with_selection(hidden, Some(0usize))
                } else {
                    hidden
                },
                Some(key),
            ),
        )
    } else if sequence_matches(c, s.last_key, s.keys.jump_to_end) {
        let hidden = hover_hidden(s);
        going_on(
            with_last_key(
                if shown_positions(hidden).len() > 0 {
                    with_selection(hidden, Some((shown_positions(hidden).len() - 1) as usize))
                } else {
                    hidden
                },
                Some(key),
            ),
        )
    } else if sequence_matches(c, s.last_key, s.keys.quit) {
        Handled { state: s, outcome: KeyOutcomeView::Quit }
    } else if sequence_matches(c, s.last_key, s.keys.search) {
        going_on(with_last_key(search_opened(s), Some(key)))
    } else if sequence_matches(c, s.last_key, s.keys.next) {
        going_on(with_last_key(navigated(hover_hidden(s), 1), Some(key)))
    } else if sequence_matches(c, s.last_key, s.keys.previous) {
        going_on(with_last_key(navigated(hover_hidden(s), -1), Some(key)))
    } else if sequence_matches(c, s.last_key, s.keys.next_board) {
        Handled { state: board_switched(hover_hidden(s), true), outcome: KeyOutcomeView::Reload }
    } else if sequence_matches(c, s.last_key, s.keys.previous_board) {
        Handled { state: board_switched(hover_hidden(s), false), outcome: KeyOutcomeView::Reload }
    } else if sequence_matches(c, s.last_key, s.keys.hover) {
        going_on(
            with_last_key(
                AppStateView {
                    list: ListViewStateView { is_list_details_hover_visible: true, ..s.list },
                    ..s
                },
                Some(key),
            ),
        )
    } else if sequence_matches(c, s.last_key, s.keys.open) {
        Handled {
            state: with_last_key(s, Some(key)),
            outcome: match selected_item_url(s) {
                Some(url) => KeyOutcomeView::OpenItem(url),
                None => KeyOutcomeView::Continue,
            },
        }
    } else if sequence_matches(c, s.last_key, s.keys.assigned_to_me_filter) {
        going_on(with_last_key(assignee_filter_toggled(s), Some(key)))
    } else if sequence_matches(c, s.last_key, s.keys.work_item_type_filter) {
        going_on(with_last_key(type_menu_toggled(s), Some(key)))
    } else if sequence_matches(c, s.last_key, s.keys.refresh) {
        Handled { state: refresh_requested(s), outcome: KeyOutcomeView::Reload }
    } else if sequence_matches(c, s.last_key, s.keys.edit_config) {
        Handled { state: s, outcome: KeyOutcomeView::EditConfig }
    } else {
        going_on(with_last_key(s, Some(key)))
    }
}

/// The session after Esc in the list view: the filter by assignee is
/// switched off, the hover hidden and the query dropped.
pub open spec fn list_escaped(s: AppStateView) -> AppStateView {
    let unassigned = if s.list.assigned_to_me_filter_on {
        assignee_filter_toggled(s)
    } else {
        s
    };
    let hidden = hover_hidden(unassigned);
    if hidden.list.filter_query.len() > 0 {
        with_query(hidden, Seq::empty())
    } else {
        hidden
    }
}

/// A key of the list view that is no character. Enter opens the selected
/// item, Esc drops the filters, the arrows move the selection. None of them
/// counts as the last key.
pub open spec fn list_other(s: AppStateView, key: Key) -> Handled {
    going_on(
        with_last_key(
            match key {
                Key::Enter => detail_opened(s),
                Key::Esc => list_escaped(s),
                Key::Up => navigated(hover_hidden(s), -1),
                Key::Down => navigated(hover_hidden(s), 1),
                _ => s,
            },
            None,
        ),
    )
}

/// Whether the detail view is editing.
pub open spec fn is_editing(s: AppStateView) -> bool {
    s.detail.edit_state is Some && s.detail.edit_state->0.is_editing
}

/// The session after `change` was applied to the edit session, if there is
/// one.
pub open spec fn with_edit(
    s: AppStateView,
    change: spec_fn(EditSessionView) -> EditSessionView,
) -> AppStateView {
    match s.detail.edit_state {
        Some(e) => with_detail(s, DetailViewStateView { edit_state: Some(change(e)), ..s.detail }),
        None => s,
    }
}

/// Whether the field under the cursor of an edit session has a picker.
pub open spec fn cursor_on_picker(e: EditSessionView) -> bool {
    match e.active_field {
        DetailField::Dynamic(i) => i < e.visible_fields.len() && e.visible_fields[i as int].picker
            is Some,
        DetailField::Title => false,
    }
}

/// A character in the detail view. While editing it goes into the field
/// under the cursor, but a blank on a field with a picker confirms the
/// highlighted option. While not editing, the bindings for quit, open and
/// edit apply, each on what the one before left.
pub open spec fn detail_char(s: AppStateView, c: char) -> Handled {
    if is_editing(s) {
        if c == ' ' && cursor_on_picker(s.detail.edit_state->0) {
            going_on(with_last_key(with_edit(s, |e: EditSessionView| confirmed(e)), None))
        } else {
            going_on(with_last_key(with_edit(s, |e: EditSessionView| typed(e, c)), None))
        }
    } else {
        let left = if sequence_matches(c, s.last_key, s.keys.quit) {
            AppStateView { view: AppView::List, ..s }
        } else {
            s
        };
        let outcome = if sequence_matches(c, s.last_key, s.keys.open) {
            match selected_item_url(left) {
                Some(url) => KeyOutcomeView::OpenItem(url),
                None => KeyOutcomeView::Continue,
            }
        } else {
            KeyOutcomeView::Continue
        };
        let edited = if sequence_matches(c, s.last_key, s.keys.edit_item) {
            edit_begun(left)
        } else {
            left
        };
        Handled { state: with_last_key(edited, Some(Key::Char(c))), outcome }
    }
}

/// The edit session after Tab (`forward`) or BackTab.
pub open spec fn cursor_moved(e: EditSessionView, forward: bool) -> EditSessionView {
    EditSessionView {
        active_field: if e.is_editing {
            if forward {
                next_cursor(e.active_field, e.visible_fields.len())
            } else {
                previous_cursor(e.active_field, e.visible_fields.len())
            }
        } else {
            clamped_cursor(e.active_field, e.visible_fields.len())
        },
        ..e
    }
}

/// A key of the detail view that is no character. Esc cancels the edit or
/// leaves the view; Tab and BackTab move the cursor; Enter starts the save;
/// Delete clears the field under the cursor; Backspace takes its last
/// character away.
pub open spec fn detail_other(s: AppStateView, key: Key) -> Handled {
    match key {
        Key::Esc => going_on(edit_cancelled(s)),
        Key::Tab => going_on(with_edit(s, |e: EditSessionView| cursor_moved(e, true))),
        Key::BackTab => going_on(with_edit(s, |e: EditSessionView| cursor_moved(e, false))),
        Key::Enter => Handled {
            state: save_started(s),
            outcome: match save_request(s) {
                Some(request) => KeyOutcomeView::Save(request),
                None => KeyOutcomeView::Continue,
            },
        },
        Key::Delete => going_on(with_edit(s, |e: EditSessionView| field_wiped(e))),
        Key::Backspace => going_on(with_edit(s, |e: EditSessionView| erased(e))),
        _ => going_on(s),
    }
}

/// What a key does to a session, and what the caller has to do.
pub open spec fn handled(s: AppStateView, key: Key) -> Handled {
    if !(s.loading is Loaded) {
        waiting_key(s, key)
    } else if s.list.is_filtering {
        filtering_key(s, key)
    } else if s.list.type_picker.is_open {
        type_menu_key(s, key)
    } else {
        match (s.view, key) {
            (AppView::List, Key::Char(c)) => list_char(s, c),
            (AppView::List, _) => list_other(s, key),
            (AppView::Detail, Key::Char(c)) => detail_char(s, c),
            (AppView::Detail, _) => detail_other(s, key),
        }
    }
}

impl App {
    /// Whether `c` completes `binding` after the last key of the session.
    fn bound(&self, c: char, binding: &String) -> (r: bool)
        ensures
            r == sequence_matches(c, self.last_key_press, binding@),
    {
        key_matches_sequence(c, self.last_key_press, binding.as_str())
    }

    /// Closes the type filter.
    fn close_type_menu(&mut self)
        ensures
            final(self)@ == type_menu_closed(old(self)@),
            final(self).metadata == old(self).metadata,
    {
        self.list_view_state.type_picker.close();
    }

    /// A key while the query is being typed.
    fn handle_filtering(&mut self, key: Key)
        ensures
            final(self)@ == filtering_key(old(self)@, key).state,
            final(self).metadata == old(self).metadata,
    {
        match key {
            Key::Enter => {
                self.list_view_state.is_filtering = false;
            },
            Key::Esc => {
                self.list_view_state.is_filtering = false;
                self.list_view_state.filter_query.clear();
                self.clamp_selection();
            },
            Key::Backspace => {
                self.list_view_state.filter_query.pop();
                self.clamp_selection();
            },
            Key::Char(c) => {
                if c != '/' {
                    self.list_view_state.filter_query.push(c);
                    self.clamp_selection();
                }
            },
            _ => {},
        }
    }

    /// A key while the type filter is open.
    fn handle_type_menu(&mut self, key: Key)
        ensures
            final(self)@ == type_menu_key(old(self)@, key).state,
            final(self).metadata == old(self).metadata,
    {
        match key {
            Key::Esc => {
                self.close_type_menu();
            },
            Key::Enter => {
                self.toggle_type_selection();
            },
            Key::Up => {
                self.move_type_selection(-1);
            },
            Key::Down => {
                self.move_type_selection(1);
            },
            Key::Char(c) => {
                if c == 'c' {
                    self.clear_type_filters();
                    self.close_type_menu();
                } else if c == ' ' {
                    self.toggle_type_selection();
                } else if self.bound(c, &self.keys.quit) {
                    self.close_type_menu();
                    self.last_key_press = None;
                } else if self.bound(c, &self.keys.next) {
                    self.move_type_selection(1);
                    self.last_key_press = Some(key);
                } else if self.bound(c, &self.keys.previous) {
                    self.move_type_selection(-1);
                    self.last_key_press = Some(key);
                } else {
                    self.last_key_press = None;
                }
            },
            _ => {},
        }
    }

    /// A character in the list view.
    fn handle_list_char(&mut self, c: char) -> (outcome: KeyOutcome)
        requires
            old(self).wf(),
        ensures
            final(self).wf(),
            final(self)@ == list_char(old(self)@, c).state,
            outcome@ == list_char(old(self)@, c).outcome,
    {
        let key = Key::Char(c);
        if self.bound(c, &self.keys.jump_to_top) {
            self.list_view_state.is_list_details_hover_visible = false;
            self.jump_to_start();
        } else if self.bound(c, &self.keys.jump_to_end) {
            self.list_view_state.is_list_details_hover_visible = false;
            self.jump_to_end();
        } else if self.bound(c, &self.keys.quit) {
            return KeyOutcome::Quit;
        } else if self.bound(c, &self.keys.search) {
            self.list_view_state.is_list_details_hover_visible = false;
            self.list_view_state.is_filtering = true;
            self.list_view_state.filter_query.clear();
            self.clamp_selection();
        } else if self.bound(c, &self.keys.next) {
            self.list_view_state.is_list_details_hover_visible = false;
            self.navigate_list(1);
        } else if self.bound(c, &self.keys.previous) {
            self.list_view_state.is_list_details_hover_visible = false;
            self.navigate_list(-1);
        } else if self.bound(c, &self.keys.next_board) {
            self.list_view_state.is_list_details_hover_visible = false;
            self.next_board();
            return KeyOutcome::Reload;
        } else if self.bound(c, &self.keys.previous_board) {
            self.list_view_state.is_list_details_hover_visible = false;
            self.previous_board();
            return KeyOutcome::Reload;
        } else if self.bound(c, &self.keys.hover) {
            self.list_view_state.is_list_details_hover_visible = true;
        } else if self.bound(c, &self.keys.open) {
            let url = self.item_url();
            self.last_key_press = Some(key);
            return match url {
                Some(address) => KeyOutcome::OpenItem(address),
                None => KeyOutcome::Continue,
            };
        } else if self.bound(c, &self.keys.assigned_to_me_filter) {
            self.toggle_assigned_to_me_filter();
        } else if self.bound(c, &self.keys.work_item_type_filter) {
            self.toggle_type_filter_menu();
        } else if self.bound(c, &self.keys.refresh) {
            self.metadata.set_policy(RefreshPolicy::Full);
            self.loading_state = LoadingState::Loading;
            return KeyOutcome::Reload;
        } else if self.bound(c, &self.keys.edit_config) {
            return KeyOutcome::EditConfig;
        }
        self.last_key_press = Some(key);
        KeyOutcome::Continue
    }

    /// Esc in the list view.
    fn escape_list(&mut self)
        ensures
            final(self)@ == list_escaped(old(self)@),
            final(self).metadata == old(self).metadata,
    {
        if self.list_view_state.assigned_to_me_filter_on {
            self.toggle_assigned_to_me_filter();
        }
        self.list_view_state.is_list_details_hover_visible = false;
        if !self.list_view_state.filter_query.as_str().is_empty() {
            self.list_view_state.filter_query.clear();
            self.clamp_selection();
        }
    }

    /// A key of the list view that is no character.
    fn handle_list_other(&mut self, key: Key)
        requires
            old(self).wf(),
        ensures
            final(self).wf(),
            final(self)@ == list_other(old(self)@, key).state,
    {
        match key {
            Key::Enter => {
                self.open_detail();
            },
            Key::Esc => {
                self.escape_list();
            },
            Key::Up => {
                self.list_view_state.is_list_details_hover_visible = false;
                self.navigate_list(-1);
            },
            Key::Down => {
                self.list_view_state.is_list_details_hover_visible = false;
                self.navigate_list(1);
            },
            _ => {},
        }
        self.last_key_press = None;
    }

    /// A character in the detail view.
    fn handle_detail_char(&mut self, c: char) -> (outcome: KeyOutcome)
        requires
            old(self).wf(),
        ensures
            final(self).wf(),
            final(self)@ == detail_char(old(self)@, c).state,
            outcome@ == detail_char(old(self)@, c).outcome,
    {
        match &mut self.detail_view_state.edit_state {
            Some(state) => {
                if state.is_editing {
                    if c == ' ' && state.active_field_has_picker() {
                        state.confirm_picker();
                    } else {
                        state.type_char(c);
                    }
                    self.last_key_press = None;
                    return KeyOutcome::Continue;
                }
            },
            None => {},
        }
        let quits = self.bound(c, &self.keys.quit);
        let opens = self.bound(c, &self.keys.open);
        let edits = self.bound(c, &self.keys.edit_item);
        if quits {
            self.view = AppView::List;
        }
        let outcome = if opens {
            match self.item_url() {
                Some(address) => KeyOutcome::OpenItem(address),
                None => KeyOutcome::Continue,
            }
        } else {
            KeyOutcome::Continue
        };
        if edits {
            self.begin_edit();
        }
        self.last_key_press = Some(Key::Char(c));
        outcome
    }

    /// A key of the detail view that is no character.
    fn handle_detail_other(&mut self, key: Key) -> (outcome: KeyOutcome)
        requires
            old(self).wf(),
        ensures
            final(self).wf(),
            final(self)@ == detail_other(old(self)@, key).state,
            outcome@ == detail_other(old(self)@, key).outcome,
    {
        match key {
            Key::Esc => {
                self.cancel_edit();
            },
            Key::Tab => {
                match &mut self.detail_view_state.edit_state {
                    Some(state) => {
                        state.next_field();
                    },
                    None => {},
                }
            },
            Key::BackTab => {
                match &mut self.detail_view_state.edit_state {
                    Some(state) => {
                        state.previous_field();
                    },
                    None => {},
                }
            },
            Key::Enter => {
                return match self.start_save() {
                    Some(request) => KeyOutcome::Save(request),
                    None => KeyOutcome::Continue,
                };
            },
            Key::Delete => {
                match &mut self.detail_view_state.edit_state {
                    Some(state) => {
                        state.clear_field();
                    },
                    None => {},
                }
            },
            Key::Backspace => {
                match &mut self.detail_view_state.edit_state {
                    Some(state) => {
                        state.backspace();
                    },
                    None => {},
                }
            },
            _ => {},
        }
        KeyOutcome::Continue
    }

    /// Takes a key and says what the caller has to do.
    pub fn handle_key(&mut self, key: Key) -> (outcome: KeyOutcome)
        requires
            old(self).wf(),
        ensures
            final(self).wf(),
            final(self)@ == handled(old(self)@, key).state,
            outcome@ == handled(old(self)@, key).outcome,
    {
        match self.loading_state {
            LoadingState::Loaded => {},
            _ => {
                return match key {
                    Key::Char(c) => if c == 'q' {
                        KeyOutcome::Quit
                    } else {
                        KeyOutcome::Continue
                    },
                    Key::Esc => KeyOutcome::Quit,
                    _ => KeyOutcome::Continue,
                };
            },
        }
        if self.list_view_state.is_filtering {
            self.handle_filtering(key);
            return KeyOutcome::Continue;
        }
        if self.list_view_state.type_picker.is_open {
            self.handle_type_menu(key);
            return KeyOutcome::Continue;
        }
        match self.view {
            AppView::List => match key {
                Key::Char(c) => self.handle_list_char(c),
                _ => {
                    self.handle_list_other(key);
                    KeyOutcome::Continue
                },
            },
            AppView::Detail => match key {
                Key::Char(c) => self.handle_detail_char(c),
                _ => self.handle_detail_other(key),
            },
        }
    }
}

} // verus!
