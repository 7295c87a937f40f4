//! The state of one session: the loaded items, the active source, the
//! filters of the list view, the edit session of the detail view and what
//! is kept in memory between loads.

use vstd::prelude::*;
use crate::config::{AppConfig, AppConfigView, KeysConfig, KeysConfigView};

use crate::metadata::{MetadataCache, MetadataView, RefreshPolicy};
use crate::models::{WorkItem, WorkItemView};
use crate::picker::{cleared, moved, toggled_at_highlight, PickerState, PickerView};
use crate::save::{DetailViewState, DetailViewStateView, SaveStatusView};
use crate::source::{build_sources, sources_of, Source, SourceView};
use crate::sorted::{insert_ascending, strictly_ascending};
use crate::text::{
    decimal_text,
    lowercase_of,
    number_text,
    occurs_in,
    text_contains,
    text_lowercase,
    text_set,
};

verus! {

/// Which of the two views is shown.
#[derive(Clone, Copy, Debug, PartialEq, Eq, Structural)]
pub enum AppView {
    List,
    Detail,
}

/// Whether the items of the active source are there.
#[derive(Debug, PartialEq, Eq)]
pub enum LoadingState {
    Loading,
    Loaded,
    Error(String),
}

/// The mathematical value of a [`LoadingState`].
pub enum LoadingStateView {
    Loading,
    Loaded,
    Error(Seq<char>),
}

impl View for LoadingState {
    type V = LoadingStateView;

    open spec fn view(&self) -> LoadingStateView {
        match self {
            LoadingState::Loading => LoadingStateView::Loading,
            LoadingState::Loaded => LoadingStateView::Loaded,
            LoadingState::Error(message) => LoadingStateView::Error(message@),
        }
    }
}

/// A key as the session sees it.
#[derive(Clone, Copy, Debug, PartialEq, Eq, Structural)]
pub enum Key {
    Char(char),
    Enter,
    Esc,
    Backspace,
    Delete,
    Tab,
    BackTab,
    Up,
    Down,
    Other,
}

/// The state of the list widget: the selected row and the first row shown.
#[derive(Clone, Copy, Debug, PartialEq, Eq, Structural)]
pub struct ListState {
    pub selected: Option<usize>,
    pub offset: usize,
}

impl Default for ListState {
    fn default() -> (state: Self)
        ensures
            state == (ListState { selected: None, offset: 0 }),
    {
        ListState { selected: None, offset: 0 }
    }
}

impl ListState {
    /// Selects a row, or none.
    pub fn select(&mut self, index: Option<usize>)
        ensures
            *final(self) == (ListState { selected: index, ..*old(self) }),
    {
        self.selected = index;
    }

    /// The selected row.
    pub fn selected(&self) -> (index: Option<usize>)
        ensures
            index == self.selected,
    {
        self.selected
    }

    /// The first row shown.
    pub fn offset(&self) -> (offset: usize)
        ensures
            offset == self.offset,
    {
        self.offset
    }
}

/// The state of the list view.
#[derive(Debug)]
pub struct ListViewState {
    pub list_state: ListState,
    pub filter_query: String,
    pub is_filtering: bool,
    pub is_list_details_hover_visible: bool,
    pub assigned_to_me_filter_on: bool,
    /// The filter by work-item type: its options are the types of the
    /// loaded items, its active values the types that are shown.
    pub type_picker: PickerState,
}

/// The mathematical value of a [`ListViewState`].
pub struct ListViewStateView {
    pub list_state: ListState,
    pub filter_query: Seq<char>,
    pub is_filtering: bool,
    pub is_list_details_hover_visible: bool,
    pub assigned_to_me_filter_on: bool,
    pub type_picker: PickerView,
}

impl View for ListViewState {
    type V = ListViewStateView;

    open spec fn view(&self) -> ListViewStateView {
        ListViewStateView {
            list_state: self.list_state,
            filter_query: self.filter_query@,
            is_filtering: self.is_filtering,
            is_list_details_hover_visible: self.is_list_details_hover_visible,
            assigned_to_me_filter_on: self.assigned_to_me_filter_on,
            type_picker: self.type_picker@,
        }
    }
}

/// The list view as it starts: no filter, nothing open.
pub open spec fn fresh_list_view(list_state: ListState) -> ListViewStateView {
    ListViewStateView {
        list_state,
        filter_query: Seq::empty(),
        is_filtering: false,
        is_list_details_hover_visible: false,
        assigned_to_me_filter_on: false,
        type_picker: PickerView {
            options: Seq::empty(),
            selected: None,
            active: Set::empty(),
            is_open: false,
        },
    }
}

impl ListViewState {
    /// The list view as it starts: no filter, nothing open.
    pub fn new(list_state: ListState) -> (state: Self)
        ensures
            state@ == fresh_list_view(list_state),
    {
        let options: Vec<String> = Vec::new();
        assert(options.deep_view() =~= Seq::<Seq<char>>::empty());
        assert(crate::text::distinct_texts(options.deep_view()) =~= Seq::<Seq<char>>::empty());
        ListViewState {
            list_state,
            filter_query: String::new(),
            is_filtering: false,
            is_list_details_hover_visible: false,
            assigned_to_me_filter_on: false,
            type_picker: PickerState::new(options),
        }
    }
}

impl Default for ListViewState {
    fn default() -> (state: Self)
        ensures
            state@ == fresh_list_view(ListState { selected: None, offset: 0 }),
    {
        ListViewState::new(ListState::default())
    }
}

/// The state of one session.
pub struct App {
    pub view: AppView,
    pub items: Vec<WorkItem>,
    pub list_view_state: ListViewState,
    pub detail_view_state: DetailViewState,
    pub loading_state: LoadingState,
    pub all_boards: Vec<Source>,
    pub current_board_index: usize,
    pub me: String,
    pub keys: KeysConfig,
    pub last_key_press: Option<Key>,
    pub metadata: MetadataCache,
}

/// The mathematical value of an [`App`].
pub struct AppStateView {
    pub view: AppView,
    pub items: Seq<WorkItemView>,
    pub list: ListViewStateView,
    pub detail: DetailViewStateView,
    pub loading: LoadingStateView,
    pub sources: Seq<SourceView>,
    pub current: usize,
    pub me: Seq<char>,
    pub keys: KeysConfigView,
    pub last_key: Option<Key>,
    pub metadata: MetadataView,
}

impl View for App {
    type V = AppStateView;

    open spec fn view(&self) -> AppStateView {
        AppStateView {
            view: self.view,
            items: self.items.deep_view(),
            list: self.list_view_state@,
            detail: self.detail_view_state@,
            loading: self.loading_state@,
            sources: self.all_boards.deep_view(),
            current: self.current_board_index,
            me: self.me@,
            keys: self.keys@,
            last_key: self.last_key_press,
            metadata: self.metadata@,
        }
    }
}

/// Whether an item passes the filters of the list view: the user's name
/// occurs in its assignee where that filter is on; its type is active where
/// any type is; and the query, in lower case, occurs in its id or in its
/// title in lower case where there is a query.
pub open spec fn passes(s: AppStateView, item: WorkItemView) -> bool {
    &&& s.list.assigned_to_me_filter_on ==> occurs_in(s.me, item.assigned_to)
    &&& s.list.type_picker.active != Set::<Seq<char>>::empty()
        ==> s.list.type_picker.active.contains(item.work_item_type)
    &&& s.list.filter_query.len() > 0 ==> (occurs_in(
        lowercase_of(s.list.filter_query),
        decimal_text(item.id as nat),
    ) || occurs_in(lowercase_of(s.list.filter_query), lowercase_of(item.title)))
}

/// The positions of the items that `keep` holds of, in order.
pub open spec fn matching_positions(
    items: Seq<WorkItemView>,
    keep: spec_fn(WorkItemView) -> bool,
) -> Seq<usize>
    decreases items.len(),
{
    if items.len() == 0 {
        Seq::empty()
    } else {
        let before = matching_positions(items.drop_last(), keep);
        if keep(items.last()) {
            before.push((items.len() - 1) as usize)
        } else {
            before
        }
    }
}

/// The positions of the items that the list view shows, in order.
pub open spec fn shown_positions(s: AppStateView) -> Seq<usize> {
    matching_positions(s.items, |item: WorkItemView| passes(s, item))
}

/// Every position that `matching_positions` yields is one of the items.
pub proof fn lemma_positions_in_range(
    items: Seq<WorkItemView>,
    keep: spec_fn(WorkItemView) -> bool,
)
    requires
        items.len() <= usize::MAX,
    ensures
        matching_positions(items, keep).len() <= items.len(),
        forall|k: int|
            0 <= k < matching_positions(items, keep).len() ==> (#[trigger] matching_positions(
                items,
                keep,
            )[k]) < items.len() && keep(items[matching_positions(items, keep)[k] as int]),
    decreases items.len(),
{
    if items.len() > 0 {
        let rest = items.drop_last();
        lemma_positions_in_range(rest, keep);
        let all = matching_positions(items, keep);
        let before = matching_positions(rest, keep);
        assert forall|k: int| 0 <= k < all.len() implies (#[trigger] all[k]) < items.len() && keep(
            items[all[k] as int],
        ) by {
            if k < before.len() {
                assert(all[k] == before[k]);
                assert(rest[before[k] as int] == items[before[k] as int]);
            }
        }
    }
}

/// The selection brought into the `count` rows that are shown: none where
/// nothing is shown; the first row where none was selected; the last row
/// where the selection stood behind it.
pub open spec fn clamped_selection(selected: Option<usize>, count: nat) -> Option<usize> {
    if count == 0 {
        None
    } else {
        match selected {
            Some(i) => if i >= count {
                Some((count - 1) as usize)
            } else {
                Some(i)
            },
            None => Some(0usize),
        }
    }
}

/// The session with another selection in the list.
pub open spec fn with_selection(s: AppStateView, selected: Option<usize>) -> AppStateView {
    AppStateView {
        list: ListViewStateView { list_state: ListState { selected, ..s.list.list_state }, ..s.list },
        ..s
    }
}

/// The session after its selection was brought back among the shown rows.
pub open spec fn selection_clamped(s: AppStateView) -> AppStateView {
    with_selection(s, clamped_selection(s.list.list_state.selected, shown_positions(s).len()))
}

/// The session after a move of the selection by `direction` rows; nothing
/// changes where no row is shown.
pub open spec fn navigated(s: AppStateView, direction: int) -> AppStateView {
    if shown_positions(s).len() == 0 {
        s
    } else {
        with_selection(s, moved(s.list.list_state.selected, direction, shown_positions(s).len()))
    }
}

/// The position of the selected item among all items.
pub open spec fn selected_position(s: AppStateView) -> Option<usize> {
    match s.list.list_state.selected {
        Some(i) => if i < shown_positions(s).len() {
            Some(shown_positions(s)[i as int])
        } else {
            None
        },
        None => None,
    }
}

/// Whether a query, given in lower case, matches an item: it occurs in the
/// digits of the item's id or in the item's title, given in lower case.
pub fn query_matches(lowered_query: &str, id: u32, lowered_title: &str) -> (r: bool)
    ensures
        r == (occurs_in(lowered_query@, decimal_text(id as nat)) || occurs_in(
            lowered_query@,
            lowered_title@,
        )),
{
    let id_text = number_text(id);
    text_contains(id_text.as_str(), lowered_query) || text_contains(lowered_title, lowered_query)
}

impl App {
    /// What the session needs of its parts.
    pub open spec fn wf(&self) -> bool {
        self.metadata.wf()
    }

    /// Whether `item` passes the filters, given the query in lower case.
    fn item_passes(&self, item: &WorkItem, query: &str) -> (r: bool)
        requires
            query@ == lowercase_of(self@.list.filter_query),
        ensures
            r == passes(self@, item@),
    {
        if self.list_view_state.assigned_to_me_filter_on {
            if !text_contains(item.assigned_to.as_str(), self.me.as_str()) {
                return false;
            }
        }
        if !self.list_view_state.type_picker.has_no_active()
            && !self.list_view_state.type_picker.is_active(item.work_item_type.as_str()) {
            return false;
        }
        if !self.list_view_state.filter_query.as_str().is_empty() {
            let title = text_lowercase(item.title.as_str());
            return query_matches(query, item.id, title.as_str());
        }
        true
    }

    /// The positions of the items that the list view shows, in order.
    pub fn filtered_indices(&self) -> (positions: Vec<usize>)
        ensures
            positions@ == shown_positions(self@),
    {
        let ghost all = self.items.deep_view();
        let ghost keep = |item: WorkItemView| passes(self@, item);
        let query = text_lowercase(self.list_view_state.filter_query.as_str());
        let mut positions: Vec<usize> = Vec::new();
        let mut i: usize = 0;
        assert(all.take(0) =~= Seq::<WorkItemView>::empty());
        while i < self.items.len()
            invariant
                i <= self.items@.len(),
                all == self.items.deep_view(),
                keep == |item: WorkItemView| passes(self@, item),
                query@ == lowercase_of(self@.list.filter_query),
                positions@ == matching_positions(all.take(i as int), keep),
            decreases self.items@.len() - i,
        {
            assert(all.take(i as int + 1).drop_last() =~= all.take(i as int));
            assert(all.take(i as int + 1).last() == self.items@[i as int]@);
            if self.item_passes(&self.items[i], query.as_str()) {
                positions.push(i);
            }
            i += 1;
        }
        assert(all.take(i as int) =~= all);
        positions
    }

    /// The items that the list view shows, in order.
    pub fn get_filtered_items(&self) -> (shown: Vec<&WorkItem>)
        ensures
            shown@.len() == shown_positions(self@).len(),
            forall|k: int|
                0 <= k < shown@.len() ==> shown_positions(self@)[k] < self.items@.len()
                    && *(#[trigger] shown@[k]) == self.items@[shown_positions(self@)[k] as int],
    {
        let positions = self.filtered_indices();
        let total = self.items.len();
        proof {
            assert(self.items.deep_view().len() == total);
            lemma_positions_in_range(
                self.items.deep_view(),
                |item: WorkItemView| passes(self@, item),
            );
        }
        let mut shown: Vec<&WorkItem> = Vec::new();
        let mut k: usize = 0;
        while k < positions.len()
            invariant
                k <= positions@.len(),
                positions@ == shown_positions(self@),
                forall|j: int| 0 <= j < positions@.len() ==> positions@[j] < self.items@.len(),
                shown@.len() == k,
                forall|j: int|
                    0 <= j < k ==> *(#[trigger] shown@[j]) == self.items@[positions@[j] as int],
            decreases positions@.len() - k,
        {
            shown.push(&self.items[positions[k]]);
            k += 1;
        }
        shown
    }

    /// The number of items that the list view shows.
    pub fn filtered_count(&self) -> (count: usize)
        ensures
            count == shown_positions(self@).len(),
    {
        self.filtered_indices().len()
    }

    /// The position of the selected item among all items.
    pub fn selected_index(&self) -> (position: Option<usize>)
        ensures
            position == selected_position(self@),
            position is Some ==> position->0 < self.items@.len(),
    {
        match self.list_view_state.list_state.selected {
            Some(i) => {
                let positions = self.filtered_indices();
                let total = self.items.len();
                proof {
                    assert(self.items.deep_view().len() == total);
                    lemma_positions_in_range(
                        self.items.deep_view(),
                        |item: WorkItemView| passes(self@, item),
                    );
                }
                if i < positions.len() {
                    Some(positions[i])
                } else {
                    None
                }
            },
            None => None,
        }
    }

    /// The selected item.
    pub fn get_selected_item(&self) -> (item: Option<&WorkItem>)
        ensures
            match item {
                Some(found) => selected_position(self@) is Some && selected_position(self@)->0
                    < self.items@.len() && *found == self.items@[selected_position(self@)->0 as int],
                None => selected_position(self@) is None,
            },
    {
        match self.selected_index() {
            Some(position) => Some(&self.items[position]),
            None => None,
        }
    }

    /// Brings the selection back among the shown rows.
    pub fn clamp_selection(&mut self)
        ensures
            final(self)@ == selection_clamped(old(self)@),
            final(self).metadata == old(self).metadata,
    {
        let count = self.filtered_count();
        if count == 0 {
            self.list_view_state.list_state.select(None);
            return ;
        }
        match self.list_view_state.list_state.selected() {
            Some(current) => {
                if current >= count {
                    self.list_view_state.list_state.select(Some(count - 1));
                }
            },
            None => {
                self.list_view_state.list_state.select(Some(0));
            },
        }
    }

    /// Moves the selection by `direction` rows, stopping at both ends.
    pub fn navigate_list(&mut self, direction: isize)
        ensures
            final(self)@ == navigated(old(self)@, direction as int),
            final(self).metadata == old(self).metadata,
    {
        let count = self.filtered_count();
        if count == 0 {
            return ;
        }
        let current: usize = match self.list_view_state.list_state.selected() {
            Some(i) => i,
            None => 0,
        };
        let target: i128 = current as i128 + direction as i128;
        if target < 0 {
            self.list_view_state.list_state.select(Some(0));
        } else if target > (count - 1) as i128 {
            self.list_view_state.list_state.select(Some(count - 1));
        } else {
            self.list_view_state.list_state.select(Some(target as usize));
        }
    }

    /// Selects the first shown row, if there is one.
    pub fn jump_to_start(&mut self)
        ensures
            final(self)@ == (if shown_positions(old(self)@).len() > 0 {
                with_selection(old(self)@, Some(0usize))
            } else {
                old(self)@
            }),
            final(self).metadata == old(self).metadata,
    {
        if self.filtered_count() > 0 {
            self.list_view_state.list_state.select(Some(0));
        }
    }

    /// Selects the last shown row, if there is one.
    pub fn jump_to_end(&mut self)
        ensures
            final(self)@ == (if shown_positions(old(self)@).len() > 0 {
                with_selection(old(self)@, Some((shown_positions(old(self)@).len() - 1) as usize))
            } else {
                old(self)@
            }),
            final(self).metadata == old(self).metadata,
    {
        let count = self.filtered_count();
        if count > 0 {
            self.list_view_state.list_state.select(Some(count - 1));
        }
    }

    /// A session for a configuration: the list view, nothing loaded yet,
    /// the first source active, a normal load ahead. The first row counts
    /// as selected where there is a source.
    pub fn new(config: AppConfig) -> (app: App)
        ensures
            app.wf(),
            app@ == new_session(config@),
    {
        let sources = build_sources(&config);
        let mut list_state = ListState::default();
        if sources.len() > 0 {
            list_state.select(Some(0));
        }
        assert(sources.deep_view().len() == sources@.len());
        let items: Vec<WorkItem> = Vec::new();
        assert(items.deep_view() =~= Seq::<WorkItemView>::empty());
        App {
            view: AppView::List,
            items,
            list_view_state: ListViewState::new(list_state),
            detail_view_state: DetailViewState::default(),
            loading_state: LoadingState::Loading,
            all_boards: sources,
            current_board_index: 0,
            me: config.common.me,
            keys: config.keys,
            last_key_press: None,
            metadata: MetadataCache::new(),
        }
    }

    /// The active source.
    pub fn current_board(&self) -> (source: &Source)
        requires
            self.current_board_index < self.all_boards@.len(),
        ensures
            *source == self.all_boards@[self.current_board_index as int],
    {
        &self.all_boards[self.current_board_index]
    }

    /// Takes in the items of a load: the first of them is selected, the
    /// options of the type filter become their types in ascending order,
    /// and the session counts as loaded. The active types stay. The detail
    /// view lets go of the item it held and of a save that is in flight:
    /// what comes of that save is no longer taken in.
    pub fn load_data(&mut self, items: Vec<WorkItem>)
        ensures
            final(self)@ == data_loaded(
                old(self)@,
                items.deep_view(),
                final(self)@.list.type_picker.options,
            ),
            strictly_ascending(final(self).list_view_state.type_picker.options@),
            text_set(final(self).list_view_state.type_picker.options@) == item_types(
                items.deep_view(),
            ),
            final(self).metadata == old(self).metadata,
    {
        let mut list_state = ListState { selected: None, offset: 0 };
        if items.len() > 0 {
            list_state.select(Some(0));
        }
        let mut options: Vec<String> = Vec::new();
        let mut i: usize = 0;
        assert(text_set(options@) =~= item_types(items.deep_view().take(0)));
        while i < items.len()
            invariant
                i <= items@.len(),
                strictly_ascending(options@),
                text_set(options@) == item_types(items.deep_view().take(i as int)),
            decreases items@.len() - i,
        {
            insert_ascending(&mut options, items[i].work_item_type.clone());
            proof {
                let before = items.deep_view().take(i as int);
                let after = items.deep_view().take(i as int + 1);
                let t = items@[i as int].work_item_type@;
                assert forall|x: Seq<char>| item_types(after).contains(x) == item_types(
                    before,
                ).insert(t).contains(x) by {
                    if item_types(after).contains(x) {
                        let k = choose|k: int|
                            0 <= k < after.len() && (#[trigger] after[k]).work_item_type == x;
                        if k < i {
                            assert(before[k].work_item_type == x);
                        }
                    }
                    if item_types(before).contains(x) {
                        let k = choose|k: int|
                            0 <= k < before.len() && (#[trigger] before[k]).work_item_type == x;
                        assert(after[k].work_item_type == x);
                    }
                    if x == t {
                        assert(after[i as int].work_item_type == x);
                    }
                }
                assert(item_types(after) =~= item_types(before).insert(t));
            }
            i += 1;
        }
        assert(items.deep_view().take(i as int) =~= items.deep_view());
        self.list_view_state.type_picker.options = options;
        self.list_view_state.type_picker.selected = None;
        self.items = items;
        self.list_view_state.list_state = list_state;
        self.detail_view_state = DetailViewState::default();
        self.loading_state = LoadingState::Loaded;
    }

    /// Takes in that the load of the active source failed: the session
    /// holds the reason and shows nothing else until it ends.
    pub fn fail_load(&mut self, reason: &str)
        ensures
            final(self)@ == (AppStateView {
                loading: LoadingStateView::Error("Failed to fetch data: "@ + reason@),
                ..old(self)@
            }),
            final(self).metadata == old(self).metadata,
    {
        let mut message = String::from_str("Failed to fetch data: ");
        message.append(reason);
        self.loading_state = LoadingState::Error(message);
    }

    /// Opens or closes the type filter. Opening it hides the hover.
    pub fn toggle_type_filter_menu(&mut self)
        ensures
            final(self)@ == type_menu_toggled(old(self)@),
            final(self).metadata == old(self).metadata,
    {
        self.list_view_state.type_picker.toggle_open();
        if self.list_view_state.type_picker.is_open {
            self.list_view_state.is_list_details_hover_visible = false;
        }
    }

    /// Toggles the highlighted type of the open type filter and brings the
    /// selection back among the shown rows.
    pub fn toggle_type_selection(&mut self)
        ensures
            final(self)@ == type_toggled(old(self)@),
            final(self).metadata == old(self).metadata,
    {
        if !self.list_view_state.type_picker.is_open {
            return ;
        }
        match self.list_view_state.type_picker.selected {
            Some(i) => {
                if i < self.list_view_state.type_picker.options.len() {
                    self.list_view_state.type_picker.toggle_selected();
                    self.clamp_selection();
                }
            },
            None => {},
        }
    }

    /// Empties the type filter and brings the selection back among the
    /// shown rows.
    pub fn clear_type_filters(&mut self)
        ensures
            final(self)@ == selection_clamped(with_type_picker(old(self)@, cleared(old(self)@.list.type_picker))),
            final(self).metadata == old(self).metadata,
    {
        self.list_view_state.type_picker.clear();
        self.clamp_selection();
    }

    /// Moves the highlight of the open type filter.
    pub fn move_type_selection(&mut self, direction: isize)
        ensures
            final(self)@ == type_highlight_moved(old(self)@, direction as int),
            final(self).metadata == old(self).metadata,
    {
        if !self.list_view_state.type_picker.is_open {
            return ;
        }
        self.list_view_state.type_picker.move_selection(direction);
    }

    /// Makes the next source the active one, the first after the last, and
    /// asks for a load. With fewer than two sources nothing changes.
    pub fn next_board(&mut self)
        ensures
            final(self)@ == board_switched(old(self)@, true),
            final(self).metadata == old(self).metadata,
    {
        let count = self.all_boards.len();
        if count > 1 {
            if self.current_board_index < count - 1 {
                self.current_board_index = self.current_board_index + 1;
            } else {
                self.current_board_index = 0;
            }
            self.loading_state = LoadingState::Loading;
        }
    }

    /// Makes the previous source the active one, the last before the first,
    /// and asks for a load. With fewer than two sources nothing changes.
    pub fn previous_board(&mut self)
        ensures
            final(self)@ == board_switched(old(self)@, false),
            final(self).metadata == old(self).metadata,
    {
        let count = self.all_boards.len();
        if count > 1 {
            if self.current_board_index == 0 || self.current_board_index > count - 1 {
                self.current_board_index = count - 1;
            } else {
                self.current_board_index = self.current_board_index - 1;
            }
            self.loading_state = LoadingState::Loading;
        }
    }

    /// Switches the filter by assignee, hides the hover and selects the
    /// first row that is then shown.
    pub fn toggle_assigned_to_me_filter(&mut self)
        ensures
            final(self)@ == assignee_filter_toggled(old(self)@),
            final(self).metadata == old(self).metadata,
    {
        self.list_view_state.assigned_to_me_filter_on =
            !self.list_view_state.assigned_to_me_filter_on;
        self.list_view_state.is_list_details_hover_visible = false;
        let first = if self.filtered_count() > 0 {
            Some(0)
        } else {
            None
        };
        self.list_view_state.list_state.select(first);
    }

    /// The address of the selected item in the service's web interface;
    /// none without an active source or a selected item.
    pub fn item_url(&self) -> (url: Option<String>)
        ensures
            url.deep_view() == selected_item_url(self@),
    {
        if self.current_board_index >= self.all_boards.len() {
            return None;
        }
        let board = &self.all_boards[self.current_board_index];
        assert(self.all_boards.deep_view()[self.current_board_index as int] == board@);
        match self.get_selected_item() {
            Some(item) => {
                assert(self.items.deep_view()[selected_position(self@)->0 as int] == item@);
                let mut url = String::from_str("https://dev.azure.com/");
                url.append(board.organization.as_str());
                url.append("/");
                url.append(board.project.as_str());
                url.append("/_workitems/edit/");
                let id = number_text(item.id);
                url.append(id.as_str());
                Some(url)
            },
            None => None,
        }
    }
}

/// The set of the work-item types of a list of items.
pub open spec fn item_types(items: Seq<WorkItemView>) -> Set<Seq<char>> {
    Set::new(
        |t: Seq<char>| exists|i: int| 0 <= i < items.len() && (#[trigger] items[i]).work_item_type == t,
    )
}

/// The session that starts with a configuration.
pub open spec fn new_session(config: AppConfigView) -> AppStateView {
    AppStateView {
        view: AppView::List,
        items: Seq::empty(),
        list: fresh_list_view(
            ListState {
                selected: if sources_of(config).len() > 0 {
                    Some(0usize)
                } else {
                    None
                },
                offset: 0,
            },
        ),
        detail: DetailViewStateView { edit_state: None, save_status: SaveStatusView::Idle },
        loading: LoadingStateView::Loading,
        sources: sources_of(config),
        current: 0,
        me: config.common.me,
        keys: config.keys,
        last_key: None,
        metadata: MetadataView {
            policy: RefreshPolicy::Normal,
            layouts: Map::empty(),
            field_meta: Map::empty(),
            type_names: Seq::empty(),
            process_id: None,
        },
    }
}

/// The session with another type filter.
pub open spec fn with_type_picker(s: AppStateView, picker: PickerView) -> AppStateView {
    AppStateView { list: ListViewStateView { type_picker: picker, ..s.list }, ..s }
}

/// The session after the items of a load were taken in, with `options` as
/// the options of the type filter.
pub open spec fn data_loaded(
    s: AppStateView,
    items: Seq<WorkItemView>,
    options: Seq<Seq<char>>,
) -> AppStateView {
    AppStateView {
        items,
        loading: LoadingStateView::Loaded,
        detail: DetailViewStateView { edit_state: None, save_status: SaveStatusView::Idle },
        list: ListViewStateView {
            list_state: ListState {
                selected: if items.len() > 0 {
                    Some(0usize)
                } else {
                    None
                },
                offset: 0,
            },
            type_picker: PickerView { options, selected: None, ..s.list.type_picker },
            ..s.list
        },
        ..s
    }
}

/// The session after the type filter was opened or closed.
pub open spec fn type_menu_toggled(s: AppStateView) -> AppStateView {
    let picker = s.list.type_picker;
    let opened = !picker.is_open;
    AppStateView {
        list: ListViewStateView {
            type_picker: PickerView {
                is_open: opened,
                selected: if opened && picker.options.len() > 0 {
                    Some(0usize)
                } else {
                    None
                },
                ..picker
            },
            is_list_details_hover_visible: if opened {
                false
            } else {
                s.list.is_list_details_hover_visible
            },
            ..s.list
        },
        ..s
    }
}

/// The session after the highlighted type of the type filter was toggled.
/// Nothing changes where the filter is closed or highlights no option.
pub open spec fn type_toggled(s: AppStateView) -> AppStateView {
    let picker = s.list.type_picker;
    if picker.is_open && picker.selected is Some && picker.selected->0 < picker.options.len() {
        selection_clamped(with_type_picker(s, toggled_at_highlight(picker)))
    } else {
        s
    }
}

/// The session after the highlight of the type filter was moved. Nothing
/// changes where the filter is closed.
pub open spec fn type_highlight_moved(s: AppStateView, direction: int) -> AppStateView {
    let picker = s.list.type_picker;
    if picker.is_open {
        with_type_picker(
            s,
            PickerView { selected: moved(picker.selected, direction, picker.options.len()), ..picker },
        )
    } else {
        s
    }
}

/// The source after (`forward`) or before the one at `current` in the ring
/// of `count` sources.
pub open spec fn neighbour(current: usize, count: nat, forward: bool) -> usize {
    if forward {
        if current + 1 < count {
            (current + 1) as usize
        } else {
            0
        }
    } else {
        if current == 0 || current >= count {
            (count - 1) as usize
        } else {
            (current - 1) as usize
        }
    }
}

/// The session after a switch to a neighbouring source.
pub open spec fn board_switched(s: AppStateView, forward: bool) -> AppStateView {
    if s.sources.len() > 1 {
        AppStateView {
            current: neighbour(s.current, s.sources.len(), forward),
            loading: LoadingStateView::Loading,
            ..s
        }
    } else {
        s
    }
}

/// The session after the filter by assignee was switched.
pub open spec fn assignee_filter_toggled(s: AppStateView) -> AppStateView {
    let flipped = AppStateView {
        list: ListViewStateView {
            assigned_to_me_filter_on: !s.list.assigned_to_me_filter_on,
            is_list_details_hover_visible: false,
            ..s.list
        },
        ..s
    };
    with_selection(
        flipped,
        if shown_positions(flipped).len() > 0 {
            Some(0usize)
        } else {
            None
        },
    )
}

/// The address of an item in the service's web interface.
pub open spec fn item_address(organization: Seq<char>, project: Seq<char>, id: u32) -> Seq<char> {
    "https://dev.azure.com/"@ + organization + "/"@ + project + "/_workitems/edit/"@ + decimal_text(
        id as nat,
    )
}

/// The address of the selected item of a session.
pub open spec fn selected_item_url(s: AppStateView) -> Option<Seq<char>> {
    if s.current < s.sources.len() && selected_position(s) is Some {
        Some(
            item_address(
                s.sources[s.current as int].organization,
                s.sources[s.current as int].project,
                s.items[selected_position(s)->0 as int].id,
            ),
        )
    } else {
        None
    }
}

} // verus!
