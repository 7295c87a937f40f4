//! A picker: an ordered list of options, a highlighted option and a set of
//! toggled ("active") values. The list view filters by work-item type with
//! one; the detail view picks a field's value with one.

use vstd::prelude::*;
use crate::text::{
    dedup_texts,
    distinct_texts,
    lemma_distinct_texts,copy_texts, lemma_text_set_push, remove_text, text_set, texts_contain};

verus! {

/// The state of a picker.
#[derive(Debug)]
pub struct PickerState {
    /// The options, in the order in which they are shown.
    pub options: Vec<String>,
    /// The position of the highlighted option.
    pub selected: Option<usize>,
    /// The toggled values, in no particular order.
    pub active: Vec<String>,
    /// Whether the picker is shown.
    pub is_open: bool,
}

/// The mathematical value of a [`PickerState`].
pub struct PickerView {
    pub options: Seq<Seq<char>>,
    pub selected: Option<usize>,
    pub active: Set<Seq<char>>,
    pub is_open: bool,
}

impl View for PickerState {
    type V = PickerView;

    open spec fn view(&self) -> PickerView {
        PickerView {
            options: self.options.deep_view(),
            selected: self.selected,
            active: text_set(self.active@),
            is_open: self.is_open,
        }
    }
}

impl DeepView for PickerState {
    type V = PickerView;

    open spec fn deep_view(&self) -> PickerView {
        self@
    }
}

/// The active set after `value` was toggled: without it if it was active,
/// with it if it was not.
pub open spec fn toggled(active: Set<Seq<char>>, value: Seq<char>) -> Set<Seq<char>> {
    if active.contains(value) {
        active.remove(value)
    } else {
        active.insert(value)
    }
}

/// The highlight after a move by `direction` among `len` options: the old
/// position (the first, where none was highlighted) plus `direction`, kept
/// within the options; none where there is no option.
pub open spec fn moved(selected: Option<usize>, direction: int, len: nat) -> Option<usize> {
    if len == 0 {
        None
    } else {
        let current: int = match selected {
            Some(i) => i as int,
            None => 0,
        };
        let target = current + direction;
        if target < 0 {
            Some(0usize)
        } else if target > len - 1 {
            Some((len - 1) as usize)
        } else {
            Some(target as usize)
        }
    }
}

/// The picker after its highlighted option was toggled; unchanged where no
/// option is highlighted.
pub open spec fn toggled_at_highlight(p: PickerView) -> PickerView {
    match p.selected {
        Some(i) => if i < p.options.len() {
            PickerView { active: toggled(p.active, p.options[i as int]), ..p }
        } else {
            p
        },
        None => p,
    }
}

/// The picker after clearing: no active value, no highlight.
pub open spec fn cleared(p: PickerView) -> PickerView {
    PickerView { active: Set::empty(), selected: None, ..p }
}

/// Toggling one value twice gives back the active set.
pub proof fn lemma_toggle_twice(active: Set<Seq<char>>, value: Seq<char>)
    ensures
        toggled(toggled(active, value), value) == active,
{
    assert(toggled(toggled(active, value), value) =~= active);
}

/// Toggling the highlighted option twice gives back the picker.
pub proof fn lemma_toggle_highlight_twice(p: PickerView)
    ensures
        toggled_at_highlight(toggled_at_highlight(p)) == p,
{
    match p.selected {
        Some(i) => {
            if i < p.options.len() {
                lemma_toggle_twice(p.active, p.options[i as int]);
            }
        },
        None => {},
    }
}

/// Clearing leaves no active value and no highlight, whatever was toggled
/// before.
pub proof fn lemma_clear_resets(p: PickerView)
    ensures
        cleared(p).active == Set::<Seq<char>>::empty(),
        cleared(p).selected is None,
        cleared(p).options == p.options,
        forall|value: Seq<char>| !cleared(p).active.contains(value),
{
}

impl Clone for PickerState {
    fn clone(&self) -> (r: Self)
        ensures
            r@ == self@,
    {
        let active = copy_texts(&self.active);
        PickerState {
            options: copy_texts(&self.options),
            selected: self.selected,
            active,
            is_open: self.is_open,
        }
    }
}

impl PickerState {
    /// A closed picker with nothing active and no highlight. Its options
    /// are the given ones, each once, in the order in which they first
    /// occur.
    pub fn new(options: Vec<String>) -> (p: Self)
        ensures
            p@ == (PickerView {
                options: distinct_texts(options.deep_view()),
                selected: None,
                active: Set::empty(),
                is_open: false,
            }),
            p@.options.no_duplicates(),
    {
        let p = PickerState {
            options: dedup_texts(&options),
            selected: None,
            active: Vec::new(),
            is_open: false,
        };
        proof {
            lemma_distinct_texts(options.deep_view());
        }
        assert(p@.active =~= Set::empty());
        p
    }

    /// Whether `value` is active.
    pub fn is_active(&self, value: &str) -> (r: bool)
        ensures
            r == self@.active.contains(value@),
    {
        texts_contain(&self.active, value)
    }

    /// Whether nothing is active.
    pub fn has_no_active(&self) -> (r: bool)
        ensures
            r == (self@.active == Set::<Seq<char>>::empty()),
    {
        let r = self.active.len() == 0;
        proof {
            if r {
                assert(self@.active =~= Set::empty());
            } else {
                assert(self@.active.contains(self.active@[0]@));
            }
        }
        r
    }

    /// Toggles `value`: it leaves the active set if it was in it, and joins
    /// it if it was not. Nothing else changes.
    pub fn toggle(&mut self, value: &str)
        ensures
            final(self)@ == (PickerView { active: toggled(old(self)@.active, value@), ..old(self)@ }),
    {
        if texts_contain(&self.active, value) {
            remove_text(&mut self.active, value);
        } else {
            let owned = String::from_str(value);
            proof {
                lemma_text_set_push(self.active@, owned);
            }
            self.active.push(owned);
        }
    }

    /// Toggles the highlighted option. Without a highlight nothing changes.
    pub fn toggle_selected(&mut self)
        ensures
            final(self)@ == toggled_at_highlight(old(self)@),
    {
        match self.selected {
            Some(i) => {
                if i < self.options.len() {
                    let value = self.options[i].clone();
                    assert(self.options.deep_view()[i as int] == value@);
                    self.toggle(value.as_str());
                }
            },
            None => {},
        }
    }

    /// Empties the active set and drops the highlight.
    pub fn clear(&mut self)
        ensures
            final(self)@ == cleared(old(self)@),
    {
        self.active.clear();
        self.selected = None;
        assert(self@.active =~= Set::empty());
    }

    /// Opens the picker with the first option highlighted, or closes it and
    /// drops the highlight.
    pub fn toggle_open(&mut self)
        ensures
            final(self)@ == (PickerView {
                is_open: !old(self)@.is_open,
                selected: if !old(self)@.is_open && old(self)@.options.len() > 0 {
                    Some(0usize)
                } else {
                    None
                },
                ..old(self)@
            }),
    {
        self.is_open = !self.is_open;
        if self.is_open && self.options.len() > 0 {
            self.selected = Some(0);
        } else {
            self.selected = None;
        }
    }

    /// Closes the picker and drops the highlight.
    pub fn close(&mut self)
        ensures
            final(self)@ == (PickerView { is_open: false, selected: None, ..old(self)@ }),
    {
        self.is_open = false;
        self.selected = None;
    }

    /// Moves the highlight by `direction` options, stopping at both ends.
    pub fn move_selection(&mut self, direction: isize)
        ensures
            final(self)@ == (PickerView {
                selected: moved(old(self)@.selected, direction as int, old(self)@.options.len()),
                ..old(self)@
            }),
    {
        let len = self.options.len();
        if len == 0 {
            self.selected = None;
            return ;
        }
        let current: usize = match self.selected {
            Some(i) => i,
            None => 0,
        };
        let target: i128 = current as i128 + direction as i128;
        if target < 0 {
            self.selected = Some(0);
        } else if target > (len - 1) as i128 {
            self.selected = Some(len - 1);
        } else {
            self.selected = Some(target as usize);
        }
    }

    /// Puts the highlight on the first option.
    pub fn highlight_first(&mut self)
        ensures
            final(self)@ == (PickerView {
                selected: if old(self)@.options.len() > 0 {
                    Some(0usize)
                } else {
                    None
                },
                ..old(self)@
            }),
    {
        if self.options.len() > 0 {
            self.selected = Some(0);
        } else {
            self.selected = None;
        }
    }

    /// Makes `value` the only active value.
    pub fn set_only_active(&mut self, value: String)
        ensures
            final(self)@ == (PickerView { active: set![value@], ..old(self)@ }),
    {
        let mut active: Vec<String> = Vec::new();
        proof {
            lemma_text_set_push(active@, value);
            assert(text_set(active@) =~= Set::empty());
        }
        active.push(value);
        assert(text_set(active@) =~= set![value@]);
        self.active = active;
    }

    /// The highlighted option.
    pub fn highlighted(&self) -> (r: Option<&String>)
        ensures
            match r {
                Some(value) => self@.selected is Some && self@.selected->0 < self@.options.len()
                    && value@ == self@.options[self@.selected->0 as int],
                None => self@.selected is None || self@.selected->0 >= self@.options.len(),
            },
    {
        match self.selected {
            Some(i) => {
                if i < self.options.len() {
                    assert(self.options.deep_view()[i as int] == self.options@[i as int]@);
                    Some(&self.options[i])
                } else {
                    None
                }
            },
            None => None,
        }
    }

    /// The active options, in the order of the options.
    pub fn active_options(&self) -> (r: Vec<String>)
        ensures
            r.deep_view() == self@.options.filter(|t: Seq<char>| self@.active.contains(t)),
    {
        let ghost keep = |t: Seq<char>| self@.active.contains(t);
        let mut r: Vec<String> = Vec::new();
        let mut i: usize = 0;
        assert(self@.options.take(0) =~= Seq::<Seq<char>>::empty());
        assert(r.deep_view() =~= self@.options.take(0).filter(keep));
        while i < self.options.len()
            invariant
                i <= self.options@.len(),
                keep == |t: Seq<char>| self@.active.contains(t),
                r.deep_view() == self@.options.take(i as int).filter(keep),
            decreases self.options@.len() - i,
        {
            let ghost before = r.deep_view();
            assert(self@.options.take(i as int + 1) =~= self@.options.take(i as int).push(
                self@.options[i as int],
            ));
            proof {
                crate::text::lemma_filter_push(
                    self@.options.take(i as int),
                    self@.options[i as int],
                    keep,
                );
            }
            if texts_contain(&self.active, self.options[i].as_str()) {
                r.push(self.options[i].clone());
                assert(r.deep_view() =~= before.push(self@.options[i as int]));
            }
            i += 1;
        }
        assert(self@.options.take(i as int) =~= self@.options);
        r
    }
}

} // verus!
