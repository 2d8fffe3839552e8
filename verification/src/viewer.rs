//! The entry viewer: a snapshot of the vault's entries with a selection, a
//! set of revealed passwords, a status line and an edit buffer.
//!
//! The snapshot lives only while the viewer is open. Nothing here touches
//! the vault; the session does that and tells the viewer the outcome.

use crate::storage::{entry_views, EntryView, PasswordEntry};
use std::collections::HashSet;
use vstd::prelude::*;
use vstd::string::StringExecFns;

verus! {

/// State for the password viewer.
pub struct ViewerState {
    pub entries: Vec<PasswordEntry>,
    pub selected: usize,
    pub revealed: HashSet<usize>,
    pub status_message: Option<String>,
    pub edit_buffer: String,
}

/// What the viewer holds, as plain values.
pub struct ViewerView {
    pub entries: Seq<EntryView>,
    pub selected: int,
    pub revealed: Set<usize>,
    pub status_message: Option<Seq<char>>,
    pub edit_buffer: Seq<char>,
}

impl View for ViewerState {
    type V = ViewerView;

    open spec fn view(&self) -> ViewerView {
        ViewerView {
            entries: entry_views(self.entries@),
            selected: self.selected as int,
            revealed: self.revealed@,
            status_message: crate::app::text_of(self.status_message),
            edit_buffer: self.edit_buffer@,
        }
    }
}

impl ViewerView {
    /// The viewer as it opens on a list of entries.
    pub open spec fn opening(entries: Seq<EntryView>) -> ViewerView {
        ViewerView {
            entries,
            selected: 0,
            revealed: Set::empty(),
            status_message: None,
            edit_buffer: Seq::empty(),
        }
    }

    /// The selection is the index of an entry, or zero in an empty list.
    pub open spec fn wf(self) -> bool {
        0 <= self.selected && (self.selected == 0 || self.selected < self.entries.len())
    }

    /// Whether the selection is the index of an entry.
    pub open spec fn has_selection(self) -> bool {
        0 <= self.selected < self.entries.len()
    }

    /// The selection moved one up, stopping at the first entry.
    pub open spec fn moved_up(self) -> ViewerView {
        ViewerView {
            selected: if self.selected > 0 {
                self.selected - 1
            } else {
                self.selected
            },
            status_message: None,
            ..self
        }
    }

    /// The selection moved one down, stopping at the last entry.
    pub open spec fn moved_down(self) -> ViewerView {
        ViewerView {
            selected: if self.selected + 1 < self.entries.len() {
                self.selected + 1
            } else {
                self.selected
            },
            status_message: None,
            ..self
        }
    }

    /// The selected index put into the reveal set, or taken out of it.
    pub open spec fn reveal_toggled(self) -> ViewerView {
        let index = self.selected as usize;
        ViewerView {
            revealed: if self.revealed.contains(index) {
                self.revealed.remove(index)
            } else {
                self.revealed.insert(index)
            },
            ..self
        }
    }

    /// Every index of an entry put into the reveal set.
    pub open spec fn all_revealed(self) -> ViewerView {
        ViewerView {
            revealed: self.revealed.union(Set::new(|i: usize| i < self.entries.len())),
            ..self
        }
    }

    /// The reveal set emptied.
    pub open spec fn all_hidden(self) -> ViewerView {
        ViewerView { revealed: Set::empty(), ..self }
    }

    /// The status line set.
    pub open spec fn with_status(self, status: Option<Seq<char>>) -> ViewerView {
        ViewerView { status_message: status, ..self }
    }

    /// The edit buffer seeded with the name of the selected entry.
    pub open spec fn editing_name(self) -> ViewerView {
        ViewerView { edit_buffer: self.entries[self.selected].name, ..self }
    }

    /// The edit buffer seeded with the password of the selected entry,
    /// which is revealed.
    pub open spec fn editing_password(self) -> ViewerView {
        ViewerView {
            edit_buffer: self.entries[self.selected].password,
            revealed: self.revealed.insert(self.selected as usize),
            ..self
        }
    }

    /// The edit buffer with a character typed.
    pub open spec fn typed(self, c: char) -> ViewerView {
        ViewerView { edit_buffer: self.edit_buffer.push(c), ..self }
    }

    /// The edit buffer with its last character erased, if it has one.
    pub open spec fn erased(self) -> ViewerView {
        ViewerView {
            edit_buffer: if self.edit_buffer.len() > 0 {
                self.edit_buffer.drop_last()
            } else {
                self.edit_buffer
            },
            ..self
        }
    }

    /// The edit buffer emptied.
    pub open spec fn edit_closed(self) -> ViewerView {
        ViewerView { edit_buffer: Seq::empty(), ..self }
    }

    /// The selected entry with the edit buffer as its name.
    pub open spec fn renamed_entry(self) -> EntryView {
        EntryView { name: self.edit_buffer, ..self.entries[self.selected] }
    }

    /// The selected entry with the edit buffer as its password.
    pub open spec fn repassworded_entry(self) -> EntryView {
        EntryView { password: self.edit_buffer, ..self.entries[self.selected] }
    }

    /// The viewer after the selected entry was deleted from the vault: the
    /// entry leaves the snapshot, the selection stays on the same index or
    /// steps back onto the last entry, the reveal set is emptied.
    pub open spec fn deleted(self) -> ViewerView {
        if self.has_selection() {
            let entries = self.entries.remove(self.selected);
            ViewerView {
                entries,
                selected: if self.selected >= entries.len() && self.selected > 0 {
                    self.selected - 1
                } else {
                    self.selected
                },
                revealed: Set::empty(),
                status_message: Some("✓ Deleted!"@),
                ..self
            }
        } else {
            self
        }
    }

    /// The viewer after the selected entry was replaced in the vault.
    pub open spec fn replaced(self, entry: EntryView, status: Seq<char>) -> ViewerView {
        if self.has_selection() {
            ViewerView {
                entries: self.entries.update(self.selected, entry),
                status_message: Some(status),
                ..self
            }
        } else {
            self
        }
    }
}

impl ViewerState {
    /// The viewer as it opens on a list of entries: the first one selected,
    /// nothing revealed.
    pub fn new(entries: Vec<PasswordEntry>) -> (state: ViewerState)
        ensures
            state@ == ViewerView::opening(entry_views(entries@)),
    {
        ViewerState {
            entries,
            selected: 0,
            revealed: HashSet::new(),
            status_message: None,
            edit_buffer: String::new(),
        }
    }

    /// Moves the selection one up.
    pub fn select_previous(&mut self)
        ensures
            final(self)@ == old(self)@.moved_up(),
    {
        if self.selected > 0 {
            self.selected -= 1;
        }
        self.status_message = None;
    }

    /// Moves the selection one down.
    pub fn select_next(&mut self)
        ensures
            final(self)@ == old(self)@.moved_down(),
    {
        if self.selected < self.entries.len() && self.entries.len() - self.selected > 1 {
            self.selected += 1;
        }
        self.status_message = None;
    }

    /// Reveals the selected password, or hides it where it is revealed.
    pub fn toggle_reveal(&mut self)
        ensures
            final(self)@ == old(self)@.reveal_toggled(),
    {
        if self.revealed.contains(&self.selected) {
            self.revealed.remove(&self.selected);
        } else {
            self.revealed.insert(self.selected);
        }
    }

    /// Reveals every password.
    pub fn reveal_all(&mut self)
        ensures
            final(self)@ == old(self)@.all_revealed(),
    {
        let ghost before = self.revealed@;
        let count = self.entries.len();
        let mut i: usize = 0;
        while i < count
            invariant
                i <= count,
                count == self.entries.len(),
                self.entries == old(self).entries,
                self.selected == old(self).selected,
                self.status_message == old(self).status_message,
                self.edit_buffer == old(self).edit_buffer,
                self.revealed@ == before.union(Set::new(|j: usize| j < i)),
            decreases count - i,
        {
            self.revealed.insert(i);
            i += 1;
            assert(self.revealed@ =~= before.union(Set::new(|j: usize| j < i)));
        }
        assert(self.revealed@ =~= old(self)@.all_revealed().revealed);
    }

    /// Hides every password.
    pub fn hide_all(&mut self)
        ensures
            final(self)@ == old(self)@.all_hidden(),
    {
        self.revealed.clear();
    }

    /// The selected entry, if the selection is on one.
    pub fn selected_entry(&self) -> (r: Option<&PasswordEntry>)
        ensures
            r is Some <==> self@.has_selection(),
            r matches Some(entry) ==> entry@ == self@.entries[self@.selected],
    {
        if self.selected < self.entries.len() {
            Some(&self.entries[self.selected])
        } else {
            None
        }
    }

    /// Seeds the edit buffer with the name of the selected entry. Returns
    /// whether there is a selected entry; where there is none nothing
    /// changes.
    pub fn begin_edit_name(&mut self) -> (begun: bool)
        ensures
            begun == old(self)@.has_selection(),
            begun ==> final(self)@ == old(self)@.editing_name(),
            !begun ==> final(self)@ == old(self)@,
    {
        if self.selected < self.entries.len() {
            self.edit_buffer = self.entries[self.selected].name.clone();
            true
        } else {
            false
        }
    }

    /// Seeds the edit buffer with the password of the selected entry and
    /// reveals it. Returns whether there is a selected entry; where there
    /// is none nothing changes.
    pub fn begin_edit_password(&mut self) -> (begun: bool)
        ensures
            begun == old(self)@.has_selection(),
            begun ==> final(self)@ == old(self)@.editing_password(),
            !begun ==> final(self)@ == old(self)@,
    {
        if self.selected < self.entries.len() {
            self.edit_buffer = self.entries[self.selected].password.clone();
            self.revealed.insert(self.selected);
            true
        } else {
            false
        }
    }

    /// The selected entry with the edit buffer as its name.
    pub fn renamed_entry(&self) -> (r: Option<PasswordEntry>)
        ensures
            r is Some <==> self@.has_selection(),
            r matches Some(entry) ==> entry@ == self@.renamed_entry(),
    {
        if self.selected < self.entries.len() {
            let current = &self.entries[self.selected];
            Some(
                PasswordEntry {
                    name: self.edit_buffer.clone(),
                    password: current.password.clone(),
                    created_at: current.created_at.clone(),
                },
            )
        } else {
            None
        }
    }

    /// The selected entry with the edit buffer as its password.
    pub fn repassworded_entry(&self) -> (r: Option<PasswordEntry>)
        ensures
            r is Some <==> self@.has_selection(),
            r matches Some(entry) ==> entry@ == self@.repassworded_entry(),
    {
        if self.selected < self.entries.len() {
            let current = &self.entries[self.selected];
            Some(
                PasswordEntry {
                    name: current.name.clone(),
                    password: self.edit_buffer.clone(),
                    created_at: current.created_at.clone(),
                },
            )
        } else {
            None
        }
    }

    /// Takes the selected entry out of the snapshot, after the vault
    /// deleted it.
    pub fn remove_selected(&mut self)
        ensures
            final(self)@ == old(self)@.deleted(),
            old(self)@.wf() ==> final(self)@.wf(),
    {
        if self.selected < self.entries.len() {
            let ghost before = entry_views(self.entries@);
            self.entries.remove(self.selected);
            assert(entry_views(self.entries@) =~= before.remove(self.selected as int));
            if self.selected >= self.entries.len() && self.selected > 0 {
                self.selected -= 1;
            }
            self.revealed.clear();
            self.status_message = Some(String::from_str("✓ Deleted!"));
        }
    }

    /// Puts `entry` in the place of the selected one, after the vault
    /// replaced it, and shows `status`.
    pub fn replace_selected(&mut self, entry: PasswordEntry, status: &str)
        ensures
            final(self)@ == old(self)@.replaced(entry@, status@),
            old(self)@.wf() ==> final(self)@.wf(),
    {
        if self.selected < self.entries.len() {
            let ghost before = entry_views(self.entries@);
            self.entries[self.selected] = entry;
            assert(entry_views(self.entries@) =~= before.update(self.selected as int, entry@));
            self.status_message = Some(String::from_str(status));
        }
    }
}

} // verus!
