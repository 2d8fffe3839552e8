//! The transition table of the session: what each key leads to in each
//! phase, and what the session goes on with once outside work is done.
//!
//! Everything here is stated over plain values. What a step draws at
//! random is an argument of the table, so the table itself is a function.

use crate::app::{erase, lemma_draw_exists, AppView, ViewMode};
use crate::cipher::NONCE_LEN;
use crate::error::{IoFault, VaultError};
use crate::session::{
    ChangeStep, ChangeView, CopyOutcome, Key, PendingWriteView, PhaseView, SessionView, StepView,
};
use crate::storage::{
    delete_outcome, file_entries, kept_salt, opened_store, rotate_outcome, save_outcome,
    update_outcome, written, EntryView, StorageView, VaultFile, SALT_LEN,
};
use crate::text::is_blank;
use crate::codec::small;
use crate::viewer::ViewerView;
use vstd::prelude::*;

verus! {

/// What chance decides in one step: the salt and the nonce that are drawn,
/// and the password that is generated. A step uses those it needs.
pub struct Chance {
    pub salt: Seq<u8>,
    pub nonce: Seq<u8>,
    pub password: Seq<char>,
}

impl Chance {
    /// Whether these are possible draws for a session: a salt of sixteen
    /// bytes, a nonce of twelve, a password that the form's request allows.
    pub open spec fn fits(self, session: SessionView) -> bool {
        &&& self.salt.len() == SALT_LEN
        &&& self.nonce.len() == NONCE_LEN
        &&& session.app.valid_draw(self.password)
    }
}

impl SessionView {
    /// The session as it starts out: the master passphrase is asked for.
    pub open spec fn initial(vault_path: Seq<char>) -> SessionView {
        SessionView {
            vault_path,
            app: AppView::initial(),
            phase: PhaseView::MasterPassword,
            master_input: Seq::empty(),
            new_password: Seq::empty(),
            confirm_password: Seq::empty(),
            storage: None,
        }
    }

    /// What every session that starts from the initial one keeps: past the
    /// first phase the vault is open; the viewer's selection is the index
    /// of an entry, unless the list is empty, and outside of browsing it is
    /// always on an entry.
    pub open spec fn wf(self) -> bool {
        &&& self.phase is MasterPassword || self.storage is Some
        &&& self.phase matches PhaseView::ViewPasswords { mode, state } ==> state.wf() && (mode
            != ViewMode::Browse ==> state.has_selection())
    }

    /// Whether the viewer browses with the selection on an entry.
    pub open spec fn browsing_selection(self) -> bool {
        match self.phase {
            PhaseView::ViewPasswords { mode, state } => mode == ViewMode::Browse
                && state.has_selection(),
            _ => false,
        }
    }

    /// The index that the viewer has selected; zero where no viewer is open.
    pub open spec fn selection(self) -> int {
        match self.phase {
            PhaseView::ViewPasswords { state, .. } => state.selected,
            _ => 0,
        }
    }

    /// The session with another form.
    pub open spec fn with_app(self, app: AppView) -> SessionView {
        SessionView { app, ..self }
    }

    /// The session with the form's error line set.
    pub open spec fn with_error(self, error: Seq<char>) -> SessionView {
        SessionView { app: self.app.with_error(Some(error)), ..self }
    }

    /// The session in another phase.
    pub open spec fn in_phase(self, phase: PhaseView) -> SessionView {
        SessionView { phase, ..self }
    }

    /// The session with the three passphrase inputs emptied.
    pub open spec fn inputs_cleared(self) -> SessionView {
        SessionView {
            master_input: Seq::empty(),
            new_password: Seq::empty(),
            confirm_password: Seq::empty(),
            ..self
        }
    }

    /// The session after the vault was opened, or failed to open, with the
    /// passphrase typed at the start.
    pub open spec fn unlocked(self, opened: Result<StorageView, VaultError>) -> SessionView {
        match opened {
            Ok(store) => SessionView {
                storage: Some(store),
                phase: PhaseView::Main,
                master_input: Seq::empty(),
                ..self
            },
            Err(fault) => SessionView {
                app: self.app.with_error(Some(fault.spec_message())),
                master_input: Seq::empty(),
                ..self
            },
        }
    }

    /// The session at the first step of a change of the master passphrase.
    pub open spec fn rotation_started(self) -> SessionView {
        SessionView {
            phase: PhaseView::ChangeMasterPassword { step: ChangeStep::EnterOld },
            app: self.app.with_error(None).with_status(None),
            ..self.inputs_cleared()
        }
    }

    /// The session after the viewer was asked for: the viewer opens on the
    /// entries of the vault, or the form shows why they could not be loaded.
    pub open spec fn viewer_opened(self, file: VaultFile) -> SessionView {
        match self.storage {
            Some(store) => match file_entries(file, store.key) {
                Ok(entries) => SessionView {
                    phase: PhaseView::ViewPasswords {
                        mode: ViewMode::Browse,
                        state: ViewerView::opening(entries),
                    },
                    app: self.app.with_error(None),
                    ..self
                },
                Err(fault) => self.with_error("Failed to load: "@ + fault.spec_message()),
            },
            None => self,
        }
    }

    /// The step after the form was committed: a password is generated and,
    /// if that succeeds, saved to the vault under the form's name, stamped
    /// with the time `now`.
    pub open spec fn committed(self, file: VaultFile, now: Seq<char>, chance: Chance) -> StepView {
        let generated = self.with_app(self.app.generated_with(chance.password));
        match (generated.app.entry(now), self.storage) {
            (Some(entry), Some(store)) => match save_outcome(file, store, entry, chance.nonce) {
                Ok(content) => StepView::Write {
                    content,
                    pending: PendingWriteView {
                        session: generated,
                        change: ChangeView::Saved(entry),
                    },
                },
                Err(fault) => StepView::Continue(
                    generated.with_error("Save failed: "@ + fault.spec_message()),
                ),
            },
            _ => StepView::Continue(generated),
        }
    }

    /// The passphrase input of a step of the change.
    pub open spec fn rotation_input(self, step: ChangeStep) -> Seq<char> {
        match step {
            ChangeStep::EnterOld => self.master_input,
            ChangeStep::EnterNew => self.new_password,
            ChangeStep::ConfirmNew => self.confirm_password,
        }
    }

    /// The session with the passphrase input of a step set.
    pub open spec fn with_rotation_input(self, step: ChangeStep, input: Seq<char>) -> SessionView {
        match step {
            ChangeStep::EnterOld => SessionView { master_input: input, ..self },
            ChangeStep::EnterNew => SessionView { new_password: input, ..self },
            ChangeStep::ConfirmNew => SessionView { confirm_password: input, ..self },
        }
    }

    /// The step after the current passphrase was submitted: the vault is
    /// opened with it, and the change moves on to the new passphrase.
    pub open spec fn old_submitted(self, file: VaultFile, chance: Chance) -> SessionView {
        match opened_store(file, self.vault_path, self.master_input, chance.salt) {
            Ok(store) => SessionView {
                storage: Some(store),
                phase: PhaseView::ChangeMasterPassword { step: ChangeStep::EnterNew },
                app: self.app.with_error(None),
                ..self
            },
            Err(fault) => SessionView {
                app: self.app.with_error(Some(fault.spec_message())),
                master_input: Seq::empty(),
                ..self
            },
        }
    }

    /// The step after the new passphrase was submitted: an empty one is
    /// refused.
    pub open spec fn new_submitted(self) -> SessionView {
        if self.new_password.len() == 0 {
            self.with_error("Password cannot be empty"@)
        } else {
            SessionView {
                phase: PhaseView::ChangeMasterPassword { step: ChangeStep::ConfirmNew },
                app: self.app.with_error(None),
                ..self
            }
        }
    }

    /// The step after the confirmation was submitted: a mismatch is
    /// refused; otherwise the vault is sealed again under the new
    /// passphrase.
    pub open spec fn confirm_submitted(self, file: VaultFile, chance: Chance) -> StepView {
        if self.confirm_password != self.new_password {
            StepView::Continue(
                SessionView {
                    confirm_password: Seq::empty(),
                    ..self.with_error("Passwords don't match"@)
                },
            )
        } else {
            match self.storage {
                Some(store) => match rotate_outcome(
                    file,
                    store,
                    self.new_password,
                    chance.salt,
                    chance.nonce,
                ) {
                    Ok((rotated, content)) => StepView::Write {
                        content,
                        pending: PendingWriteView {
                            session: self,
                            change: ChangeView::Rotated(rotated),
                        },
                    },
                    Err(fault) => StepView::Continue(
                        self.with_error("Failed: "@ + fault.spec_message()),
                    ),
                },
                None => StepView::Continue(self),
            }
        }
    }

    /// The session with the viewer in a mode and a state.
    pub open spec fn viewing(self, mode: ViewMode, state: ViewerView) -> SessionView {
        SessionView { phase: PhaseView::ViewPasswords { mode, state }, ..self }
    }
}

/// The step that a key leads to while the master passphrase is asked for.
pub open spec fn unlock_step(pre: SessionView, key: Key, file: VaultFile, chance: Chance) -> StepView {
    match key {
        Key::Esc => StepView::Quit,
        Key::Enter => if pre.master_input.len() == 0 {
            StepView::Continue(pre)
        } else {
            StepView::Continue(
                pre.unlocked(opened_store(file, pre.vault_path, pre.master_input, chance.salt)),
            )
        },
        Key::Backspace => StepView::Continue(
            SessionView { master_input: erase(pre.master_input), ..pre },
        ),
        Key::Char(c) => StepView::Continue(
            SessionView { master_input: pre.master_input.push(c), ..pre },
        ),
        _ => StepView::Continue(pre),
    }
}

/// The step that a key leads to in the main menu.
pub open spec fn main_step(
    pre: SessionView,
    key: Key,
    file: VaultFile,
    now: Seq<char>,
    chance: Chance,
) -> StepView {
    match key {
        Key::Esc => StepView::Quit,
        Key::Char(c) => if c == 'q' {
            StepView::Quit
        } else if c == 'c' {
            StepView::Continue(pre.rotation_started())
        } else if c == 'v' {
            StepView::Continue(pre.viewer_opened(file))
        } else if c == ' ' {
            StepView::Continue(pre.with_app(pre.app.toggled_with(chance.password)))
        } else {
            StepView::Continue(pre.with_app(pre.app.typed(c)))
        },
        Key::Tab | Key::Down => StepView::Continue(
            pre.with_app(pre.app.with_field(pre.app.active_field.spec_next())),
        ),
        Key::BackTab | Key::Up => StepView::Continue(
            pre.with_app(pre.app.with_field(pre.app.active_field.spec_prev())),
        ),
        Key::Enter => pre.committed(file, now, chance),
        Key::Backspace => StepView::Continue(pre.with_app(pre.app.erased())),
        Key::Other => StepView::Continue(pre),
    }
}

/// The step that a key leads to during a change of the master passphrase.
pub open spec fn rotation_step(
    pre: SessionView,
    step: ChangeStep,
    key: Key,
    file: VaultFile,
    chance: Chance,
) -> StepView {
    match key {
        Key::Esc => StepView::Continue(
            SessionView {
                phase: PhaseView::Main,
                app: pre.app.with_error(None),
                ..pre.inputs_cleared()
            },
        ),
        Key::Enter => match step {
            ChangeStep::EnterOld => StepView::Continue(pre.old_submitted(file, chance)),
            ChangeStep::EnterNew => StepView::Continue(pre.new_submitted()),
            ChangeStep::ConfirmNew => pre.confirm_submitted(file, chance),
        },
        Key::Backspace => StepView::Continue(
            pre.with_rotation_input(step, erase(pre.rotation_input(step))),
        ),
        Key::Char(c) => StepView::Continue(
            pre.with_rotation_input(step, pre.rotation_input(step).push(c)),
        ),
        _ => StepView::Continue(pre),
    }
}

/// The step that a key leads to while the viewer browses.
pub open spec fn browse_step(pre: SessionView, state: ViewerView, key: Key) -> StepView {
    let browsing = |next: ViewerView| StepView::Continue(pre.viewing(ViewMode::Browse, next));
    match key {
        Key::Esc => StepView::Continue(pre.in_phase(PhaseView::Main)),
        Key::Up => browsing(state.moved_up()),
        Key::Down => browsing(state.moved_down()),
        Key::Enter => browsing(state.reveal_toggled()),
        Key::Char(c) => if c == 'q' {
            StepView::Continue(pre.in_phase(PhaseView::Main))
        } else if c == 'k' {
            browsing(state.moved_up())
        } else if c == 'j' {
            browsing(state.moved_down())
        } else if c == ' ' {
            browsing(state.reveal_toggled())
        } else if c == 'r' {
            browsing(state.all_revealed())
        } else if c == 'H' {
            browsing(state.all_hidden())
        } else if c == 'y' {
            if state.has_selection() {
                StepView::Copy { text: state.entries[state.selected].password, pending: pre }
            } else {
                StepView::Continue(pre)
            }
        } else if c == 'd' {
            if state.has_selection() {
                StepView::Continue(pre.viewing(ViewMode::ConfirmDelete, state))
            } else {
                StepView::Continue(pre)
            }
        } else if c == 'e' {
            if state.has_selection() {
                StepView::Continue(pre.viewing(ViewMode::EditName, state.editing_name()))
            } else {
                StepView::Continue(pre)
            }
        } else if c == 'p' {
            if state.has_selection() {
                StepView::Continue(pre.viewing(ViewMode::EditPassword, state.editing_password()))
            } else {
                StepView::Continue(pre)
            }
        } else {
            StepView::Continue(pre)
        },
        _ => StepView::Continue(pre),
    }
}

/// The step after a delete was confirmed: the vault deletes the selected
/// entry, or the viewer shows why it could not.
pub open spec fn delete_confirmed(
    pre: SessionView,
    state: ViewerView,
    file: VaultFile,
    chance: Chance,
) -> StepView {
    let browsing = pre.viewing(ViewMode::Browse, state);
    match pre.storage {
        Some(store) => match delete_outcome(file, store, state.selected, chance.nonce) {
            Ok(content) => StepView::Write {
                content,
                pending: PendingWriteView { session: browsing, change: ChangeView::Deleted },
            },
            Err(fault) => StepView::Continue(
                pre.viewing(
                    ViewMode::Browse,
                    state.with_status(Some("✗ "@ + fault.spec_message())),
                ),
            ),
        },
        None => StepView::Continue(browsing),
    }
}

/// The step that a key leads to while the viewer asks whether to delete.
pub open spec fn confirm_delete_step(
    pre: SessionView,
    state: ViewerView,
    key: Key,
    file: VaultFile,
    chance: Chance,
) -> StepView {
    let declined = StepView::Continue(pre.viewing(ViewMode::Browse, state.with_status(None)));
    match key {
        Key::Enter => delete_confirmed(pre, state, file, chance),
        Key::Esc => declined,
        Key::Char(c) => if c == 'y' {
            delete_confirmed(pre, state, file, chance)
        } else if c == 'n' {
            declined
        } else {
            StepView::Continue(pre)
        },
        _ => StepView::Continue(pre),
    }
}

/// Whether the edit buffer may be committed in a mode: a name must not be
/// blank, a password must not be empty.
pub open spec fn committable(mode: ViewMode, buffer: Seq<char>) -> bool {
    match mode {
        ViewMode::EditName => !is_blank(buffer),
        _ => buffer.len() > 0,
    }
}

/// The entry that committing the edit buffer asks the vault to store.
pub open spec fn edited_entry(mode: ViewMode, state: ViewerView) -> EntryView {
    match mode {
        ViewMode::EditName => state.renamed_entry(),
        _ => state.repassworded_entry(),
    }
}

/// The change that committing the edit buffer leaves pending.
pub open spec fn edit_change(mode: ViewMode, entry: EntryView) -> ChangeView {
    match mode {
        ViewMode::EditName => ChangeView::Renamed(entry),
        _ => ChangeView::Repassworded(entry),
    }
}

/// The step after an edit was committed: the vault replaces the selected
/// entry, or the viewer shows why it could not. The edit ends either way.
pub open spec fn edit_committed(
    pre: SessionView,
    mode: ViewMode,
    state: ViewerView,
    file: VaultFile,
    chance: Chance,
) -> StepView {
    let closed = state.edit_closed();
    let browsing = pre.viewing(ViewMode::Browse, closed);
    match pre.storage {
        Some(store) => if committable(mode, state.edit_buffer) && state.has_selection() {
            let entry = edited_entry(mode, state);
            match update_outcome(file, store, state.selected, entry, chance.nonce) {
                Ok(content) => StepView::Write {
                    content,
                    pending: PendingWriteView {
                        session: browsing,
                        change: edit_change(mode, entry),
                    },
                },
                Err(fault) => StepView::Continue(
                    pre.viewing(
                        ViewMode::Browse,
                        closed.with_status(Some("✗ "@ + fault.spec_message())),
                    ),
                ),
            }
        } else {
            StepView::Continue(browsing)
        },
        None => StepView::Continue(browsing),
    }
}

/// The step that a key leads to while the viewer edits a name or a
/// password.
pub open spec fn edit_step(
    pre: SessionView,
    mode: ViewMode,
    state: ViewerView,
    key: Key,
    file: VaultFile,
    chance: Chance,
) -> StepView {
    match key {
        Key::Esc => StepView::Continue(
            pre.viewing(ViewMode::Browse, state.edit_closed().with_status(None)),
        ),
        Key::Enter => edit_committed(pre, mode, state, file, chance),
        Key::Backspace => StepView::Continue(pre.viewing(mode, state.erased())),
        Key::Char(c) => StepView::Continue(pre.viewing(mode, state.typed(c))),
        _ => StepView::Continue(pre),
    }
}

/// The step that a key leads to in the viewer.
pub open spec fn viewer_step(
    pre: SessionView,
    mode: ViewMode,
    state: ViewerView,
    key: Key,
    file: VaultFile,
    chance: Chance,
) -> StepView {
    match mode {
        ViewMode::Browse => browse_step(pre, state, key),
        ViewMode::ConfirmDelete => confirm_delete_step(pre, state, key, file, chance),
        _ => edit_step(pre, mode, state, key, file, chance),
    }
}

/// The step that a key leads to: the transition table of the session.
///
/// `file` is what the vault file holds when the key is pressed, `now` the
/// time as decimal seconds, and `chance` what is drawn at random in the
/// step.
pub open spec fn step(
    pre: SessionView,
    key: Key,
    file: VaultFile,
    now: Seq<char>,
    chance: Chance,
) -> StepView {
    match pre.phase {
        PhaseView::MasterPassword => unlock_step(pre, key, file, chance),
        PhaseView::Main => main_step(pre, key, file, now, chance),
        PhaseView::ChangeMasterPassword { step } => rotation_step(pre, step, key, file, chance),
        PhaseView::ViewPasswords { mode, state } => viewer_step(pre, mode, state, key, file, chance),
    }
}

/// The session that a pending write goes on with, once the file was
/// written or failed to be. Only a write that succeeded changes what the
/// session holds; one that failed leaves a message.
pub open spec fn write_finished(pending: PendingWriteView, written: bool) -> SessionView {
    let session = pending.session;
    let failure = VaultError::Io(IoFault::Write).spec_message();
    match pending.change {
        ChangeView::Saved(_) => match session.storage {
            Some(store) => if written {
                session.with_app(session.app.with_status(Some("✓ Saved to "@ + store.path)))
            } else {
                session.with_error("Save failed: "@ + failure)
            },
            None => session,
        },
        ChangeView::Rotated(rotated) => if written {
            SessionView {
                storage: Some(rotated),
                phase: PhaseView::Main,
                app: session.app.with_status(Some("✓ Master password changed!"@)).with_error(None),
                ..session.inputs_cleared()
            }
        } else {
            session.with_error("Failed: "@ + failure)
        },
        ChangeView::Deleted => match session.phase {
            PhaseView::ViewPasswords { mode, state } => if written {
                session.viewing(mode, state.deleted())
            } else {
                session.viewing(mode, state.with_status(Some("✗ "@ + failure)))
            },
            _ => session,
        },
        ChangeView::Renamed(entry) => match session.phase {
            PhaseView::ViewPasswords { mode, state } => if written {
                session.viewing(mode, state.replaced(entry, "✓ Name updated!"@))
            } else {
                session.viewing(mode, state.with_status(Some("✗ "@ + failure)))
            },
            _ => session,
        },
        ChangeView::Repassworded(entry) => match session.phase {
            PhaseView::ViewPasswords { mode, state } => if written {
                session.viewing(mode, state.replaced(entry, "✓ Password updated!"@))
            } else {
                session.viewing(mode, state.with_status(Some("✗ "@ + failure)))
            },
            _ => session,
        },
    }
}

/// The text that the viewer shows for the outcome of a copy.
pub open spec fn copy_status(outcome: CopyOutcome) -> Seq<char> {
    match outcome {
        CopyOutcome::Copied => "✓ Copied to clipboard!"@,
        CopyOutcome::Failed => "✗ Failed to copy"@,
        CopyOutcome::Unavailable => "✗ Clipboard unavailable"@,
    }
}

/// The session that a pending copy goes on with.
pub open spec fn copy_finished(session: SessionView, outcome: CopyOutcome) -> SessionView {
    match session.phase {
        PhaseView::ViewPasswords { mode, state } => session.viewing(
            mode,
            state.with_status(Some(copy_status(outcome))),
        ),
        _ => session,
    }
}

impl PendingWriteView {
    /// What every pending write that a step makes keeps: the session is
    /// well formed, and a change to the selected entry waits in a browsing
    /// viewer with the selection on an entry.
    pub open spec fn wf(self) -> bool {
        &&& self.session.wf()
        &&& self.change is Deleted || self.change is Renamed || self.change is Repassworded
            ==> self.session.browsing_selection()
    }
}

/// The entries that the vault holds once a change is written, given those
/// that it held before and the index that the viewer has selected.
pub open spec fn vault_after(change: ChangeView, selected: int, before: Seq<EntryView>) -> Seq<
    EntryView,
> {
    match change {
        ChangeView::Saved(entry) => before.push(entry),
        ChangeView::Deleted => before.remove(selected),
        ChangeView::Renamed(entry) => before.update(selected, entry),
        ChangeView::Repassworded(entry) => before.update(selected, entry),
        ChangeView::Rotated(_) => before,
    }
}

/// Whether the text that a step asks to write is the vault with the
/// pending change made to it: the file loaded when the key was pressed, and
/// the text loads to the entries it held with the one change made. After a
/// change of the master passphrase it does so under the new key, which the
/// new passphrase derives from the salt in the text; otherwise under the
/// session's key, with the salt kept.
pub open spec fn write_keeps_vault(pre: SessionView, file: VaultFile, step: StepView) -> bool {
    step matches StepView::Write { content, pending } ==> {
        &&& pre.storage matches Some(store)
        &&& file_entries(file, store.key) matches Ok(before)
        &&& {
            let after = vault_after(pending.change, pending.session.selection(), before);
            match pending.change {
                ChangeView::Rotated(rotated) => rotated.opens_with(pre.new_password) && written(
                    rotated.salt,
                    rotated.key,
                    after,
                    content,
                ),
                _ => written(kept_salt(file, store.salt), store.key, after, content),
            }
        }
    }
}

/// Whether a step asks for the write that it owes. Where the vault loads
/// and what it is to hold is small for sure, a confirmed delete, a
/// committed edit and a confirmed new passphrase each ask for the vault to
/// be written; and a granted request is saved, unless the vault with the
/// new entry is not small.
pub open spec fn write_is_owed(
    pre: SessionView,
    key: Key,
    file: VaultFile,
    now: Seq<char>,
    step: StepView,
) -> bool {
    pre.storage is Some && file_entries(file, pre.storage->0.key) is Ok ==> {
        let before = file_entries(file, pre.storage->0.key)->Ok_0;
        match pre.phase {
            PhaseView::MasterPassword => true,
            PhaseView::Main => key == Key::Enter && pre.app.request() is Ok ==> step is Write || (
            step is Continue && step->Continue_0.app.entry(now) is Some && !small(
                before.push(step->Continue_0.app.entry(now)->0),
            )),
            PhaseView::ChangeMasterPassword { step: at } => key == Key::Enter && at
                == ChangeStep::ConfirmNew && pre.confirm_password == pre.new_password && small(
                before,
            ) ==> step is Write,
            PhaseView::ViewPasswords { mode, state } => match mode {
                ViewMode::Browse => true,
                ViewMode::ConfirmDelete => (key == Key::Enter || key == Key::Char('y')) && 0
                    <= state.selected < before.len() && small(before.remove(state.selected))
                    ==> step is Write,
                _ => key == Key::Enter && committable(mode, state.edit_buffer) && 0
                    <= state.selected < before.len() && state.has_selection() && small(
                    before.update(state.selected, edited_entry(mode, state)),
                ) ==> step is Write,
            },
        }
    }
}

/// Whether the session that a step leads to, or waits with, is well formed.
pub open spec fn step_wf(step: StepView) -> bool {
    match step {
        StepView::Continue(session) => session.wf(),
        StepView::Quit => true,
        StepView::Write { pending, .. } => pending.wf(),
        StepView::Copy { pending, .. } => pending.wf(),
    }
}

/// Whether a key, in a session, asks what the vault file holds. Every other
/// step is the same whatever the file holds: the file need not be read for
/// it.
pub open spec fn reads_vault(pre: SessionView, key: Key) -> bool {
    match pre.phase {
        PhaseView::MasterPassword => key == Key::Enter && pre.master_input.len() > 0,
        PhaseView::Main => pre.storage is Some && (key == Key::Char('v') || (key == Key::Enter
            && pre.app.request() is Ok)),
        PhaseView::ChangeMasterPassword { step } => key == Key::Enter && (step
            == ChangeStep::EnterOld || (step == ChangeStep::ConfirmNew && pre.storage is Some
            && pre.confirm_password == pre.new_password)),
        PhaseView::ViewPasswords { mode, state } => pre.storage is Some && match mode {
            ViewMode::Browse => false,
            ViewMode::ConfirmDelete => key == Key::Enter || key == Key::Char('y'),
            _ => key == Key::Enter && committable(mode, state.edit_buffer)
                && state.has_selection(),
        },
    }
}

/// A step that does not ask for the vault file does not depend on it.
pub proof fn lemma_step_reads_vault_only_then(
    pre: SessionView,
    key: Key,
    file: VaultFile,
    other: VaultFile,
    now: Seq<char>,
    chance: Chance,
)
    requires
        !reads_vault(pre, key),
    ensures
        step(pre, key, file, now, chance) == step(pre, key, other, now, chance),
{
}

/// The step of a change that follows a step; the last one has none.
pub open spec fn following(step: ChangeStep) -> ChangeStep {
    match step {
        ChangeStep::EnterOld => ChangeStep::EnterNew,
        ChangeStep::EnterNew => ChangeStep::ConfirmNew,
        ChangeStep::ConfirmNew => ChangeStep::ConfirmNew,
    }
}

/// The phase that a step leaves the session in; `None` where the session
/// ends. While outside work is pending it is the phase of the waiting
/// session.
pub open spec fn phase_after(step: StepView) -> Option<PhaseView> {
    match step {
        StepView::Continue(session) => Some(session.phase),
        StepView::Quit => None,
        StepView::Write { pending, .. } => Some(pending.session.phase),
        StepView::Copy { pending, .. } => Some(pending.phase),
    }
}

/// A change of the master passphrase goes through its steps in order: a
/// key leaves the step as it is or moves it one on, never back and never
/// past one; the only key that leaves the change is escape, for the main
/// menu; and only the last step asks for the vault to be written.
pub proof fn lemma_rotation_is_linear(
    pre: SessionView,
    at: ChangeStep,
    key: Key,
    file: VaultFile,
    now: Seq<char>,
    chance: Chance,
)
    requires
        pre.phase == (PhaseView::ChangeMasterPassword { step: at }),
    ensures
        ({
            let next = step(pre, key, file, now, chance);
            &&& phase_after(next) matches Some(phase) && (if key == Key::Esc {
                phase == PhaseView::Main
            } else {
                phase == pre.phase || phase == (PhaseView::ChangeMasterPassword {
                    step: following(at),
                })
            })
            &&& next is Write ==> at == ChangeStep::ConfirmNew && key == Key::Enter
            &&& !(next is Copy)
        }),
{
}

/// The phases follow one another as the session's table says: from the
/// start only to the main menu; from the main menu to a change of the
/// passphrase at its first step, or to the viewer in browsing mode; from
/// those two only back to the main menu. The session ends only at the
/// start or in the main menu.
pub proof fn lemma_phase_order(
    pre: SessionView,
    key: Key,
    file: VaultFile,
    now: Seq<char>,
    chance: Chance,
)
    ensures
        ({
            let after = phase_after(step(pre, key, file, now, chance));
            match pre.phase {
                PhaseView::MasterPassword => after is None || after == Some(pre.phase) || after
                    == Some(PhaseView::Main),
                PhaseView::Main => after is None || after == Some(pre.phase) || after == Some(
                    PhaseView::ChangeMasterPassword { step: ChangeStep::EnterOld },
                ) || (after matches Some(PhaseView::ViewPasswords { mode, .. }) && mode
                    == ViewMode::Browse),
                PhaseView::ChangeMasterPassword { .. } => after == Some(PhaseView::Main)
                    || after matches Some(PhaseView::ChangeMasterPassword { .. }),
                PhaseView::ViewPasswords { .. } => after == Some(PhaseView::Main)
                    || after matches Some(PhaseView::ViewPasswords { .. }),
            }
        }),
{
}

/// Outside work that is done leaves the session in the phase it waited in,
/// the viewer in its mode, with one exception: once the vault is written
/// under a new master passphrase, the change is over and the session is in
/// the main menu.
pub proof fn lemma_finish_keeps_phase(
    pending: PendingWriteView,
    written: bool,
    waiting: SessionView,
    outcome: CopyOutcome,
)
    ensures
        ({
            let before = pending.session.phase;
            let after = write_finished(pending, written).phase;
            if pending.change is Rotated && written {
                after == PhaseView::Main
            } else {
                match before {
                    PhaseView::ViewPasswords { mode, .. } => after matches PhaseView::ViewPasswords {
                        mode: kept,
                        ..
                    } && kept == mode,
                    _ => after == before,
                }
            }
        }),
        match waiting.phase {
            PhaseView::ViewPasswords { mode, .. } => copy_finished(waiting, outcome).phase
                matches PhaseView::ViewPasswords { mode: kept, .. } && kept == mode,
            _ => copy_finished(waiting, outcome) == waiting,
        },
{
}

/// The viewer stays in step with the vault: where its snapshot is what the
/// vault file holds when a delete or an edit is committed, then once the
/// requested text is written, the snapshot is again what the file holds.
pub proof fn lemma_viewer_follows_vault(
    pre: SessionView,
    key: Key,
    file: VaultFile,
    now: Seq<char>,
    chance: Chance,
    after: VaultFile,
)
    requires
        pre.wf(),
        pre.phase matches PhaseView::ViewPasswords { state, .. } && pre.storage matches Some(store)
            && file_entries(file, store.key) == Ok::<Seq<EntryView>, VaultError>(state.entries),
        step(pre, key, file, now, chance) matches StepView::Write { content, .. }
            && after matches VaultFile::Present(text) && text@ == content,
        write_keeps_vault(pre, file, step(pre, key, file, now, chance)),
    ensures
        step(pre, key, file, now, chance) matches StepView::Write { pending, .. } && ({
            let done = write_finished(pending, true);
            &&& done.wf()
            &&& done.storage == pre.storage
            &&& done.phase matches PhaseView::ViewPasswords { state, .. } && file_entries(
                after,
                done.storage->0.key,
            ) == Ok::<Seq<EntryView>, VaultError>(state.entries)
        }),
{
}

/// Confirming the delete of the only entry asks for a vault without it to
/// be written; once it is written the viewer browses an empty list, with
/// the selection at zero and nothing revealed, and the vault file holds no
/// entry. Where the write fails the viewer keeps its entries.
pub proof fn lemma_delete_of_only_entry(
    pre: SessionView,
    key: Key,
    file: VaultFile,
    now: Seq<char>,
    chance: Chance,
    after: VaultFile,
)
    requires
        key == Key::Enter || key == Key::Char('y'),
        pre.storage matches Some(store) && pre.phase matches PhaseView::ViewPasswords {
            mode,
            state,
        } && mode == ViewMode::ConfirmDelete && state.entries.len() == 1 && state.selected == 0
            && file_entries(file, store.key) == Ok::<Seq<EntryView>, VaultError>(state.entries),
        write_is_owed(pre, key, file, now, step(pre, key, file, now, chance)),
        write_keeps_vault(pre, file, step(pre, key, file, now, chance)),
        step(pre, key, file, now, chance) matches StepView::Write { content, .. } ==> after
            matches VaultFile::Present(text) && text@ == content,
    ensures
        step(pre, key, file, now, chance) matches StepView::Write { pending, .. } && ({
            let done = write_finished(pending, true);
            &&& pending.change is Deleted
            &&& done.phase matches PhaseView::ViewPasswords { mode, state } && mode
                == ViewMode::Browse && state.entries.len() == 0 && state.selected == 0
                && state.revealed == Set::<usize>::empty()
            &&& file_entries(after, pre.storage->0.key) == Ok::<Seq<EntryView>, VaultError>(
                Seq::<EntryView>::empty(),
            )
            &&& write_finished(pending, false).phase matches PhaseView::ViewPasswords {
                state: kept,
                ..
            } && kept.entries == pre.phase->ViewPasswords_state.entries
        }),
{
    let state = pre.phase->ViewPasswords_state;
    assert(state.entries.remove(0) =~= Seq::<EntryView>::empty());
    assert(small(Seq::<EntryView>::empty()));
}

/// Draws that fit a session, for the steps that draw nothing.
pub open spec fn some_chance(session: SessionView) -> Chance {
    Chance {
        salt: Seq::new(SALT_LEN as nat, |i: int| 0u8),
        nonce: Seq::new(NONCE_LEN as nat, |i: int| 0u8),
        password: choose|password: Seq<char>| session.app.valid_draw(password),
    }
}

/// For every session there are draws that fit it.
pub proof fn lemma_some_chance_fits(session: SessionView)
    ensures
        some_chance(session).fits(session),
{
    lemma_draw_exists(session.app);
}

} // verus!
