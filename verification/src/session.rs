//! The interactive session: one phase at a time, one key at a time.
//!
//! A session is a value. A key press turns it into the next one, or into a
//! request for outside work: to write the vault file, or to put a password
//! on the clipboard. The caller does that work and reports how it went,
//! which gives the next session. The session never touches the filesystem,
//! the clipboard or the clock itself; it is told what the vault file holds
//! and what time it is.

use crate::app::{App, AppView, ViewMode};
use crate::cipher::NONCE_LEN;
use crate::error::{IoFault, VaultError};
use crate::storage::{
    delete_outcome, opened_store, rotate_outcome, save_outcome, update_outcome, EntryView,
    PasswordEntry, Storage, StorageView, VaultFile, SALT_LEN,
};
use crate::text::blank;
use crate::transitions::{
    reads_vault, write_is_owed, confirm_delete_step, copy_finished, edit_step, browse_step, lemma_some_chance_fits, main_step,
    rotation_step, some_chance, step, step_wf, unlock_step, write_finished, write_keeps_vault,
    Chance,
};
use crate::viewer::{ViewerState, ViewerView};
use vstd::prelude::*;
use vstd::string::StringExecFns;

verus! {

/// A key press, as far as the session tells keys apart.
#[derive(Clone, Copy, Debug, PartialEq, Eq, Structural)]
pub enum Key {
    Esc,
    Enter,
    Backspace,
    Tab,
    BackTab,
    Up,
    Down,
    Char(char),
    /// Any other key.
    Other,
}

/// The steps of a change of the master passphrase, in order.
#[derive(Clone, Copy, Debug, PartialEq, Eq, Structural)]
pub enum ChangeStep {
    EnterOld,
    EnterNew,
    ConfirmNew,
}

/// Application phase. The viewer's snapshot lives inside its phase, and is
/// gone with it.
pub enum Phase {
    MasterPassword,
    Main,
    ChangeMasterPassword { step: ChangeStep },
    ViewPasswords { mode: ViewMode, state: ViewerState },
}

/// A phase, as plain values.
pub enum PhaseView {
    MasterPassword,
    Main,
    ChangeMasterPassword { step: ChangeStep },
    ViewPasswords { mode: ViewMode, state: ViewerView },
}

impl View for Phase {
    type V = PhaseView;

    open spec fn view(&self) -> PhaseView {
        match self {
            Phase::MasterPassword => PhaseView::MasterPassword,
            Phase::Main => PhaseView::Main,
            Phase::ChangeMasterPassword { step } => PhaseView::ChangeMasterPassword { step: *step },
            Phase::ViewPasswords { mode, state } => PhaseView::ViewPasswords {
                mode: *mode,
                state: state@,
            },
        }
    }
}

/// The whole state of a session.
pub struct Session {
    /// The place of the vault file.
    pub vault_path: String,
    /// The generator form.
    pub app: App,
    pub phase: Phase,
    /// The passphrase being typed: the master passphrase at the start, the
    /// current one at the first step of a change.
    pub master_input: String,
    /// The new passphrase of a change.
    pub new_password: String,
    /// The confirmation of the new passphrase.
    pub confirm_password: String,
    /// The open vault, once the master passphrase was entered.
    pub storage: Option<Storage>,
}

/// A session, as plain values.
pub struct SessionView {
    pub vault_path: Seq<char>,
    pub app: AppView,
    pub phase: PhaseView,
    pub master_input: Seq<char>,
    pub new_password: Seq<char>,
    pub confirm_password: Seq<char>,
    pub storage: Option<StorageView>,
}

/// The store of an optional store.
pub open spec fn store_of_option(storage: Option<Storage>) -> Option<StorageView> {
    match storage {
        Some(store) => Some(store@),
        None => None,
    }
}

impl View for Session {
    type V = SessionView;

    open spec fn view(&self) -> SessionView {
        SessionView {
            vault_path: self.vault_path@,
            app: self.app@,
            phase: self.phase@,
            master_input: self.master_input@,
            new_password: self.new_password@,
            confirm_password: self.confirm_password@,
            storage: store_of_option(self.storage),
        }
    }
}

/// What is to be done to the session once the vault file is written.
pub enum Change {
    /// This generated entry was saved.
    Saved(PasswordEntry),
    /// The selected entry was deleted.
    Deleted,
    /// The selected entry got this new name.
    Renamed(PasswordEntry),
    /// The selected entry got this new password.
    Repassworded(PasswordEntry),
    /// The master passphrase was changed; this is the store of the new key.
    Rotated(Storage),
}

/// A change, as plain values.
pub enum ChangeView {
    Saved(EntryView),
    Deleted,
    Renamed(EntryView),
    Repassworded(EntryView),
    Rotated(StorageView),
}

impl View for Change {
    type V = ChangeView;

    open spec fn view(&self) -> ChangeView {
        match self {
            Change::Saved(entry) => ChangeView::Saved(entry@),
            Change::Deleted => ChangeView::Deleted,
            Change::Renamed(entry) => ChangeView::Renamed(entry@),
            Change::Repassworded(entry) => ChangeView::Repassworded(entry@),
            Change::Rotated(store) => ChangeView::Rotated(store@),
        }
    }
}

/// A session that waits for the vault file to be written.
pub struct PendingWrite {
    session: Session,
    change: Change,
}

/// A pending write, as plain values.
pub struct PendingWriteView {
    pub session: SessionView,
    pub change: ChangeView,
}

impl View for PendingWrite {
    type V = PendingWriteView;

    closed spec fn view(&self) -> PendingWriteView {
        PendingWriteView { session: self.session@, change: self.change@ }
    }
}

/// A session that waits for a password to be put on the clipboard.
pub struct PendingCopy {
    session: Session,
}

impl View for PendingCopy {
    type V = SessionView;

    closed spec fn view(&self) -> SessionView {
        self.session@
    }
}

/// How putting a text on the clipboard went.
#[derive(Clone, Copy, Debug, PartialEq, Eq, Structural)]
pub enum CopyOutcome {
    Copied,
    Failed,
    /// There is no clipboard.
    Unavailable,
}

/// What a key press leads to.
#[allow(inconsistent_fields)]
pub enum Step {
    /// The next session.
    Continue(Session),
    /// The operator quit.
    Quit,
    /// The vault file is to be replaced by `content`; the session goes on
    /// from `pending`, once it is told whether the file was written.
    Write { content: String, pending: PendingWrite },
    /// `text` is to be put on the clipboard; the session goes on from
    /// `pending`, once it is told how that went.
    Copy { text: String, pending: PendingCopy },
}

/// A step, as plain values.
#[allow(inconsistent_fields)]
pub enum StepView {
    Continue(SessionView),
    Quit,
    Write { content: Seq<char>, pending: PendingWriteView },
    Copy { text: Seq<char>, pending: SessionView },
}

impl View for Step {
    type V = StepView;

    open spec fn view(&self) -> StepView {
        match self {
            Step::Continue(session) => StepView::Continue(session@),
            Step::Quit => StepView::Quit,
            Step::Write { content, pending } => StepView::Write {
                content: content@,
                pending: pending@,
            },
            Step::Copy { text, pending } => StepView::Copy { text: text@, pending: pending@ },
        }
    }
}

/// `prefix` followed by `text`.
fn prefixed(prefix: &str, text: &str) -> (r: String)
    ensures
        r@ == prefix@ + text@,
{
    String::from_str(prefix).concat(text)
}

impl Session {
    /// The session as it starts out, for a vault file at `vault_path`.
    pub fn new(vault_path: String) -> (session: Session)
        ensures
            session@ == SessionView::initial(vault_path@),
            session@.wf(),
    {
        Session {
            vault_path,
            app: App::new(),
            phase: Phase::MasterPassword,
            master_input: String::new(),
            new_password: String::new(),
            confirm_password: String::new(),
            storage: None,
        }
    }

    /// Whether this key asks what the vault file holds. Where it does not,
    /// `handle_key` may be handed any file: the step is the same.
    pub fn reads_vault(&self, key: Key) -> (r: bool)
        ensures
            r == reads_vault(self@, key),
    {
        let enter = match key {
            Key::Enter => true,
            _ => false,
        };
        match &self.phase {
            Phase::MasterPassword => enter && !self.master_input.as_str().is_empty(),
            Phase::Main => self.storage.is_some() && match key {
                Key::Char(c) => c == 'v',
                Key::Enter => self.app.request_is_granted(),
                _ => false,
            },
            Phase::ChangeMasterPassword { step } => enter && match step {
                ChangeStep::EnterOld => true,
                ChangeStep::EnterNew => false,
                ChangeStep::ConfirmNew => self.storage.is_some() && self.confirm_password
                    == self.new_password,
            },
            Phase::ViewPasswords { mode, state } => self.storage.is_some() && match mode {
                ViewMode::Browse => false,
                ViewMode::ConfirmDelete => match key {
                    Key::Enter => true,
                    Key::Char(c) => c == 'y',
                    _ => false,
                },
                ViewMode::EditName => enter && !blank(state.edit_buffer.as_str())
                    && state.selected_entry().is_some(),
                ViewMode::EditPassword => enter && !state.edit_buffer.as_str().is_empty()
                    && state.selected_entry().is_some(),
            },
        }
    }

    /// The passphrase input that a step of a change edits.
    pub fn rotation_input(&self, step: ChangeStep) -> (r: &String)
        ensures
            r@ == self@.rotation_input(step),
    {
        match step {
            ChangeStep::EnterOld => &self.master_input,
            ChangeStep::EnterNew => &self.new_password,
            ChangeStep::ConfirmNew => &self.confirm_password,
        }
    }

    /// A key while the master passphrase is asked for.
    fn on_master_password(self, key: Key, file: &VaultFile) -> (r: Step)
        ensures
            exists|chance: Chance|
                chance.fits(self@) && r@ == #[trigger] unlock_step(self@, key, *file, chance),
            self@.wf() && self@.phase is MasterPassword ==> step_wf(r@),
            write_keeps_vault(self@, *file, r@),
    {
        let ghost pre = self@;
        let ghost any = some_chance(pre);
        let mut session = self;
        proof {
            lemma_some_chance_fits(pre);
        }
        match key {
            Key::Esc => {
                assert(StepView::Quit == unlock_step(pre, key, *file, any));
                Step::Quit
            },
            Key::Enter => {
                if session.master_input.as_str().is_empty() {
                    assert(StepView::Continue(pre) == unlock_step(pre, key, *file, any));
                    return Step::Continue(session);
                }
                let opened = Storage::new(
                    session.vault_path.clone(),
                    session.master_input.as_str(),
                    file,
                );
                let ghost fresh = choose|fresh: Seq<u8>|
                    fresh.len() == SALT_LEN && crate::storage::store_result(opened)
                        == #[trigger] opened_store(*file, pre.vault_path, pre.master_input, fresh);
                let ghost chance = Chance { salt: fresh, ..any };
                match opened {
                    Ok(store) => {
                        session.storage = Some(store);
                        session.phase = Phase::Main;
                        session.master_input.clear();
                    },
                    Err(fault) => {
                        session.app.error = Some(fault.message());
                        session.master_input.clear();
                    },
                }
                assert(StepView::Continue(session@) == unlock_step(pre, key, *file, chance));
                Step::Continue(session)
            },
            Key::Backspace => {
                session.master_input.pop();
                assert(StepView::Continue(session@) == unlock_step(pre, key, *file, any));
                Step::Continue(session)
            },
            Key::Char(c) => {
                session.master_input.push(c);
                assert(StepView::Continue(session@) == unlock_step(pre, key, *file, any));
                Step::Continue(session)
            },
            _ => {
                assert(StepView::Continue(pre) == unlock_step(pre, key, *file, any));
                Step::Continue(session)
            },
        }
    }

    /// A key in the main menu.
    fn on_main(self, key: Key, file: &VaultFile, now: &str) -> (r: Step)
        ensures
            exists|chance: Chance|
                chance.fits(self@) && r@ == #[trigger] main_step(self@, key, *file, now@, chance),
            self@.wf() && self@.phase is Main ==> step_wf(r@),
            write_keeps_vault(self@, *file, r@),
            self@.phase is Main ==> write_is_owed(self@, key, *file, now@, r@),
    {
        let ghost pre = self@;
        let ghost any = some_chance(pre);
        proof {
            lemma_some_chance_fits(pre);
        }
        let mut session = self;
        match key {
            Key::Esc => {
                assert(StepView::Quit == main_step(pre, key, *file, now@, any));
                Step::Quit
            },
            Key::Char(c) => {
                if c == 'q' {
                    assert(StepView::Quit == main_step(pre, key, *file, now@, any));
                    return Step::Quit;
                } else if c == 'c' {
                    session.phase = Phase::ChangeMasterPassword { step: ChangeStep::EnterOld };
                    session.master_input.clear();
                    session.new_password.clear();
                    session.confirm_password.clear();
                    session.app.error = None;
                    session.app.status_message = None;
                } else if c == 'v' {
                    let loaded = match &session.storage {
                        Some(store) => Some(store.load(file)),
                        None => None,
                    };
                    match loaded {
                        Some(Ok(entries)) => {
                            session.phase = Phase::ViewPasswords {
                                mode: ViewMode::Browse,
                                state: ViewerState::new(entries),
                            };
                            session.app.error = None;
                        },
                        Some(Err(fault)) => {
                            session.app.error = Some(
                                prefixed("Failed to load: ", fault.message().as_str()),
                            );
                        },
                        None => {},
                    }
                } else if c == ' ' {
                    session.app.toggle_current();
                    let ghost drawn = choose|password: Seq<char>|
                        pre.app.valid_draw(password) && session.app@
                            == #[trigger] pre.app.toggled_with(password);
                    let ghost chance = Chance { password: drawn, ..any };
                    assert(StepView::Continue(session@) == main_step(
                        pre,
                        key,
                        *file,
                        now@,
                        chance,
                    ));
                    return Step::Continue(session);
                } else {
                    match session.app.current_text_input() {
                        Some(input) => {
                            input.push(c);
                        },
                        None => {},
                    }
                }
                assert(StepView::Continue(session@) == main_step(pre, key, *file, now@, any));
                Step::Continue(session)
            },
            Key::Tab | Key::Down => {
                session.app.next_field();
                assert(StepView::Continue(session@) == main_step(pre, key, *file, now@, any));
                Step::Continue(session)
            },
            Key::BackTab | Key::Up => {
                session.app.prev_field();
                assert(StepView::Continue(session@) == main_step(pre, key, *file, now@, any));
                Step::Continue(session)
            },
            Key::Enter => {
                session.app.generate();
                let ghost drawn = choose|password: Seq<char>|
                    pre.app.valid_draw(password) && session.app@
                        == #[trigger] pre.app.generated_with(password);
                let ghost generated = session@;
                let saved = match (session.app.get_entry(now.to_owned()), &session.storage) {
                    (Some(entry), Some(store)) => {
                        let outcome = store.save(file, entry.clone());
                        Some((entry, outcome))
                    },
                    _ => None,
                };
                match saved {
                    Some((saved_entry, outcome)) => {
                        let ghost entry = generated.app.entry(now@)->0;
                        let ghost store = pre.storage->0;
                        let ghost nonce = choose|nonce: Seq<u8>|
                            nonce.len() == NONCE_LEN && crate::storage::text_result(outcome)
                                == #[trigger] save_outcome(*file, store, entry, nonce);
                        let ghost chance = Chance { password: drawn, nonce, ..any };
                        match outcome {
                            Ok(content) => {
                                let r = Step::Write {
                                    content,
                                    pending: PendingWrite {
                                        session,
                                        change: Change::Saved(saved_entry),
                                    },
                                };
                                assert(r@ == main_step(pre, key, *file, now@, chance));
                                r
                            },
                            Err(fault) => {
                                session.app.error = Some(
                                    prefixed("Save failed: ", fault.message().as_str()),
                                );
                                assert(StepView::Continue(session@) == main_step(
                                    pre,
                                    key,
                                    *file,
                                    now@,
                                    chance,
                                ));
                                Step::Continue(session)
                            },
                        }
                    },
                    None => {
                        let ghost chance = Chance { password: drawn, ..any };
                        assert(StepView::Continue(session@) == main_step(
                            pre,
                            key,
                            *file,
                            now@,
                            chance,
                        ));
                        Step::Continue(session)
                    },
                }
            },
            Key::Backspace => {
                match session.app.current_text_input() {
                    Some(input) => {
                        input.pop();
                    },
                    None => {},
                }
                assert(StepView::Continue(session@) == main_step(pre, key, *file, now@, any));
                Step::Continue(session)
            },
            Key::Other => {
                assert(StepView::Continue(pre) == main_step(pre, key, *file, now@, any));
                Step::Continue(session)
            },
        }
    }

    /// A key during a change of the master passphrase.
    fn on_change(self, step: ChangeStep, key: Key, file: &VaultFile) -> (r: Step)
        requires
            self@.phase == (PhaseView::ChangeMasterPassword { step }),
        ensures
            exists|chance: Chance|
                chance.fits(self@) && r@ == #[trigger] rotation_step(
                    self@,
                    step,
                    key,
                    *file,
                    chance,
                ),
            self@.wf() ==> step_wf(r@),
            write_keeps_vault(self@, *file, r@),
            write_is_owed(self@, key, *file, Seq::empty(), r@),
    {
        let ghost pre = self@;
        let ghost any = some_chance(pre);
        proof {
            lemma_some_chance_fits(pre);
        }
        let mut session = self;
        match key {
            Key::Esc => {
                session.phase = Phase::Main;
                session.master_input.clear();
                session.new_password.clear();
                session.confirm_password.clear();
                session.app.error = None;
                assert(StepView::Continue(session@) == rotation_step(pre, step, key, *file, any));
                Step::Continue(session)
            },
            Key::Enter => match step {
                ChangeStep::EnterOld => {
                    let opened = Storage::new(
                        session.vault_path.clone(),
                        session.master_input.as_str(),
                        file,
                    );
                    let ghost fresh = choose|fresh: Seq<u8>|
                        fresh.len() == SALT_LEN && crate::storage::store_result(opened)
                            == #[trigger] opened_store(
                            *file,
                            pre.vault_path,
                            pre.master_input,
                            fresh,
                        );
                    let ghost chance = Chance { salt: fresh, ..any };
                    match opened {
                        Ok(store) => {
                            session.storage = Some(store);
                            session.phase = Phase::ChangeMasterPassword {
                                step: ChangeStep::EnterNew,
                            };
                            session.app.error = None;
                        },
                        Err(fault) => {
                            session.app.error = Some(fault.message());
                            session.master_input.clear();
                        },
                    }
                    assert(StepView::Continue(session@) == rotation_step(
                        pre,
                        step,
                        key,
                        *file,
                        chance,
                    ));
                    Step::Continue(session)
                },
                ChangeStep::EnterNew => {
                    if session.new_password.as_str().is_empty() {
                        session.app.error = Some(String::from_str("Password cannot be empty"));
                    } else {
                        session.phase = Phase::ChangeMasterPassword {
                            step: ChangeStep::ConfirmNew,
                        };
                        session.app.error = None;
                    }
                    assert(StepView::Continue(session@) == rotation_step(
                        pre,
                        step,
                        key,
                        *file,
                        any,
                    ));
                    Step::Continue(session)
                },
                ChangeStep::ConfirmNew => {
                    if session.confirm_password != session.new_password {
                        session.app.error = Some(String::from_str("Passwords don't match"));
                        session.confirm_password.clear();
                        assert(StepView::Continue(session@) == rotation_step(
                            pre,
                            step,
                            key,
                            *file,
                            any,
                        ));
                        return Step::Continue(session);
                    }
                    let rotated = match &session.storage {
                        Some(store) => Some(
                            store.change_master_password(file, session.new_password.as_str()),
                        ),
                        None => None,
                    };
                    match rotated {
                        Some(outcome) => {
                            let ghost store = pre.storage->0;
                            let ghost (salt, nonce) = choose|salt: Seq<u8>, nonce: Seq<u8>|
                                salt.len() == SALT_LEN && nonce.len() == NONCE_LEN
                                    && crate::storage::rotation_result(outcome)
                                    == #[trigger] rotate_outcome(
                                    *file,
                                    store,
                                    pre.new_password,
                                    salt,
                                    nonce,
                                );
                            let ghost chance = Chance { salt, nonce, ..any };
                            match outcome {
                                Ok((store, content)) => {
                                    let r = Step::Write {
                                        content,
                                        pending: PendingWrite {
                                            session,
                                            change: Change::Rotated(store),
                                        },
                                    };
                                    assert(r@ == rotation_step(pre, step, key, *file, chance));
                                    r
                                },
                                Err(fault) => {
                                    session.app.error = Some(
                                        prefixed("Failed: ", fault.message().as_str()),
                                    );
                                    assert(StepView::Continue(session@) == rotation_step(
                                        pre,
                                        step,
                                        key,
                                        *file,
                                        chance,
                                    ));
                                    Step::Continue(session)
                                },
                            }
                        },
                        None => {
                            assert(StepView::Continue(session@) == rotation_step(
                                pre,
                                step,
                                key,
                                *file,
                                any,
                            ));
                            Step::Continue(session)
                        },
                    }
                },
            },
            Key::Backspace => {
                match step {
                    ChangeStep::EnterOld => {
                        session.master_input.pop();
                    },
                    ChangeStep::EnterNew => {
                        session.new_password.pop();
                    },
                    ChangeStep::ConfirmNew => {
                        session.confirm_password.pop();
                    },
                }
                assert(StepView::Continue(session@) == rotation_step(pre, step, key, *file, any));
                Step::Continue(session)
            },
            Key::Char(c) => {
                match step {
                    ChangeStep::EnterOld => {
                        session.master_input.push(c);
                    },
                    ChangeStep::EnterNew => {
                        session.new_password.push(c);
                    },
                    ChangeStep::ConfirmNew => {
                        session.confirm_password.push(c);
                    },
                }
                assert(StepView::Continue(session@) == rotation_step(pre, step, key, *file, any));
                Step::Continue(session)
            },
            _ => {
                assert(StepView::Continue(pre) == rotation_step(pre, step, key, *file, any));
                Step::Continue(session)
            },
        }
    }

    /// The session with the viewer in a mode and a state.
    fn viewing(self, mode: ViewMode, state: ViewerState) -> (session: Session)
        ensures
            session@ == self@.viewing(mode, state@),
    {
        let mut session = self;
        session.phase = Phase::ViewPasswords { mode, state };
        session
    }

    /// A key while the viewer browses. `self` is the session around the
    /// viewer.
    fn on_browse(self, state: ViewerState, key: Key) -> (r: Step)
        ensures
            r@ == browse_step(self@.viewing(ViewMode::Browse, state@), state@, key),
            self@.viewing(ViewMode::Browse, state@).wf() ==> step_wf(r@),
    {
        let mut state = state;
        let mut session = self;
        match key {
            Key::Esc => {
                session.phase = Phase::Main;
                Step::Continue(session)
            },
            Key::Up => {
                state.select_previous();
                Step::Continue(session.viewing(ViewMode::Browse, state))
            },
            Key::Down => {
                state.select_next();
                Step::Continue(session.viewing(ViewMode::Browse, state))
            },
            Key::Enter => {
                state.toggle_reveal();
                Step::Continue(session.viewing(ViewMode::Browse, state))
            },
            Key::Char(c) => {
                if c == 'q' {
                    session.phase = Phase::Main;
                    return Step::Continue(session);
                }
                let mut mode = ViewMode::Browse;
                if c == 'k' {
                    state.select_previous();
                } else if c == 'j' {
                    state.select_next();
                } else if c == ' ' {
                    state.toggle_reveal();
                } else if c == 'r' {
                    state.reveal_all();
                } else if c == 'H' {
                    state.hide_all();
                } else if c == 'y' {
                    let text = match state.selected_entry() {
                        Some(entry) => Some(entry.password.clone()),
                        None => None,
                    };
                    match text {
                        Some(text) => {
                            return Step::Copy {
                                text,
                                pending: PendingCopy {
                                    session: session.viewing(ViewMode::Browse, state),
                                },
                            };
                        },
                        None => {},
                    }
                } else if c == 'd' {
                    if state.selected_entry().is_some() {
                        mode = ViewMode::ConfirmDelete;
                    }
                } else if c == 'e' {
                    if state.begin_edit_name() {
                        mode = ViewMode::EditName;
                    }
                } else if c == 'p' {
                    if state.begin_edit_password() {
                        mode = ViewMode::EditPassword;
                    }
                }
                Step::Continue(session.viewing(mode, state))
            },
            _ => Step::Continue(session.viewing(ViewMode::Browse, state)),
        }
    }

    /// A key while the viewer asks whether to delete. `self` is the
    /// session around the viewer.
    fn on_confirm_delete(self, state: ViewerState, key: Key, file: &VaultFile) -> (r: Step)
        ensures
            exists|chance: Chance|
                chance.fits(self@) && r@ == #[trigger] confirm_delete_step(
                    self@.viewing(ViewMode::ConfirmDelete, state@),
                    state@,
                    key,
                    *file,
                    chance,
                ),
            self@.viewing(ViewMode::ConfirmDelete, state@).wf() ==> step_wf(r@),
            write_keeps_vault(self@.viewing(ViewMode::ConfirmDelete, state@), *file, r@),
            write_is_owed(
                self@.viewing(ViewMode::ConfirmDelete, state@),
                key,
                *file,
                Seq::empty(),
                r@,
            ),
    {
        let ghost pre = self@.viewing(ViewMode::ConfirmDelete, state@);
        let ghost before = state@;
        let ghost any = some_chance(self@);
        proof {
            lemma_some_chance_fits(self@);
        }
        let mut state = state;
        let session = self;
        let confirmed = match key {
            Key::Enter => true,
            Key::Char(c) => c == 'y',
            _ => false,
        };
        let declined = match key {
            Key::Esc => true,
            Key::Char(c) => c == 'n',
            _ => false,
        };
        if confirmed {
            let deleted = match &session.storage {
                Some(store) => Some(store.delete(file, state.selected)),
                None => None,
            };
            match deleted {
                Some(outcome) => {
                    let ghost store = pre.storage->0;
                    let ghost nonce = choose|nonce: Seq<u8>|
                        nonce.len() == NONCE_LEN && crate::storage::text_result(outcome)
                            == #[trigger] delete_outcome(*file, store, before.selected, nonce);
                    let ghost chance = Chance { nonce, ..any };
                    match outcome {
                        Ok(content) => {
                            let r = Step::Write {
                                content,
                                pending: PendingWrite {
                                    session: session.viewing(ViewMode::Browse, state),
                                    change: Change::Deleted,
                                },
                            };
                            assert(r@ == confirm_delete_step(pre, before, key, *file, chance));
                            r
                        },
                        Err(fault) => {
                            state.status_message = Some(prefixed("✗ ", fault.message().as_str()));
                            let r = Step::Continue(session.viewing(ViewMode::Browse, state));
                            assert(r@ == confirm_delete_step(pre, before, key, *file, chance));
                            r
                        },
                    }
                },
                None => {
                    let r = Step::Continue(session.viewing(ViewMode::Browse, state));
                    assert(r@ == confirm_delete_step(pre, before, key, *file, any));
                    r
                },
            }
        } else if declined {
            state.status_message = None;
            let r = Step::Continue(session.viewing(ViewMode::Browse, state));
            assert(r@ == confirm_delete_step(pre, before, key, *file, any));
            r
        } else {
            let r = Step::Continue(session.viewing(ViewMode::ConfirmDelete, state));
            assert(r@ == confirm_delete_step(pre, before, key, *file, any));
            r
        }
    }

    /// A key while the viewer edits a name or a password. `self` is the
    /// session around the viewer.
    fn on_edit(self, mode: ViewMode, state: ViewerState, key: Key, file: &VaultFile) -> (r: Step)
        requires
            mode == ViewMode::EditName || mode == ViewMode::EditPassword,
        ensures
            exists|chance: Chance|
                chance.fits(self@) && r@ == #[trigger] edit_step(
                    self@.viewing(mode, state@),
                    mode,
                    state@,
                    key,
                    *file,
                    chance,
                ),
            self@.viewing(mode, state@).wf() ==> step_wf(r@),
            write_keeps_vault(self@.viewing(mode, state@), *file, r@),
            write_is_owed(self@.viewing(mode, state@), key, *file, Seq::empty(), r@),
    {
        let ghost pre = self@.viewing(mode, state@);
        let ghost before = state@;
        let ghost any = some_chance(self@);
        proof {
            lemma_some_chance_fits(self@);
        }
        let mut state = state;
        let session = self;
        match key {
            Key::Esc => {
                state.edit_buffer.clear();
                state.status_message = None;
                let r = Step::Continue(session.viewing(ViewMode::Browse, state));
                assert(r@ == edit_step(pre, mode, before, key, *file, any));
                r
            },
            Key::Enter => {
                let naming = match mode {
                    ViewMode::EditName => true,
                    _ => false,
                };
                let commit = if naming {
                    !blank(state.edit_buffer.as_str())
                } else {
                    !state.edit_buffer.as_str().is_empty()
                };
                let entry = if commit {
                    if naming {
                        state.renamed_entry()
                    } else {
                        state.repassworded_entry()
                    }
                } else {
                    None
                };
                let updated = match (entry, &session.storage) {
                    (Some(entry), Some(store)) => {
                        let outcome = store.update(file, state.selected, entry.clone());
                        Some((entry, outcome))
                    },
                    _ => None,
                };
                state.edit_buffer.clear();
                match updated {
                    Some((entry, outcome)) => {
                        let ghost store = pre.storage->0;
                        let ghost nonce = choose|nonce: Seq<u8>|
                            nonce.len() == NONCE_LEN && crate::storage::text_result(outcome)
                                == #[trigger] update_outcome(
                                *file,
                                store,
                                before.selected,
                                entry@,
                                nonce,
                            );
                        let ghost chance = Chance { nonce, ..any };
                        match outcome {
                            Ok(content) => {
                                let change = if naming {
                                    Change::Renamed(entry)
                                } else {
                                    Change::Repassworded(entry)
                                };
                                let r = Step::Write {
                                    content,
                                    pending: PendingWrite {
                                        session: session.viewing(ViewMode::Browse, state),
                                        change,
                                    },
                                };
                                assert(r@ == edit_step(pre, mode, before, key, *file, chance));
                                r
                            },
                            Err(fault) => {
                                state.status_message = Some(
                                    prefixed("✗ ", fault.message().as_str()),
                                );
                                let r = Step::Continue(session.viewing(ViewMode::Browse, state));
                                assert(r@ == edit_step(pre, mode, before, key, *file, chance));
                                r
                            },
                        }
                    },
                    None => {
                        let r = Step::Continue(session.viewing(ViewMode::Browse, state));
                        assert(r@ == edit_step(pre, mode, before, key, *file, any));
                        r
                    },
                }
            },
            Key::Backspace => {
                state.edit_buffer.pop();
                let r = Step::Continue(session.viewing(mode, state));
                assert(r@ == edit_step(pre, mode, before, key, *file, any));
                r
            },
            Key::Char(c) => {
                state.edit_buffer.push(c);
                let r = Step::Continue(session.viewing(mode, state));
                assert(r@ == edit_step(pre, mode, before, key, *file, any));
                r
            },
            _ => {
                let r = Step::Continue(session.viewing(mode, state));
                assert(r@ == edit_step(pre, mode, before, key, *file, any));
                r
            },
        }
    }

    /// Handles one key press.
    ///
    /// `file` is what the vault file holds now, `now` the time as decimal
    /// seconds since the epoch. The result is the one that the transition
    /// table gives for the session's phase and the key, for some salt,
    /// nonce and password that chance may draw.
    pub fn handle_key(self, key: Key, file: &VaultFile, now: &str) -> (r: Step)
        ensures
            exists|chance: Chance|
                chance.fits(self@) && r@ == #[trigger] step(self@, key, *file, now@, chance),
            self@.wf() ==> step_wf(r@),
            write_keeps_vault(self@, *file, r@),
            write_is_owed(self@, key, *file, now@, r@),
    {
        let ghost pre = self@;
        let Session {
            vault_path,
            app,
            phase,
            master_input,
            new_password,
            confirm_password,
            storage,
        } = self;
        match phase {
            Phase::MasterPassword => {
                let session = Session {
                    vault_path,
                    app,
                    phase: Phase::MasterPassword,
                    master_input,
                    new_password,
                    confirm_password,
                    storage,
                };
                let r = session.on_master_password(key, file);
                proof {
                    let chance = choose|chance: Chance|
                        chance.fits(pre) && r@ == #[trigger] unlock_step(pre, key, *file, chance);
                    assert(r@ == step(pre, key, *file, now@, chance));
                }
                r
            },
            Phase::Main => {
                let session = Session {
                    vault_path,
                    app,
                    phase: Phase::Main,
                    master_input,
                    new_password,
                    confirm_password,
                    storage,
                };
                let r = session.on_main(key, file, now);
                proof {
                    let chance = choose|chance: Chance|
                        chance.fits(pre) && r@ == #[trigger] main_step(
                            pre,
                            key,
                            *file,
                            now@,
                            chance,
                        );
                    assert(r@ == step(pre, key, *file, now@, chance));
                }
                r
            },
            Phase::ChangeMasterPassword { step: change_step } => {
                let session = Session {
                    vault_path,
                    app,
                    phase: Phase::ChangeMasterPassword { step: change_step },
                    master_input,
                    new_password,
                    confirm_password,
                    storage,
                };
                let r = session.on_change(change_step, key, file);
                proof {
                    let chance = choose|chance: Chance|
                        chance.fits(pre) && r@ == #[trigger] rotation_step(
                            pre,
                            change_step,
                            key,
                            *file,
                            chance,
                        );
                    assert(r@ == step(pre, key, *file, now@, chance));
                }
                r
            },
            Phase::ViewPasswords { mode, state } => {
                let ghost viewer = state@;
                let around = Session {
                    vault_path,
                    app,
                    phase: Phase::Main,
                    master_input,
                    new_password,
                    confirm_password,
                    storage,
                };
                assert(around@.viewing(mode, viewer) == pre);
                match mode {
                    ViewMode::Browse => {
                        let r = around.on_browse(state, key);
                        proof {
                            let chance = some_chance(pre);
                            lemma_some_chance_fits(pre);
                            assert(r@ == step(pre, key, *file, now@, chance));
                        }
                        r
                    },
                    ViewMode::ConfirmDelete => {
                        let r = around.on_confirm_delete(state, key, file);
                        proof {
                            let chance = choose|chance: Chance|
                                chance.fits(around@) && r@ == #[trigger] confirm_delete_step(
                                    pre,
                                    viewer,
                                    key,
                                    *file,
                                    chance,
                                );
                            assert(r@ == step(pre, key, *file, now@, chance));
                        }
                        r
                    },
                    _ => {
                        let r = around.on_edit(mode, state, key, file);
                        proof {
                            let chance = choose|chance: Chance|
                                chance.fits(around@) && r@ == #[trigger] edit_step(
                                    pre,
                                    mode,
                                    viewer,
                                    key,
                                    *file,
                                    chance,
                                );
                            assert(r@ == step(pre, key, *file, now@, chance));
                        }
                        r
                    },
                }
            },
        }
    }
}

impl PendingWrite {
    /// The session goes on, now that the vault file was written, or failed
    /// to be written.
    pub fn finish(self, written: bool) -> (session: Session)
        ensures
            session@ == write_finished(self@, written),
            self@.wf() ==> session@.wf(),
    {
        let PendingWrite { session, change } = self;
        let mut session = session;
        match change {
            Change::Saved(_) => {
                let message = match &session.storage {
                    Some(store) => Some(
                        if written {
                            prefixed("✓ Saved to ", store.path().as_str())
                        } else {
                            prefixed(
                                "Save failed: ",
                                VaultError::Io(IoFault::Write).message().as_str(),
                            )
                        },
                    ),
                    None => None,
                };
                match message {
                    Some(message) => {
                        if written {
                            session.app.status_message = Some(message);
                        } else {
                            session.app.error = Some(message);
                        }
                    },
                    None => {},
                }
                session
            },
            Change::Rotated(store) => {
                if written {
                    session.storage = Some(store);
                    session.app.status_message = Some(
                        String::from_str("✓ Master password changed!"),
                    );
                    session.app.error = None;
                    session.phase = Phase::Main;
                    session.master_input.clear();
                    session.new_password.clear();
                    session.confirm_password.clear();
                } else {
                    session.app.error = Some(
                        prefixed("Failed: ", VaultError::Io(IoFault::Write).message().as_str()),
                    );
                }
                session
            },
            Change::Deleted => {
                session.change_selected(None, "", written)
            },
            Change::Renamed(entry) => {
                session.change_selected(Some(entry), "✓ Name updated!", written)
            },
            Change::Repassworded(entry) => {
                session.change_selected(Some(entry), "✓ Password updated!", written)
            },
        }
    }
}

impl Session {
    /// The session after the vault changed the selected entry of the
    /// viewer, or failed to: the entry is deleted where `entry` is `None`,
    /// and replaced by `entry`, with `status` shown, otherwise.
    fn change_selected(self, entry: Option<PasswordEntry>, status: &str, written: bool) -> (r:
        Session)
        ensures
            r@ == match self@.phase {
                PhaseView::ViewPasswords { mode, state } => if !written {
                    self@.viewing(
                        mode,
                        state.with_status(
                            Some("✗ "@ + VaultError::Io(IoFault::Write).spec_message()),
                        ),
                    )
                } else {
                    match entry {
                        Some(entry) => self@.viewing(mode, state.replaced(entry@, status@)),
                        None => self@.viewing(mode, state.deleted()),
                    }
                },
                _ => self@,
            },
            self@.wf() && self@.browsing_selection() ==> r@.wf(),
    {
        let Session {
            vault_path,
            app,
            phase,
            master_input,
            new_password,
            confirm_password,
            storage,
        } = self;
        let phase = match phase {
            Phase::ViewPasswords { mode, state } => {
                let mut state = state;
                if !written {
                    state.status_message = Some(
                        prefixed("✗ ", VaultError::Io(IoFault::Write).message().as_str()),
                    );
                } else {
                    match entry {
                        Some(entry) => {
                            state.replace_selected(entry, status);
                        },
                        None => {
                            state.remove_selected();
                        },
                    }
                }
                Phase::ViewPasswords { mode, state }
            },
            other => other,
        };
        Session { vault_path, app, phase, master_input, new_password, confirm_password, storage }
    }
}

impl PendingCopy {
    /// The session goes on, now that the password was put on the
    /// clipboard, or failed to be.
    pub fn finish(self, outcome: CopyOutcome) -> (session: Session)
        ensures
            session@ == copy_finished(self@, outcome),
            self@.wf() ==> session@.wf(),
    {
        let PendingCopy { session } = self;
        let Session {
            vault_path,
            app,
            phase,
            master_input,
            new_password,
            confirm_password,
            storage,
        } = session;
        let phase = match phase {
            Phase::ViewPasswords { mode, state } => {
                let mut state = state;
                let status: &str = match outcome {
                    CopyOutcome::Copied => "✓ Copied to clipboard!",
                    CopyOutcome::Failed => "✗ Failed to copy",
                    CopyOutcome::Unavailable => "✗ Clipboard unavailable",
                };
                state.status_message = Some(String::from_str(status));
                Phase::ViewPasswords { mode, state }
            },
            other => other,
        };
        Session { vault_path, app, phase, master_input, new_password, confirm_password, storage }
    }
}

} // verus!
