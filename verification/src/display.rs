//! What the screen shows of a session, as text: masked input, the rows of
//! the entry list, the prompts. Drawing the text is the caller's business.

use crate::app::ViewMode;
use crate::session::ChangeStep;
use crate::storage::{EntryView, PasswordEntry};
use vstd::prelude::*;
use vstd::string::{StrSliceExecFns, StringExecFns};

verus! {

/// Number of characters of a generated password that are shown before it
/// is cut short.
pub const SHOWN_LEN: usize = 40;

/// What stands for a password that is not revealed.
pub open spec fn mask() -> Seq<char> {
    "••••••••••••"@
}

/// The prompt over the passphrase input, at the start of a session.
pub open spec fn unlock_prompt() -> Seq<char> {
    "Enter master password to encrypt your vault:"@
}

/// The prompt over the passphrase input, at a step of a change of the
/// master passphrase.
pub open spec fn change_prompt(step: ChangeStep) -> Seq<char> {
    match step {
        ChangeStep::EnterOld => "Enter current master password:"@,
        ChangeStep::EnterNew => "Enter NEW master password:"@,
        ChangeStep::ConfirmNew => "Confirm NEW master password:"@,
    }
}

/// A passphrase input as it is shown: one asterisk for each byte of it.
pub open spec fn masked(len: nat) -> Seq<char> {
    Seq::new(len, |i: int| '*')
}

/// The first row of the list that is shown, so that the selected row is
/// the last of the `height` rows on screen at the latest. With no room for
/// a row it is the first one.
pub open spec fn first_visible(selected: int, height: int) -> int {
    if height > 0 && selected >= height {
        selected - height + 1
    } else {
        0
    }
}

/// A text followed by the cursor.
pub open spec fn with_cursor(text: Seq<char>) -> Seq<char> {
    text + "▌"@
}

/// A generated password as it is shown: cut short after forty characters.
pub open spec fn shown_password(password: Seq<char>) -> Seq<char> {
    if password.len() > SHOWN_LEN {
        password.take(SHOWN_LEN as int) + "..."@
    } else {
        password
    }
}

/// The name and the password shown in the row of an entry: the edit buffer
/// in place of what is being edited in the selected row, and the mask in
/// place of a password that is not revealed.
pub open spec fn row_texts(
    entry: EntryView,
    selected: bool,
    revealed: bool,
    mode: ViewMode,
    edit_buffer: Seq<char>,
) -> (Seq<char>, Seq<char>) {
    if selected && mode == ViewMode::EditName {
        (with_cursor(edit_buffer), mask())
    } else if selected && mode == ViewMode::EditPassword {
        (entry.name, with_cursor(edit_buffer))
    } else if revealed {
        (entry.name, entry.password)
    } else {
        (entry.name, mask())
    }
}

/// The prompt over the passphrase input at the start of a session.
pub fn unlock_prompt_text() -> (r: &'static str)
    ensures
        r@ == unlock_prompt(),
{
    "Enter master password to encrypt your vault:"
}

/// The prompt over the passphrase input at a step of a change of the
/// master passphrase.
pub fn change_prompt_text(step: ChangeStep) -> (r: &'static str)
    ensures
        r@ == change_prompt(step),
{
    match step {
        ChangeStep::EnterOld => "Enter current master password:",
        ChangeStep::EnterNew => "Enter NEW master password:",
        ChangeStep::ConfirmNew => "Confirm NEW master password:",
    }
}

/// A passphrase input as it is shown.
pub fn masked_input(input: &str) -> (r: String)
    ensures
        r@ == masked(input.len() as nat),
{
    let mut r = String::new();
    let count = input.len();
    let mut i: usize = 0;
    while i < count
        invariant
            i <= count,
            r@ == masked(i as nat),
        decreases count - i,
    {
        r.push('*');
        i += 1;
        assert(r@ =~= masked(i as nat));
    }
    r
}

/// The first row of the list that is shown.
pub fn scroll_offset(selected: usize, visible_height: usize) -> (r: usize)
    ensures
        r == first_visible(selected as int, visible_height as int),
{
    if visible_height > 0 && selected >= visible_height {
        selected - visible_height + 1
    } else {
        0
    }
}

/// A generated password as it is shown.
pub fn display_password(password: &str) -> (r: String)
    ensures
        r@ == shown_password(password@),
{
    let count = password.unicode_len();
    if count > SHOWN_LEN {
        let head = password.substring_char(0, SHOWN_LEN);
        assert(password@.subrange(0, SHOWN_LEN as int) =~= password@.take(SHOWN_LEN as int));
        String::from_str(head).concat("...")
    } else {
        String::from_str(password)
    }
}

/// The name and the password shown in the row of an entry.
pub fn row_display(
    entry: &PasswordEntry,
    selected: bool,
    revealed: bool,
    mode: ViewMode,
    edit_buffer: &str,
) -> (r: (String, String))
    ensures
        (r.0@, r.1@) == row_texts(entry@, selected, revealed, mode, edit_buffer@),
{
    let editing_name = selected && match mode {
        ViewMode::EditName => true,
        _ => false,
    };
    let editing_password = selected && match mode {
        ViewMode::EditPassword => true,
        _ => false,
    };
    if editing_name {
        (String::from_str(edit_buffer).concat("▌"), String::from_str("••••••••••••"))
    } else if editing_password {
        (entry.name.clone(), String::from_str(edit_buffer).concat("▌"))
    } else if revealed {
        (entry.name.clone(), entry.password.clone())
    } else {
        (entry.name.clone(), String::from_str("••••••••••••"))
    }
}

} // verus!
