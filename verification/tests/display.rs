use passgen::app::ViewMode;
use passgen::display::{
    change_prompt_text, display_password, masked_input, row_display, scroll_offset,
    unlock_prompt_text,
};
use passgen::session::ChangeStep;
use passgen::storage::PasswordEntry;

fn entry() -> PasswordEntry {
    PasswordEntry {
        name: "github".to_string(),
        password: "s3cr3t".to_string(),
        created_at: "1".to_string(),
    }
}

fn pair(name: &str, password: &str) -> (String, String) {
    (name.to_string(), password.to_string())
}

#[test]
fn the_passphrase_is_shown_as_asterisks() {
    assert_eq!(masked_input(""), "");
    assert_eq!(masked_input("hunter2"), "*******");
    assert_eq!(masked_input("é"), "**");
}

#[test]
fn the_list_scrolls_to_keep_the_selection_on_screen() {
    assert_eq!(scroll_offset(0, 5), 0);
    assert_eq!(scroll_offset(4, 5), 0);
    assert_eq!(scroll_offset(5, 5), 1);
    assert_eq!(scroll_offset(12, 5), 8);
    assert_eq!(scroll_offset(3, 1), 3);
    assert_eq!(scroll_offset(3, 0), 0);
    assert_eq!(scroll_offset(usize::MAX, 1), usize::MAX);
}

#[test]
fn a_long_password_is_cut_short() {
    assert_eq!(display_password(""), "");
    assert_eq!(display_password("short"), "short");
    let forty = "a".repeat(40);
    assert_eq!(display_password(&forty), forty);
    let longer = format!("{}bcd", forty);
    assert_eq!(display_password(&longer), format!("{}...", forty));
    let accented = "é".repeat(41);
    assert_eq!(display_password(&accented), format!("{}...", "é".repeat(40)));
}

#[test]
fn a_row_shows_the_entry_the_mask_or_the_edit_buffer() {
    let mask = "••••••••••••";
    let e = entry();
    assert_eq!(row_display(&e, false, false, ViewMode::Browse, "buf"), pair("github", mask));
    assert_eq!(row_display(&e, false, true, ViewMode::Browse, "buf"), pair("github", "s3cr3t"));
    assert_eq!(row_display(&e, true, false, ViewMode::Browse, "buf"), pair("github", mask));
    assert_eq!(row_display(&e, true, true, ViewMode::ConfirmDelete, "buf"), pair("github", "s3cr3t"));
    assert_eq!(row_display(&e, true, true, ViewMode::EditName, "buf"), pair("buf▌", mask));
    assert_eq!(row_display(&e, true, false, ViewMode::EditPassword, "buf"), pair("github", "buf▌"));
    assert_eq!(row_display(&e, false, true, ViewMode::EditName, "buf"), pair("github", "s3cr3t"));
    assert_eq!(row_display(&e, false, false, ViewMode::EditPassword, "buf"), pair("github", mask));
}

#[test]
fn the_prompts() {
    assert_eq!(unlock_prompt_text(), "Enter master password to encrypt your vault:");
    assert_eq!(change_prompt_text(ChangeStep::EnterOld), "Enter current master password:");
    assert_eq!(change_prompt_text(ChangeStep::EnterNew), "Enter NEW master password:");
    assert_eq!(change_prompt_text(ChangeStep::ConfirmNew), "Confirm NEW master password:");
}
