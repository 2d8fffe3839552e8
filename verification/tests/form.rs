use passgen::app::{chrono_timestamp, App, InputField, ViewMode};

const RING: [InputField; 6] = [
    InputField::Name,
    InputField::Length,
    InputField::ToggleSpecial,
    InputField::ToggleLetters,
    InputField::ToggleNumbers,
    InputField::Generate,
];

#[test]
fn next_walks_the_ring_in_order() {
    for i in 0..6 {
        assert_eq!(RING[i].next(), RING[(i + 1) % 6]);
    }
    assert_eq!(InputField::Generate.next(), InputField::Name);
}

#[test]
fn prev_walks_the_ring_backwards() {
    for i in 0..6 {
        assert_eq!(RING[i].prev(), RING[(i + 5) % 6]);
    }
    assert_eq!(InputField::Name.prev(), InputField::Generate);
}

#[test]
fn six_times_next_returns_to_the_start() {
    for field in RING {
        let mut f = field;
        for step in 1..=6 {
            f = f.next();
            assert_eq!(f == field, step == 6);
        }
    }
}

#[test]
fn prev_is_the_inverse_of_next() {
    for field in RING {
        assert_eq!(field.next().prev(), field);
        assert_eq!(field.prev().next(), field);
    }
}

#[test]
fn a_new_form_has_the_defaults() {
    for app in [App::new(), App::default()] {
        assert_eq!(app.name_input, "");
        assert_eq!(app.length_input, "16");
        assert!(app.use_special);
        assert!(app.use_letters);
        assert!(app.use_numbers);
        assert_eq!(app.active_field, InputField::Name);
        assert_eq!(app.generated_password, None);
        assert_eq!(app.error, None);
        assert_eq!(app.status_message, None);
    }
}

#[test]
fn navigation_moves_the_active_field() {
    let mut app = App::new();
    app.next_field();
    assert_eq!(app.active_field, InputField::Length);
    app.next_field();
    assert_eq!(app.active_field, InputField::ToggleSpecial);
    app.prev_field();
    app.prev_field();
    app.prev_field();
    assert_eq!(app.active_field, InputField::Generate);
    assert_eq!(app.length_input, "16");
}

#[test]
fn the_active_text_field_can_be_edited() {
    let mut app = App::new();
    app.current_text_input().unwrap().push('x');
    app.current_text_input().unwrap().push('y');
    assert_eq!(app.name_input, "xy");
    assert_eq!(app.current_text_input().unwrap().pop(), Some('y'));
    assert_eq!(app.name_input, "x");
    app.next_field();
    app.current_text_input().unwrap().pop();
    app.current_text_input().unwrap().push('2');
    assert_eq!(app.length_input, "12");
    assert_eq!(app.name_input, "x");
    for _ in 0..4 {
        app.next_field();
        assert!(app.current_text_input().is_none());
    }
}

#[test]
fn toggling_flips_the_active_class_only() {
    let mut app = App::new();
    app.toggle_current();
    assert!(app.use_special && app.use_letters && app.use_numbers);
    app.active_field = InputField::Length;
    app.toggle_current();
    assert!(app.use_special && app.use_letters && app.use_numbers);
    app.active_field = InputField::ToggleSpecial;
    app.toggle_current();
    assert!(!app.use_special && app.use_letters && app.use_numbers);
    app.active_field = InputField::ToggleLetters;
    app.toggle_current();
    assert!(!app.use_special && !app.use_letters && app.use_numbers);
    app.active_field = InputField::ToggleNumbers;
    app.toggle_current();
    assert!(!app.use_special && !app.use_letters && !app.use_numbers);
    app.toggle_current();
    assert!(app.use_numbers);
    assert_eq!(app.generated_password, None);
}

#[test]
fn toggling_the_button_generates() {
    let mut app = App::new();
    app.name_input = "site".to_string();
    app.active_field = InputField::Generate;
    app.toggle_current();
    assert_eq!(app.generated_password.as_ref().unwrap().len(), 16);
    assert_eq!(app.error, None);
}

#[test]
fn generate_keeps_the_password_or_the_refusal() {
    let mut app = App::new();
    app.status_message = Some("old".to_string());
    app.generate();
    assert_eq!(app.error.as_deref(), Some("name required"));
    assert_eq!(app.generated_password, None);
    assert_eq!(app.status_message, None);

    app.name_input = "site".to_string();
    app.length_input = "twelve".to_string();
    app.generate();
    assert_eq!(app.error.as_deref(), Some("invalid length"));

    app.length_input = "0".to_string();
    app.generate();
    assert_eq!(app.error.as_deref(), Some("length must be 1-128"));

    for length in ["-5", "129", "99999999999999999999999999999999999999999"] {
        app.length_input = length.to_string();
        app.generate();
        assert_eq!(app.error.as_deref(), Some("length must be 1-128"));
        assert_eq!(app.generated_password, None);
    }

    app.length_input = "12".to_string();
    app.use_letters = false;
    app.use_numbers = false;
    app.use_special = false;
    app.generate();
    assert_eq!(app.error.as_deref(), Some("no character class enabled"));
    assert_eq!(app.generated_password, None);

    app.use_numbers = true;
    app.status_message = Some("old".to_string());
    app.generate();
    assert_eq!(app.error, None);
    assert_eq!(app.status_message, None);
    let password = app.generated_password.clone().unwrap();
    assert_eq!(password.len(), 12);
    assert!(password.chars().all(|c| c.is_ascii_digit()));
    assert_eq!(app.name_input, "site");
    assert_eq!(app.length_input, "12");

    app.length_input = "x".to_string();
    app.generate();
    assert_eq!(app.generated_password, None);
}

#[test]
fn the_entry_carries_name_password_and_time() {
    let mut app = App::new();
    assert!(app.get_entry("1700000000".to_string()).is_none());
    app.name_input = "github".to_string();
    app.generate();
    let entry = app.get_entry("1700000000".to_string()).unwrap();
    assert_eq!(entry.name, "github");
    assert_eq!(Some(entry.password), app.generated_password);
    assert_eq!(entry.created_at, "1700000000");
}

#[test]
fn clearing_empties_name_and_password_and_activates_the_name() {
    let mut app = App::new();
    app.name_input = "github".to_string();
    app.length_input = "20".to_string();
    app.use_special = false;
    app.generate();
    app.active_field = InputField::Generate;
    app.status_message = Some("kept".to_string());
    app.clear_for_next();
    assert_eq!(app.name_input, "");
    assert_eq!(app.generated_password, None);
    assert_eq!(app.active_field, InputField::Name);
    assert_eq!(app.length_input, "20");
    assert!(!app.use_special);
    assert_eq!(app.status_message.as_deref(), Some("kept"));
}

#[test]
fn view_modes_are_distinct() {
    let modes = [ViewMode::Browse, ViewMode::ConfirmDelete, ViewMode::EditName, ViewMode::EditPassword];
    for (i, a) in modes.iter().enumerate() {
        for (j, b) in modes.iter().enumerate() {
            assert_eq!(a == b, i == j);
        }
    }
}

#[test]
fn a_time_stamp_is_the_decimal_numeral_of_the_seconds() {
    assert_eq!(chrono_timestamp(0), "0");
    assert_eq!(chrono_timestamp(9), "9");
    assert_eq!(chrono_timestamp(10), "10");
    assert_eq!(chrono_timestamp(1700000000), "1700000000");
    assert_eq!(chrono_timestamp(u64::MAX), "18446744073709551615");
    for n in [1u64, 12, 100, 101, 999, 1000, 65535, 4294967296, 9007199254740993] {
        assert_eq!(chrono_timestamp(n), n.to_string());
        assert_eq!(chrono_timestamp(n).parse::<u64>(), Ok(n));
    }
}

#[test]
fn a_negative_length_is_out_of_range() {
    let mut app = App::new();
    app.name_input = "x".to_string();
    app.length_input = "-5".to_string();
    app.generate();
    assert_eq!(app.generated_password, None);
    assert_eq!(app.error.as_deref(), Some("length must be 1-128"));
}
