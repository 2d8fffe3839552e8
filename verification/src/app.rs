//! The generator form: which field is active, what the operator typed, and
//! the outcome of the last generation.

use crate::generator::{
    all_digits, charset, decimal_value, drawn_from, generate_password, validate, validated,
};
use crate::storage::{EntryView, PasswordEntry};
use vstd::prelude::*;
use vstd::string::StringExecFns;

verus! {

/// The six positions of the form, in navigation order.
#[derive(Clone, Copy, Debug, PartialEq, Eq, Structural)]
pub enum InputField {
    Name,
    Length,
    ToggleSpecial,
    ToggleLetters,
    ToggleNumbers,
    Generate,
}

impl InputField {
    /// Position of the field on the navigation ring, `0..6`.
    pub open spec fn ring_index(self) -> int {
        match self {
            InputField::Name => 0,
            InputField::Length => 1,
            InputField::ToggleSpecial => 2,
            InputField::ToggleLetters => 3,
            InputField::ToggleNumbers => 4,
            InputField::Generate => 5,
        }
    }

    /// The field at a ring position, taken modulo six.
    pub open spec fn at_ring_index(i: int) -> InputField {
        let r = i % 6;
        if r == 0 {
            InputField::Name
        } else if r == 1 {
            InputField::Length
        } else if r == 2 {
            InputField::ToggleSpecial
        } else if r == 3 {
            InputField::ToggleLetters
        } else if r == 4 {
            InputField::ToggleNumbers
        } else {
            InputField::Generate
        }
    }

    /// The field one step forward on the ring.
    pub open spec fn spec_next(self) -> InputField {
        InputField::at_ring_index(self.ring_index() + 1)
    }

    /// The field one step backward on the ring.
    pub open spec fn spec_prev(self) -> InputField {
        InputField::at_ring_index(self.ring_index() + 5)
    }

    /// Move to the next field.
    pub fn next(self) -> (r: InputField)
        ensures
            r == self.spec_next(),
    {
        match self {
            InputField::Name => InputField::Length,
            InputField::Length => InputField::ToggleSpecial,
            InputField::ToggleSpecial => InputField::ToggleLetters,
            InputField::ToggleLetters => InputField::ToggleNumbers,
            InputField::ToggleNumbers => InputField::Generate,
            InputField::Generate => InputField::Name,
        }
    }

    /// Move to the previous field.
    pub fn prev(self) -> (r: InputField)
        ensures
            r == self.spec_prev(),
    {
        match self {
            InputField::Name => InputField::Generate,
            InputField::Length => InputField::Name,
            InputField::ToggleSpecial => InputField::Length,
            InputField::ToggleLetters => InputField::ToggleSpecial,
            InputField::ToggleNumbers => InputField::ToggleLetters,
            InputField::Generate => InputField::ToggleNumbers,
        }
    }
}

/// What the entry viewer is doing.
#[derive(Clone, Copy, Debug, PartialEq, Eq, Structural)]
pub enum ViewMode {
    /// Moving through the list.
    Browse,
    /// Asking whether to delete the selected entry.
    ConfirmDelete,
    /// Editing the name of the selected entry.
    EditName,
    /// Editing the password of the selected entry.
    EditPassword,
}

/// Applying `next` six times leads back to the field it started from.
pub proof fn lemma_next_six_times(field: InputField)
    ensures
        field.spec_next().spec_next().spec_next().spec_next().spec_next().spec_next() == field,
{
}

/// `prev` undoes `next`, and `next` undoes `prev`.
pub proof fn lemma_prev_inverts_next(field: InputField)
    ensures
        field.spec_next().spec_prev() == field,
        field.spec_prev().spec_next() == field,
{
}

/// The character of a decimal digit: the digits follow `'0'`, which is
/// code point 48.
pub open spec fn digit_char(digit: nat) -> char {
    (48 + digit) as char
}

/// The decimal numeral of a number, without leading zeros.
pub open spec fn decimal_text(n: nat) -> Seq<char>
    decreases n,
{
    if n < 10 {
        seq![digit_char(n)]
    } else {
        decimal_text(n / 10).push(digit_char(n % 10))
    }
}

/// A numeral is made of digits, and is worth the number it was written
/// for.
pub proof fn lemma_decimal_text_value(n: nat)
    ensures
        all_digits(decimal_text(n)),
        decimal_value(decimal_text(n)) == n,
    decreases n,
{
    if n < 10 {
        let text = decimal_text(n);
        assert(text.drop_last() =~= Seq::<char>::empty());
        assert(decimal_value(text.drop_last()) == 0);
    } else {
        lemma_decimal_text_value(n / 10);
        let text = decimal_text(n);
        assert(text.drop_last() =~= decimal_text(n / 10));
        assert(text.last() == digit_char(n % 10));
    }
}

/// Appends the decimal numeral of `n`.
fn push_decimal(text: &mut String, n: u64)
    ensures
        final(text)@ == old(text)@ + decimal_text(n as nat),
    decreases n,
{
    if n >= 10 {
        push_decimal(text, n / 10);
    }
    let digit: u8 = (n % 10) as u8;
    text.push((48u8 + digit) as char);
    assert(text@ =~= old(text)@ + decimal_text(n as nat));
}

/// The time stamp of an entry: the seconds since the epoch, in decimal.
pub fn chrono_timestamp(seconds: u64) -> (r: String)
    ensures
        r@ == decimal_text(seconds as nat),
{
    let mut r = String::new();
    push_decimal(&mut r, seconds);
    assert(r@ =~= decimal_text(seconds as nat));
    r
}

/// A text without its last character; the empty text stays empty.
pub open spec fn erase(text: Seq<char>) -> Seq<char> {
    if text.len() > 0 {
        text.drop_last()
    } else {
        text
    }
}

/// The text of an optional string.
pub open spec fn text_of(text: Option<String>) -> Option<Seq<char>> {
    match text {
        Some(text) => Some(text@),
        None => None,
    }
}

/// Main application state: the generator form.
pub struct App {
    pub name_input: String,
    pub length_input: String,
    pub use_special: bool,
    pub use_letters: bool,
    pub use_numbers: bool,
    pub active_field: InputField,
    pub generated_password: Option<String>,
    pub error: Option<String>,
    pub status_message: Option<String>,
}

/// What the form holds, as plain values.
pub struct AppView {
    pub name_input: Seq<char>,
    pub length_input: Seq<char>,
    pub use_special: bool,
    pub use_letters: bool,
    pub use_numbers: bool,
    pub active_field: InputField,
    pub generated_password: Option<Seq<char>>,
    pub error: Option<Seq<char>>,
    pub status_message: Option<Seq<char>>,
}

impl View for App {
    type V = AppView;

    open spec fn view(&self) -> AppView {
        AppView {
            name_input: self.name_input@,
            length_input: self.length_input@,
            use_special: self.use_special,
            use_letters: self.use_letters,
            use_numbers: self.use_numbers,
            active_field: self.active_field,
            generated_password: text_of(self.generated_password),
            error: text_of(self.error),
            status_message: text_of(self.status_message),
        }
    }
}

impl AppView {
    /// The form as it starts out: no name, length 16, every class enabled,
    /// the name field active.
    pub open spec fn initial() -> AppView {
        AppView {
            name_input: Seq::empty(),
            length_input: "16"@,
            use_special: true,
            use_letters: true,
            use_numbers: true,
            active_field: InputField::Name,
            generated_password: None,
            error: None,
            status_message: None,
        }
    }

    /// What the form asks the generator for.
    pub open spec fn request(self) -> Result<nat, crate::generator::ValidationError> {
        validated(
            self.name_input,
            self.length_input,
            self.use_letters,
            self.use_numbers,
            self.use_special,
        )
    }

    /// The characters that the form's classes allow.
    pub open spec fn charset(self) -> Seq<char> {
        charset(self.use_letters, self.use_numbers, self.use_special)
    }

    /// Whether `password` is a possible draw for the form's request: of the
    /// length asked for, and of the enabled classes only. Where the request
    /// is refused nothing is drawn, and any value will do.
    pub open spec fn valid_draw(self, password: Seq<char>) -> bool {
        match self.request() {
            Ok(length) => password.len() == length && drawn_from(password, self.charset()),
            Err(_) => true,
        }
    }

    /// The form after a generation that drew `password`: the inputs stay,
    /// the status is cleared, and the outcome is the password, or the
    /// reason of the refusal.
    pub open spec fn generated_with(self, password: Seq<char>) -> AppView {
        match self.request() {
            Err(refusal) => AppView {
                error: Some(refusal.spec_message()),
                generated_password: None,
                status_message: None,
                ..self
            },
            Ok(_) => AppView {
                error: None,
                generated_password: Some(password),
                status_message: None,
                ..self
            },
        }
    }

    /// The form after the active field was acted on: a class flipped, a
    /// password generated where the button is active, a text field left
    /// alone.
    pub open spec fn toggled_with(self, password: Seq<char>) -> AppView {
        match self.active_field {
            InputField::ToggleSpecial => AppView { use_special: !self.use_special, ..self },
            InputField::ToggleLetters => AppView { use_letters: !self.use_letters, ..self },
            InputField::ToggleNumbers => AppView { use_numbers: !self.use_numbers, ..self },
            InputField::Generate => self.generated_with(password),
            _ => self,
        }
    }

    /// The form with a character typed into the active text field, if a
    /// text field is active.
    pub open spec fn typed(self, c: char) -> AppView {
        match self.active_field {
            InputField::Name => AppView { name_input: self.name_input.push(c), ..self },
            InputField::Length => AppView { length_input: self.length_input.push(c), ..self },
            _ => self,
        }
    }

    /// The form with the last character of the active text field erased.
    pub open spec fn erased(self) -> AppView {
        match self.active_field {
            InputField::Name => AppView { name_input: erase(self.name_input), ..self },
            InputField::Length => AppView { length_input: erase(self.length_input), ..self },
            _ => self,
        }
    }

    /// The form with the error line set.
    pub open spec fn with_error(self, error: Option<Seq<char>>) -> AppView {
        AppView { error, ..self }
    }

    /// The form with the status line set.
    pub open spec fn with_status(self, status: Option<Seq<char>>) -> AppView {
        AppView { status_message: status, ..self }
    }

    /// The form with another field active.
    pub open spec fn with_field(self, field: InputField) -> AppView {
        AppView { active_field: field, ..self }
    }

    /// The entry that the form offers for saving, stamped with `created_at`.
    pub open spec fn entry(self, created_at: Seq<char>) -> Option<EntryView> {
        match self.generated_password {
            Some(password) => Some(EntryView { name: self.name_input, password, created_at }),
            None => None,
        }
    }

    /// The form cleared for the next entry.
    pub open spec fn cleared(self) -> AppView {
        AppView {
            name_input: Seq::empty(),
            generated_password: None,
            active_field: InputField::Name,
            ..self
        }
    }
}

/// Whatever the form asks for, some password is a possible draw.
pub proof fn lemma_draw_exists(app: AppView)
    ensures
        exists|password: Seq<char>| app.valid_draw(password),
{
    match app.request() {
        Ok(length) => {
            reveal_strlit("abcdefghijklmnopqrstuvwxyz");
            reveal_strlit("ABCDEFGHIJKLMNOPQRSTUVWXYZ");
            reveal_strlit("0123456789");
            reveal_strlit("!@#$%^&*()_+-=[]{}|;:,.<>?");
            let set = app.charset();
            assert(set.len() > 0);
            let password = Seq::new(length, |i: int| set[0]);
            assert(app.valid_draw(password));
        },
        Err(_) => {
            assert(app.valid_draw(Seq::empty()));
        },
    }
}

impl App {
    /// The form as it starts out.
    pub fn new() -> (app: App)
        ensures
            app@ == AppView::initial(),
    {
        App {
            name_input: String::new(),
            length_input: String::from_str("16"),
            use_special: true,
            use_letters: true,
            use_numbers: true,
            active_field: InputField::Name,
            generated_password: None,
            error: None,
            status_message: None,
        }
    }

    /// Whether the current settings make a request that is granted.
    pub fn request_is_granted(&self) -> (r: bool)
        ensures
            r == self@.request() is Ok,
    {
        validate(
            self.name_input.as_str(),
            self.length_input.as_str(),
            self.use_letters,
            self.use_numbers,
            self.use_special,
        ).is_ok()
    }

    /// Generates a password from the current settings. The outcome is kept
    /// in the form: the password, or the text of the refusal.
    pub fn generate(&mut self)
        ensures
            exists|password: Seq<char>|
                old(self)@.valid_draw(password) && final(self)@ == #[trigger] old(
                    self,
                )@.generated_with(password),
    {
        let ghost before = self@;
        self.error = None;
        self.status_message = None;
        self.generated_password = None;
        match generate_password(
            self.name_input.as_str(),
            self.length_input.as_str(),
            self.use_letters,
            self.use_numbers,
            self.use_special,
        ) {
            Ok(password) => {
                self.generated_password = Some(password);
                assert(self@ == before.generated_with(password@));
            },
            Err(refusal) => {
                self.error = Some(refusal.message());
                assert(self@ == before.generated_with(Seq::empty()));
            },
        }
    }

    /// Acts on the active field: flips a class, or generates where the
    /// button is active. Text fields are left alone.
    pub fn toggle_current(&mut self)
        ensures
            exists|password: Seq<char>|
                old(self)@.valid_draw(password) && final(self)@ == #[trigger] old(
                    self,
                )@.toggled_with(password),
    {
        let ghost before = self@;
        proof {
            lemma_draw_exists(before);
        }
        let ghost any = choose|password: Seq<char>| before.valid_draw(password);
        match self.active_field {
            InputField::ToggleSpecial => {
                self.use_special = !self.use_special;
                assert(self@ == before.toggled_with(any));
            },
            InputField::ToggleLetters => {
                self.use_letters = !self.use_letters;
                assert(self@ == before.toggled_with(any));
            },
            InputField::ToggleNumbers => {
                self.use_numbers = !self.use_numbers;
                assert(self@ == before.toggled_with(any));
            },
            InputField::Generate => {
                self.generate();
                let ghost drawn = choose|password: Seq<char>|
                    before.valid_draw(password) && self@ == #[trigger] before.generated_with(
                        password,
                    );
                assert(self@ == before.toggled_with(drawn));
            },
            _ => {
                assert(self@ == before.toggled_with(any));
            },
        }
    }

    /// The text field that is active, if a text field is: the caller edits
    /// the form through it. Where the returned text ends up is where the
    /// field ends up; nothing else changes.
    pub fn current_text_input(&mut self) -> (r: Option<&mut String>)
        ensures
            match old(self).active_field {
                InputField::Name => r matches Some(input) && *input == old(self).name_input
                    && *final(self) == (App { name_input: *final(input), ..*old(self) }),
                InputField::Length => r matches Some(input) && *input == old(self).length_input
                    && *final(self) == (App { length_input: *final(input), ..*old(self) }),
                _ => r is None && *final(self) == *old(self),
            },
    {
        match self.active_field {
            InputField::Name => Some(&mut self.name_input),
            InputField::Length => Some(&mut self.length_input),
            _ => None,
        }
    }

    /// Navigates to the next field.
    pub fn next_field(&mut self)
        ensures
            *final(self) == (App { active_field: old(self).active_field.spec_next(), ..*old(self) }),
    {
        self.active_field = self.active_field.next();
    }

    /// Navigates to the previous field.
    pub fn prev_field(&mut self)
        ensures
            *final(self) == (App { active_field: old(self).active_field.spec_prev(), ..*old(self) }),
    {
        self.active_field = self.active_field.prev();
    }

    /// The entry to save for the generated password, if there is one,
    /// stamped with the time of its creation.
    pub fn get_entry(&self, created_at: String) -> (r: Option<PasswordEntry>)
        ensures
            r is Some <==> self.generated_password is Some,
            r matches Some(entry) ==> Some(entry@) == self@.entry(created_at@),
    {
        match &self.generated_password {
            Some(password) => Some(
                PasswordEntry { name: self.name_input.clone(), password: password.clone(), created_at },
            ),
            None => None,
        }
    }

    /// Clears the inputs after a successful save.
    pub fn clear_for_next(&mut self)
        ensures
            final(self)@ == old(self)@.cleared(),
    {
        self.name_input.clear();
        self.generated_password = None;
        self.active_field = InputField::Name;
    }
}

impl Default for App {
    fn default() -> (app: App)
        ensures
            app@ == AppView::initial(),
    {
        App::new()
    }
}

} // verus!
