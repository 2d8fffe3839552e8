//! The password generator: validation of the request, the character set of
//! the enabled classes, and the drawing of the characters.

use crate::text::{blank, is_blank};
use vstd::prelude::*;
use vstd::string::StringExecFns;

verus! {

/// The shortest password that can be asked for.
pub const MIN_LENGTH: usize = 1;

/// The longest password that can be asked for.
pub const MAX_LENGTH: usize = 128;

/// Why a request for a password is refused.
#[derive(Clone, Copy, Debug, PartialEq, Eq, Structural)]
pub enum ValidationError {
    /// The name is empty once trimmed.
    NameRequired,
    /// The length is not an integer.
    InvalidLength,
    /// The length is an integer outside `1..=128`.
    LengthOutOfRange,
    /// No character class is enabled.
    NoCharacterClass,
}

impl ValidationError {
    /// The text shown for the refusal.
    pub open spec fn spec_message(self) -> Seq<char> {
        match self {
            ValidationError::NameRequired => "name required"@,
            ValidationError::InvalidLength => "invalid length"@,
            ValidationError::LengthOutOfRange => "length must be 1-128"@,
            ValidationError::NoCharacterClass => "no character class enabled"@,
        }
    }

    /// The text shown for the refusal.
    pub fn message(&self) -> (r: String)
        ensures
            r@ == self.spec_message(),
    {
        let text: &str = match self {
            ValidationError::NameRequired => "name required",
            ValidationError::InvalidLength => "invalid length",
            ValidationError::LengthOutOfRange => "length must be 1-128",
            ValidationError::NoCharacterClass => "no character class enabled",
        };
        String::from_str(text)
    }
}

/// Whether the character is an ASCII decimal digit.
pub open spec fn is_digit(c: char) -> bool {
    '0' <= c <= '9'
}

/// Whether every character is an ASCII decimal digit.
pub open spec fn all_digits(s: Seq<char>) -> bool {
    forall|i: int| 0 <= i < s.len() ==> is_digit(#[trigger] s[i])
}

/// The number that a string of decimal digits writes.
pub open spec fn decimal_value(s: Seq<char>) -> nat
    decreases s.len(),
{
    if s.len() == 0 {
        0
    } else {
        (decimal_value(s.drop_last()) * 10 + (s.last() as nat - '0' as nat)) as nat
    }
}

/// Whether a text starts with a sign.
pub open spec fn is_signed(text: Seq<char>) -> bool {
    text.len() > 0 && (text[0] == '+' || text[0] == '-')
}

/// The integer that a text writes: an optional `+` or `-`, then one or more
/// decimal digits, however many. Anything else is no integer.
pub open spec fn parsed_length(text: Seq<char>) -> Option<int> {
    let digits = if is_signed(text) {
        text.skip(1)
    } else {
        text
    };
    if digits.len() == 0 || !all_digits(digits) {
        None
    } else if text[0] == '-' {
        Some(-(decimal_value(digits) as int))
    } else {
        Some(decimal_value(digits) as int)
    }
}

/// The length that a text asks for: the integer it writes, if that lies in
/// `1..=128`. A text that is no integer is refused as such; every integer
/// outside the range, negative or however large, is refused for the range.
pub open spec fn checked_length(text: Seq<char>) -> Result<nat, ValidationError> {
    match parsed_length(text) {
        None => Err(ValidationError::InvalidLength),
        Some(length) => if length < MIN_LENGTH || length > MAX_LENGTH {
            Err(ValidationError::LengthOutOfRange)
        } else {
            Ok(length as nat)
        },
    }
}

/// The characters that a password is drawn from: the enabled classes in the
/// order lowercase letters, uppercase letters, digits, symbols.
pub open spec fn charset(letters: bool, digits: bool, special: bool) -> Seq<char> {
    (if letters {
        "abcdefghijklmnopqrstuvwxyz"@ + "ABCDEFGHIJKLMNOPQRSTUVWXYZ"@
    } else {
        Seq::<char>::empty()
    }) + (if digits {
        "0123456789"@
    } else {
        Seq::<char>::empty()
    }) + (if special {
        "!@#$%^&*()_+-=[]{}|;:,.<>?"@
    } else {
        Seq::<char>::empty()
    })
}

/// The length of the password that a request is granted, or why the request
/// is refused. The checks are made in this order: name, length, classes.
pub open spec fn validated(
    name: Seq<char>,
    length_text: Seq<char>,
    letters: bool,
    digits: bool,
    special: bool,
) -> Result<nat, ValidationError> {
    if is_blank(name) {
        Err(ValidationError::NameRequired)
    } else {
        match checked_length(length_text) {
            Err(refusal) => Err(refusal),
            Ok(length) => if !letters && !digits && !special {
                Err(ValidationError::NoCharacterClass)
            } else {
                Ok(length)
            },
        }
    }
}

/// Whether every character of the password is one of the set.
pub open spec fn drawn_from(password: Seq<char>, set: Seq<char>) -> bool {
    forall|i: int| 0 <= i < password.len() ==> set.contains(#[trigger] password[i])
}

/// The password that a list of picks spells: one character of the set for
/// each pick, in order.
pub open spec fn spelled(set: Seq<char>, picks: Seq<usize>) -> Seq<char> {
    Seq::new(picks.len(), |i: int| set[picks[i] as int])
}

/// Whether every pick is an index into a set of `size` characters.
pub open spec fn picks_in_range(picks: Seq<usize>, size: nat) -> bool {
    forall|i: int| 0 <= i < picks.len() ==> (#[trigger] picks[i]) < size
}

/// With no class enabled every request is refused, whatever name and
/// length it gives; with a good name and length the reason is the classes.
pub proof fn lemma_no_class_is_refused(name: Seq<char>, length_text: Seq<char>)
    ensures
        validated(name, length_text, false, false, false) is Err,
        !is_blank(name) && checked_length(length_text) is Ok ==> validated(
            name,
            length_text,
            false,
            false,
            false,
        ) == Err::<nat, ValidationError>(ValidationError::NoCharacterClass),
{
}

/// A length is refused as no number only where it is no integer: every
/// integer outside `1..=128` is refused for the range, negative ones and
/// those too large for any machine word among them.
pub proof fn lemma_integers_are_checked_for_range(text: Seq<char>)
    ensures
        checked_length(text) == Err::<nat, ValidationError>(ValidationError::InvalidLength)
            <==> parsed_length(text) is None,
        parsed_length(text) matches Some(length) ==> (checked_length(text) == Err::<
            nat,
            ValidationError,
        >(ValidationError::LengthOutOfRange) <==> length < 1 || length > 128),
        parsed_length(text) matches Some(length) ==> (checked_length(text) is Ok <==> 1 <= length
            <= 128),
        is_signed(text) && text[0] == '-' ==> !(checked_length(text) is Ok),
{
}

/// The digits read so far, when `index` characters of the text are read
/// and the first `skip` of them are the sign.
spec fn digits_read(index: int, skip: int) -> int {
    if index >= skip {
        index - skip
    } else {
        0
    }
}

/// A number as far as the range check needs it: itself up to the longest
/// length, and one more than that for every larger one.
spec fn capped(value: nat) -> nat {
    if value > MAX_LENGTH {
        (MAX_LENGTH + 1) as nat
    } else {
        value
    }
}

/// Reads the length that a text asks for.
///
/// The whole text is read before the range is checked, so a number of any
/// size is told apart from a text that is no integer.
pub fn parse_length(text: &str) -> (r: Result<usize, ValidationError>)
    ensures
        match checked_length(text@) {
            Ok(length) => r == Ok::<usize, ValidationError>(length as usize),
            Err(refusal) => r == Err::<usize, ValidationError>(refusal),
        },
{
    let ghost skip: int = if is_signed(text@) {
        1
    } else {
        0
    };
    let ghost digits = text@.skip(skip);
    proof {
        assert(text@.skip(0) =~= text@);
    }
    let mut value: usize = 0;
    let mut any: bool = false;
    let mut negative: bool = false;
    let mut first: bool = true;
    for c in it: text.chars()
        invariant
            it.seq() == text@,
            first == (it.index() == 0),
            digits == text@.skip(skip),
            skip == 0 || skip == 1,
            skip == 1 <==> is_signed(text@),
            negative ==> is_signed(text@) && text@[0] == '-',
            it.index() > 0 && is_signed(text@) && text@[0] == '-' ==> negative,
            any == (digits_read(it.index() as int, skip) > 0),
            all_digits(digits.take(digits_read(it.index() as int, skip))),
            value == capped(decimal_value(digits.take(digits_read(it.index() as int, skip)))),
    {
        let ghost seen = digits_read(it.index() as int, skip);
        if first && (c == '+' || c == '-') {
            first = false;
            negative = c == '-';
            assert(digits.take(0) =~= Seq::<char>::empty());
        } else {
            first = false;
            assert(digits[seen] == c);
            if !(c >= '0' && c <= '9') {
                assert(!all_digits(digits));
                return Err(ValidationError::InvalidLength);
            }
            let digit: usize = (c as u32 - '0' as u32) as usize;
            proof {
                let before = decimal_value(digits.take(seen));
                assert(digits.take(seen + 1).drop_last() =~= digits.take(seen));
                assert(digits.take(seen + 1).last() == c);
                assert(decimal_value(digits.take(seen + 1)) == before * 10 + digit);
                assert forall|i: int| 0 <= i < seen + 1 implies is_digit(
                    #[trigger] digits.take(seen + 1)[i],
                ) by {
                    if i < seen {
                        assert(digits.take(seen + 1)[i] == digits.take(seen)[i]);
                    }
                }
            }
            value = value * 10 + digit;
            if value > MAX_LENGTH {
                value = MAX_LENGTH + 1;
            }
            any = true;
        }
    }
    assert(digits_read(text@.len() as int, skip) == digits.len());
    assert(digits.take(digits.len() as int) =~= digits);
    if !any {
        Err(ValidationError::InvalidLength)
    } else if negative || value < MIN_LENGTH || value > MAX_LENGTH {
        Err(ValidationError::LengthOutOfRange)
    } else {
        Ok(value)
    }
}

/// Appends the characters of `s` to `v`.
fn append_chars(v: &mut Vec<char>, s: &str)
    ensures
        final(v)@ == old(v)@ + s@,
{
    for c in it: s.chars()
        invariant
            it.seq() == s@,
            v@ == old(v)@ + s@.take(it.index()),
    {
        v.push(c);
        assert(s@.take(it.index() + 1) =~= s@.take(it.index()).push(c));
    }
    assert(s@.take(s@.len() as int) =~= s@);
}

/// The characters that a password is drawn from.
pub fn charset_of(letters: bool, digits: bool, special: bool) -> (set: Vec<char>)
    ensures
        set@ == charset(letters, digits, special),
        set@.len() > 0 <==> letters || digits || special,
{
    let mut set: Vec<char> = Vec::new();
    if letters {
        append_chars(&mut set, "abcdefghijklmnopqrstuvwxyz");
        append_chars(&mut set, "ABCDEFGHIJKLMNOPQRSTUVWXYZ");
    }
    if digits {
        append_chars(&mut set, "0123456789");
    }
    if special {
        append_chars(&mut set, "!@#$%^&*()_+-=[]{}|;:,.<>?");
    }
    proof {
        reveal_strlit("abcdefghijklmnopqrstuvwxyz");
        reveal_strlit("ABCDEFGHIJKLMNOPQRSTUVWXYZ");
        reveal_strlit("0123456789");
        reveal_strlit("!@#$%^&*()_+-=[]{}|;:,.<>?");
        assert(set@ =~= charset(letters, digits, special));
    }
    set
}

/// Spells the password of a list of picks from a set.
pub fn spell(set: &Vec<char>, picks: &Vec<usize>) -> (password: String)
    requires
        picks_in_range(picks@, set@.len()),
    ensures
        password@ == spelled(set@, picks@),
{
    let mut password = String::new();
    let mut i: usize = 0;
    while i < picks.len()
        invariant
            i <= picks.len(),
            picks_in_range(picks@, set@.len()),
            password@ == spelled(set@, picks@.take(i as int)),
        decreases picks.len() - i,
    {
        password.push(set[picks[i]]);
        i += 1;
        assert(password@ =~= spelled(set@, picks@.take(i as int)));
    }
    assert(picks@.take(i as int) =~= picks@);
    password
}

/// Checks a request: the length of the password that it is granted, or why
/// it is refused. Nothing is drawn.
pub fn validate(name: &str, length_text: &str, letters: bool, digits: bool, special: bool) -> (r:
    Result<usize, ValidationError>)
    ensures
        match validated(name@, length_text@, letters, digits, special) {
            Err(refusal) => r == Err::<usize, ValidationError>(refusal),
            Ok(length) => r == Ok::<usize, ValidationError>(length as usize),
        },
{
    if blank(name) {
        return Err(ValidationError::NameRequired);
    }
    let length = match parse_length(length_text) {
        Ok(length) => length,
        Err(refusal) => {
            return Err(refusal);
        },
    };
    if !letters && !digits && !special {
        return Err(ValidationError::NoCharacterClass);
    }
    Ok(length)
}

/// Generates a password: `length` characters drawn independently and
/// uniformly, with replacement, from the enabled classes.
///
/// The request is refused where the name is blank, the length is no integer
/// or an integer outside `1..=128`, or no class is enabled. Which characters are
/// drawn is a matter of chance; every outcome has the length asked for and
/// holds characters of the set only.
pub fn generate_password(
    name: &str,
    length_text: &str,
    letters: bool,
    digits: bool,
    special: bool,
) -> (r: Result<String, ValidationError>)
    ensures
        match validated(name@, length_text@, letters, digits, special) {
            Err(refusal) => r == Err::<String, ValidationError>(refusal),
            Ok(length) => r matches Ok(password) && password@.len() == length && drawn_from(
                password@,
                charset(letters, digits, special),
            ),
        },
{
    let length = match validate(name, length_text, letters, digits, special) {
        Ok(length) => length,
        Err(refusal) => {
            return Err(refusal);
        },
    };
    let set = charset_of(letters, digits, special);
    let mut picks: Vec<usize> = Vec::new();
    let mut i: usize = 0;
    while i < length
        invariant
            i <= length,
            picks.len() == i,
            set@.len() > 0,
            picks_in_range(picks@, set@.len()),
        decreases length - i,
    {
        picks.push(crate::random::index_below(set.len()));
        i += 1;
    }
    let password = spell(&set, &picks);
    assert forall|j: int| 0 <= j < password@.len() implies set@.contains(
        #[trigger] password@[j],
    ) by {
        assert(password@[j] == set@[picks@[j] as int]);
    }
    Ok(password)
}

} // verus!
