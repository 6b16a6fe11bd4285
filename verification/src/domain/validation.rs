//! The rules a password has to meet.

use crate::text::{
    char_is_alphanumeric, char_is_lowercase, char_is_uppercase, char_is_whitespace,
    is_alphanumeric, is_lowercase, is_uppercase, is_whitespace,
};
use vstd::prelude::*;
use vstd::string::StringExecFns;

verus! {

/// What is asked of a password. The lengths count bytes of UTF-8.
#[derive(Debug, Clone, Copy, PartialEq, Eq, Structural)]
pub struct PasswordRequirements {
    pub min_length: usize,
    pub max_length: usize,
    pub require_uppercase: bool,
    pub require_lowercase: bool,
    pub require_digit: bool,
    pub require_special_char: bool,
}

impl PasswordRequirements {
    /// The requirements for every password of this service: 8 to 255 bytes,
    /// with an uppercase letter, a lowercase letter, a digit and a special
    /// character.
    pub open spec fn standard() -> PasswordRequirements {
        PasswordRequirements {
            min_length: 8,
            max_length: 255,
            require_uppercase: true,
            require_lowercase: true,
            require_digit: true,
            require_special_char: true,
        }
    }
}

impl Default for PasswordRequirements {
    fn default() -> (r: Self)
        ensures
            r == PasswordRequirements::standard(),
    {
        PasswordRequirements {
            min_length: 8,
            max_length: 255,
            require_uppercase: true,
            require_lowercase: true,
            require_digit: true,
            require_special_char: true,
        }
    }
}

/// Whether the character is one of the ten ASCII digits.
pub open spec fn is_ascii_digit(c: char) -> bool {
    '0' <= c && c <= '9'
}

/// Whether the character is neither a letter, nor a number, nor white space.
pub open spec fn is_special(c: char) -> bool {
    !char_is_alphanumeric(c) && !char_is_whitespace(c)
}

/// The kinds of character that the rules ask for, each present or not.
#[derive(Debug, Clone, Copy, PartialEq, Eq, Structural)]
pub struct CharClasses {
    pub uppercase: bool,
    pub lowercase: bool,
    pub digit: bool,
    pub special: bool,
}

/// The kinds of character that occur in a text.
pub open spec fn classes_of(s: Seq<char>) -> CharClasses {
    CharClasses {
        uppercase: exists|i: int| 0 <= i < s.len() && char_is_uppercase(#[trigger] s[i]),
        lowercase: exists|i: int| 0 <= i < s.len() && char_is_lowercase(#[trigger] s[i]),
        digit: exists|i: int| 0 <= i < s.len() && is_ascii_digit(#[trigger] s[i]),
        special: exists|i: int| 0 <= i < s.len() && is_special(#[trigger] s[i]),
    }
}

/// Finds out which kinds of character occur in a text.
pub fn scan_classes(s: &str) -> (r: CharClasses)
    ensures
        r == classes_of(s@),
{
    let mut found = CharClasses { uppercase: false, lowercase: false, digit: false, special: false };
    for c in it: s.chars()
        invariant
            it.seq() == s@,
            found == classes_of(s@.subrange(0, it.index() as int)),
    {
        let ghost before = s@.subrange(0, it.index() as int);
        let upper = is_uppercase(c);
        let lower = is_lowercase(c);
        let digit = '0' <= c && c <= '9';
        let special = !is_alphanumeric(c) && !is_whitespace(c);
        found = CharClasses {
            uppercase: found.uppercase || upper,
            lowercase: found.lowercase || lower,
            digit: found.digit || digit,
            special: found.special || special,
        };
        proof {
            assert(s@.subrange(0, it.index() + 1) == before.push(c));
            lemma_classes_push(before, c);
        }
    }
    proof {
        assert(s@.subrange(0, s@.len() as int) == s@);
    }
    found
}

/// The kinds of character in a text with one more character at its end.
pub proof fn lemma_classes_push(s: Seq<char>, c: char)
    ensures
        classes_of(s.push(c)) == (CharClasses {
            uppercase: classes_of(s).uppercase || char_is_uppercase(c),
            lowercase: classes_of(s).lowercase || char_is_lowercase(c),
            digit: classes_of(s).digit || is_ascii_digit(c),
            special: classes_of(s).special || is_special(c),
        }),
{
    let t = s.push(c);
    assert(t[s.len() as int] == c);
    assert forall|i: int| 0 <= i < s.len() implies #[trigger] t[i] == s[i] by {}
    assert(classes_of(t).uppercase == (classes_of(s).uppercase || char_is_uppercase(c))) by {
        if classes_of(s).uppercase {
            let i = choose|i: int| 0 <= i < s.len() && char_is_uppercase(#[trigger] s[i]);
            assert(char_is_uppercase(t[i]));
        }
        if char_is_uppercase(c) {
            assert(char_is_uppercase(t[s.len() as int]));
        }
        if classes_of(t).uppercase {
            let i = choose|i: int| 0 <= i < t.len() && char_is_uppercase(#[trigger] t[i]);
            if i < s.len() {
                assert(char_is_uppercase(s[i]));
            }
        }
    }
    assert(classes_of(t).lowercase == (classes_of(s).lowercase || char_is_lowercase(c))) by {
        if classes_of(s).lowercase {
            let i = choose|i: int| 0 <= i < s.len() && char_is_lowercase(#[trigger] s[i]);
            assert(char_is_lowercase(t[i]));
        }
        if char_is_lowercase(c) {
            assert(char_is_lowercase(t[s.len() as int]));
        }
        if classes_of(t).lowercase {
            let i = choose|i: int| 0 <= i < t.len() && char_is_lowercase(#[trigger] t[i]);
            if i < s.len() {
                assert(char_is_lowercase(s[i]));
            }
        }
    }
    assert(classes_of(t).digit == (classes_of(s).digit || is_ascii_digit(c))) by {
        if classes_of(s).digit {
            let i = choose|i: int| 0 <= i < s.len() && is_ascii_digit(#[trigger] s[i]);
            assert(is_ascii_digit(t[i]));
        }
        if is_ascii_digit(c) {
            assert(is_ascii_digit(t[s.len() as int]));
        }
        if classes_of(t).digit {
            let i = choose|i: int| 0 <= i < t.len() && is_ascii_digit(#[trigger] t[i]);
            if i < s.len() {
                assert(is_ascii_digit(s[i]));
            }
        }
    }
    assert(classes_of(t).special == (classes_of(s).special || is_special(c))) by {
        if classes_of(s).special {
            let i = choose|i: int| 0 <= i < s.len() && is_special(#[trigger] s[i]);
            assert(is_special(t[i]));
        }
        if is_special(c) {
            assert(is_special(t[s.len() as int]));
        }
        if classes_of(t).special {
            let i = choose|i: int| 0 <= i < t.len() && is_special(#[trigger] t[i]);
            if i < s.len() {
                assert(is_special(s[i]));
            }
        }
    }
}

/// The character of a decimal digit.
pub open spec fn digit_char(d: nat) -> char {
    if d == 0 {
        '0'
    } else if d == 1 {
        '1'
    } else if d == 2 {
        '2'
    } else if d == 3 {
        '3'
    } else if d == 4 {
        '4'
    } else if d == 5 {
        '5'
    } else if d == 6 {
        '6'
    } else if d == 7 {
        '7'
    } else if d == 8 {
        '8'
    } else {
        '9'
    }
}

/// A number in decimal, without leading zeros.
pub open spec fn decimal(n: nat) -> Seq<char>
    decreases n,
{
    if n < 10 {
        seq![digit_char(n)]
    } else {
        decimal(n / 10).push(digit_char(n % 10))
    }
}

/// The text of one decimal digit.
fn digit_str(d: usize) -> (r: &'static str)
    requires
        d < 10,
    ensures
        r@ == seq![digit_char(d as nat)],
{
    proof {
        reveal_strlit("0");
        reveal_strlit("1");
        reveal_strlit("2");
        reveal_strlit("3");
        reveal_strlit("4");
        reveal_strlit("5");
        reveal_strlit("6");
        reveal_strlit("7");
        reveal_strlit("8");
        reveal_strlit("9");
    }
    let r = if d == 0 {
        "0"
    } else if d == 1 {
        "1"
    } else if d == 2 {
        "2"
    } else if d == 3 {
        "3"
    } else if d == 4 {
        "4"
    } else if d == 5 {
        "5"
    } else if d == 6 {
        "6"
    } else if d == 7 {
        "7"
    } else if d == 8 {
        "8"
    } else {
        "9"
    };
    assert(r@ =~= seq![digit_char(d as nat)]);
    r
}

/// Writes a number in decimal.
pub fn decimal_string(n: usize) -> (r: String)
    ensures
        r@ == decimal(n as nat),
    decreases n,
{
    if n < 10 {
        digit_str(n).to_owned()
    } else {
        let mut s = decimal_string(n / 10);
        s.append(digit_str(n % 10));
        assert(s@ =~= decimal(n as nat));
        s
    }
}

/// The first rule that a password breaks.
#[derive(Debug, Clone, Copy, PartialEq, Eq, Structural)]
pub enum PasswordViolation {
    TooShort,
    TooLong,
    NoUppercase,
    NoLowercase,
    NoDigit,
    NoSpecialChar,
}

/// The length of a text in bytes of UTF-8.
pub open spec fn byte_len(s: Seq<char>) -> nat {
    vstd::utf8::encode_utf8(s).len()
}

/// The first rule that `password` breaks, in the order length, uppercase,
/// lowercase, digit, special character; `None` where it meets them all.
pub open spec fn password_violation(password: Seq<char>, req: PasswordRequirements) -> Option<
    PasswordViolation,
> {
    let classes = classes_of(password);
    if byte_len(password) < req.min_length {
        Some(PasswordViolation::TooShort)
    } else if byte_len(password) > req.max_length {
        Some(PasswordViolation::TooLong)
    } else if req.require_uppercase && !classes.uppercase {
        Some(PasswordViolation::NoUppercase)
    } else if req.require_lowercase && !classes.lowercase {
        Some(PasswordViolation::NoLowercase)
    } else if req.require_digit && !classes.digit {
        Some(PasswordViolation::NoDigit)
    } else if req.require_special_char && !classes.special {
        Some(PasswordViolation::NoSpecialChar)
    } else {
        None
    }
}

/// The message for a broken rule.
pub open spec fn violation_message(v: PasswordViolation, req: PasswordRequirements) -> Seq<char> {
    match v {
        PasswordViolation::TooShort => "Password must be at least "@ + decimal(
            req.min_length as nat,
        ) + " characters long"@,
        PasswordViolation::TooLong => "Password must be at most "@ + decimal(
            req.max_length as nat,
        ) + " characters long"@,
        PasswordViolation::NoUppercase => "Password must contain at least one uppercase letter"@,
        PasswordViolation::NoLowercase => "Password must contain at least one lowercase letter"@,
        PasswordViolation::NoDigit => "Password must contain at least one digit"@,
        PasswordViolation::NoSpecialChar =>
            "Password must contain at least one special character"@,
    }
}

/// What validating a password answers: nothing, or the message for the first
/// rule it breaks.
pub open spec fn password_verdict(password: Seq<char>, req: PasswordRequirements) -> Result<
    (),
    Seq<char>,
> {
    match password_violation(password, req) {
        None => Ok(()),
        Some(v) => Err(violation_message(v, req)),
    }
}

/// A validation result with its message as characters.
pub open spec fn verdict_view(r: Result<(), String>) -> Result<(), Seq<char>> {
    match r {
        Ok(()) => Ok(()),
        Err(m) => Err(m@),
    }
}

/// Checks a password against the requirements and names the first rule it
/// breaks.
pub fn validate_password(password: &str, req: &PasswordRequirements) -> (r: Result<(), String>)
    ensures
        verdict_view(r) == password_verdict(password@, *req),
{
    let length = password.as_bytes().len();
    if length < req.min_length {
        let mut message = "Password must be at least ".to_owned();
        message.append(decimal_string(req.min_length).as_str());
        message.append(" characters long");
        assert(message@ =~= violation_message(PasswordViolation::TooShort, *req));
        return Err(message);
    }
    if length > req.max_length {
        let mut message = "Password must be at most ".to_owned();
        message.append(decimal_string(req.max_length).as_str());
        message.append(" characters long");
        assert(message@ =~= violation_message(PasswordViolation::TooLong, *req));
        return Err(message);
    }
    let classes = scan_classes(password);
    if req.require_uppercase && !classes.uppercase {
        return Err("Password must contain at least one uppercase letter".to_owned());
    }
    if req.require_lowercase && !classes.lowercase {
        return Err("Password must contain at least one lowercase letter".to_owned());
    }
    if req.require_digit && !classes.digit {
        return Err("Password must contain at least one digit".to_owned());
    }
    if req.require_special_char && !classes.special {
        return Err("Password must contain at least one special character".to_owned());
    }
    Ok(())
}

} // verus!
