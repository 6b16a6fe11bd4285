//! Validation of request payloads: required fields, field rules, and the
//! one message that reports what a payload breaks.

use crate::domain::validation::{
    password_verdict, validate_password, PasswordRequirements,
};
use crate::interfaces::api::error::{ApiError, ApiErrorView};
use vstd::prelude::*;
use vstd::string::{StrSliceExecFns, StringExecFns};

verus! {

/// Whether the `validator` crate accepts a text as an e-mail address.
pub uninterp spec fn email_is_valid(text: Seq<char>) -> bool;

/// `validator::ValidateEmail::validate_email` on a string.
///
/// Trusted: the result is the crate's verdict on the text, which follows the
/// HTML5 rule for e-mail addresses.
#[verifier::external_body]
fn validate_email(text: &str) -> (r: bool)
    ensures
        r == email_is_valid(text@),
{
    validator::ValidateEmail::validate_email(&text)
}

/// A rule that a field of a payload breaks.
#[derive(Debug, Clone, Copy)]
pub struct Violation {
    pub field: &'static str,
    pub message: &'static str,
}

/// A violation as characters: the field's name and the message.
pub struct ViolationView {
    pub field: Seq<char>,
    pub message: Seq<char>,
}

impl View for Violation {
    type V = ViolationView;

    open spec fn view(&self) -> ViolationView {
        ViolationView { field: self.field@, message: self.message@ }
    }
}

/// The line that reports one violation: the field, a colon, the message.
pub open spec fn report_line(v: ViolationView) -> Seq<char> {
    v.field + ": "@ + v.message
}

/// The message that reports violations: one line each, in their order,
/// with a line feed between them.
pub open spec fn report(violations: Seq<ViolationView>) -> Seq<char>
    decreases violations.len(),
{
    if violations.len() == 0 {
        Seq::empty()
    } else if violations.len() == 1 {
        report_line(violations[0])
    } else {
        report(violations.drop_last()) + "\n"@ + report_line(violations.last())
    }
}

/// What a payload with these violations is answered with: nothing where
/// there are none, else a bad request that reports them.
pub open spec fn violations_verdict(violations: Seq<ViolationView>) -> Result<(), ApiErrorView> {
    if violations.len() == 0 {
        Ok(())
    } else {
        Err(ApiErrorView::BadRequest(report(violations)))
    }
}

/// A result without a value, with its error as characters.
pub open spec fn unit_view(r: Result<(), ApiError>) -> Result<(), ApiErrorView> {
    match r {
        Ok(()) => Ok(()),
        Err(e) => Err(e@),
    }
}

/// The violations of a list, as characters.
pub open spec fn violations_view(v: Seq<Violation>) -> Seq<ViolationView> {
    v.map_values(|x: Violation| x@)
}

/// Answers a payload whose violations have been collected.
pub fn reject_violations(violations: &Vec<Violation>) -> (r: Result<(), ApiError>)
    ensures
        unit_view(r) == violations_verdict(violations_view(violations@)),
{
    if violations.len() == 0 {
        return Ok(());
    }
    let ghost views = violations_view(violations@);
    let mut message = violations[0].field.to_owned();
    message.append(": ");
    message.append(violations[0].message);
    proof {
        assert(views.subrange(0, 1).len() == 1);
        assert(views.subrange(0, 1)[0] == views[0]);
        assert(message@ =~= report(views.subrange(0, 1)));
    }
    let mut i: usize = 1;
    while i < violations.len()
        invariant
            1 <= i <= violations.len(),
            views == violations_view(violations@),
            message@ == report(views.subrange(0, i as int)),
        decreases violations.len() - i,
    {
        message.append("\n");
        message.append(violations[i].field);
        message.append(": ");
        message.append(violations[i].message);
        proof {
            let next = views.subrange(0, i + 1);
            assert(next.drop_last() =~= views.subrange(0, i as int));
            assert(next.last() == views[i as int]);
            assert(message@ =~= report(next));
        }
        i += 1;
    }
    proof {
        assert(views.subrange(0, violations.len() as int) =~= views);
    }
    Err(ApiError::BadRequest(message))
}

/// A payload with rules on its fields.
pub trait Validate {
    /// The field rules that the payload breaks, in the order of the fields.
    spec fn violations(&self) -> Seq<ViolationView>;

    /// Holds the payload against the rules of its fields and reports all
    /// that it breaks.
    fn validate(&self) -> (r: Result<(), ApiError>)
        ensures
            unit_view(r) == violations_verdict(self.violations()),
    ;
}

/// Validates a payload against the rules of its fields.
pub fn validate_dto<T: Validate>(dto: &T) -> (r: Result<(), ApiError>)
    ensures
        unit_view(r) == violations_verdict(dto.violations()),
{
    dto.validate()
}

/// Whether a text is as long, in characters, as a field allows.
pub open spec fn length_within(text: Seq<char>, min: nat, max: nat) -> bool {
    min <= text.len() <= max
}

/// Checks the length of a text in characters.
pub fn check_length(text: &str, min: usize, max: usize) -> (r: bool)
    ensures
        r == length_within(text@, min as nat, max as nat),
{
    let n = text.unicode_len();
    min <= n && n <= max
}

/// Checks that a text is an e-mail address.
pub fn check_email(text: &str) -> (r: bool)
    ensures
        r == email_is_valid(text@),
{
    validate_email(text)
}

/// The violation of a field that has to be present.
pub open spec fn required_rule(present: bool, field: Seq<char>, message: Seq<char>) -> Seq<
    ViolationView,
> {
    if present {
        Seq::empty()
    } else {
        seq![ViolationView { field, message }]
    }
}

/// The violation of a field whose text, where there is one, has to be of a
/// length between `min` and `max` characters.
pub open spec fn length_rule(
    text: Option<Seq<char>>,
    min: nat,
    max: nat,
    field: Seq<char>,
    message: Seq<char>,
) -> Seq<ViolationView> {
    match text {
        Some(t) if !length_within(t, min, max) => seq![ViolationView { field, message }],
        _ => Seq::empty(),
    }
}

/// The violation of a field whose text, where there is one, has to be an
/// e-mail address.
pub open spec fn email_rule(text: Option<Seq<char>>, field: Seq<char>, message: Seq<char>) -> Seq<
    ViolationView,
> {
    match text {
        Some(t) if !email_is_valid(t) => seq![ViolationView { field, message }],
        _ => Seq::empty(),
    }
}

/// Notes a violation where a required field is absent.
pub fn push_required(
    violations: &mut Vec<Violation>,
    present: bool,
    field: &'static str,
    message: &'static str,
)
    ensures
        violations_view(final(violations)@) == violations_view(old(violations)@) + required_rule(
            present,
            field@,
            message@,
        ),
{
    let ghost before = violations@;
    if !present {
        violations.push(Violation { field, message });
    }
    proof {
        assert(violations_view(violations@) =~= violations_view(before) + required_rule(
            present,
            field@,
            message@,
        ));
    }
}

/// Notes a violation where the text of a field is too short or too long.
pub fn push_length(
    violations: &mut Vec<Violation>,
    text: &Option<String>,
    min: usize,
    max: usize,
    field: &'static str,
    message: &'static str,
)
    ensures
        violations_view(final(violations)@) == violations_view(old(violations)@) + length_rule(
            opt_chars(*text),
            min as nat,
            max as nat,
            field@,
            message@,
        ),
{
    let ghost before = violations@;
    match text {
        Some(t) => {
            if !check_length(t.as_str(), min, max) {
                violations.push(Violation { field, message });
            }
        },
        None => {},
    }
    proof {
        assert(violations_view(violations@) =~= violations_view(before) + length_rule(
            opt_chars(*text),
            min as nat,
            max as nat,
            field@,
            message@,
        ));
    }
}

/// Notes a violation where the text of a field is no e-mail address.
pub fn push_email(
    violations: &mut Vec<Violation>,
    text: &Option<String>,
    field: &'static str,
    message: &'static str,
)
    ensures
        violations_view(final(violations)@) == violations_view(old(violations)@) + email_rule(
            opt_chars(*text),
            field@,
            message@,
        ),
{
    let ghost before = violations@;
    match text {
        Some(t) => {
            if !check_email(t.as_str()) {
                violations.push(Violation { field, message });
            }
        },
        None => {},
    }
    proof {
        assert(violations_view(violations@) =~= violations_view(before) + email_rule(
            opt_chars(*text),
            field@,
            message@,
        ));
    }
}

/// The message for a field that a payload lacks.
pub open spec fn required_message(name: Seq<char>) -> Seq<char> {
    name + " is required"@
}

/// The value of a field, or a bad request that names the field.
pub fn require_field<T>(opt: Option<T>, name: &str) -> (r: Result<T, ApiError>)
    ensures
        match opt {
            Some(value) => r == Ok::<T, ApiError>(value),
            None => r matches Err(e) && e@ == ApiErrorView::BadRequest(required_message(name@)),
        },
{
    match opt {
        Some(value) => Ok(value),
        None => {
            let mut message = name.to_owned();
            message.append(" is required");
            Err(ApiError::BadRequest(message))
        },
    }
}

/// What requiring a password answers: the password itself where it is
/// present and meets the standard requirements, else a bad request with the
/// reason.
pub open spec fn required_password(opt: Option<Seq<char>>) -> Result<Seq<char>, ApiErrorView> {
    match opt {
        None => Err(ApiErrorView::BadRequest(required_message("password"@))),
        Some(p) => match password_verdict(p, PasswordRequirements::standard()) {
            Ok(()) => Ok(p),
            Err(message) => Err(ApiErrorView::BadRequest(message)),
        },
    }
}

/// An optional owned string as characters.
pub open spec fn opt_chars(o: Option<String>) -> Option<Seq<char>> {
    match o {
        Some(s) => Some(s@),
        None => None,
    }
}

/// A result that carries a string, with string and error as characters.
pub open spec fn text_view(r: Result<String, ApiError>) -> Result<Seq<char>, ApiErrorView> {
    match r {
        Ok(s) => Ok(s@),
        Err(e) => Err(e@),
    }
}

/// The password of a payload, provided that it is there and meets the
/// standard requirements.
pub fn require_password(opt: Option<String>) -> (r: Result<String, ApiError>)
    ensures
        text_view(r) == required_password(opt_chars(opt)),
        r matches Ok(p) ==> opt == Some(p),
{
    let pwd = match require_field(opt, "password") {
        Ok(p) => p,
        Err(e) => {
            return Err(e);
        },
    };
    match validate_password(pwd.as_str(), &PasswordRequirements::default()) {
        Ok(()) => Ok(pwd),
        Err(message) => Err(ApiError::BadRequest(message)),
    }
}

} // verus!
