use vstd::prelude::*;
use vstd::string::*;
use crate::encoding::{email_is_valid, valid_email};
use crate::error::{AppError, ValidationIssue};
use crate::models::{Create, CreateApiRequest, CreateOrgReq, LoginReq, UpdateProfile};

verus! {

/// A failed rule as plain text: field, kind of rule, message.
pub type Rule = (Seq<char>, Seq<char>, Seq<char>);

/// The text of an issue.
pub open spec fn issue_view(i: ValidationIssue) -> Rule {
    (i.field@, i.code@, i.message@)
}

/// The issues that a validation reports, as plain text.
pub open spec fn issues_view(v: Seq<ValidationIssue>) -> Seq<Rule> {
    v.map_values(|i: ValidationIssue| issue_view(i))
}

/// The rule as it stands when it fails, and nothing when it holds.
pub open spec fn failing(holds: bool, field: Seq<char>, code: Seq<char>, message: Seq<char>) -> Seq<Rule> {
    if holds {
        Seq::empty()
    } else {
        seq![(field, code, message)]
    }
}

/// Whether a count lies within the bounds of a length rule.
pub open spec fn within(count: int, min: int, max: Option<int>) -> bool {
    min <= count && match max {
        Some(m) => count <= m,
        None => true,
    }
}

/// The outcome of a validation: accepted when no rule fails, otherwise a
/// validation error that lists the failed rules in field order.
pub open spec fn validated(r: Result<(), AppError>, failed: Seq<Rule>) -> bool {
    if failed.len() == 0 {
        r is Ok
    } else {
        r matches Err(AppError::Validation(v)) && issues_view(v@) == failed
    }
}

fn make_issue(field: &str, code: &str, message: &str) -> (i: ValidationIssue)
    ensures
        issue_view(i) == (field@, code@, message@),
{
    ValidationIssue {
        field: String::from_str(field),
        code: String::from_str(code),
        message: String::from_str(message),
    }
}

/// Appends the issue of a rule when it fails.
fn check(issues: &mut Vec<ValidationIssue>, holds: bool, field: &str, code: &str, message: &str)
    ensures
        issues_view(final(issues)@) == issues_view(old(issues)@) + failing(holds, field@, code@, message@),
{
    if !holds {
        issues.push(make_issue(field, code, message));
        assert(issues_view(issues@) =~= issues_view(old(issues)@) + failing(holds, field@, code@, message@));
    } else {
        assert(issues_view(issues@) =~= issues_view(old(issues)@) + failing(holds, field@, code@, message@));
    }
}

fn finish(issues: Vec<ValidationIssue>) -> (r: Result<(), AppError>)
    ensures
        validated(r, issues_view(issues@)),
{
    if issues.len() == 0 {
        Ok(())
    } else {
        Err(AppError::Validation(issues))
    }
}

/// Whether a character count is within bounds, as `validator`'s length rule
/// counts the characters of a string.
fn length_ok(count: usize, min: usize, max: Option<usize>) -> (b: bool)
    ensures
        b == within(count as int, min as int, match max { Some(m) => Some(m as int), None => None }),
{
    min <= count && match max {
        Some(m) => count <= m,
        None => true,
    }
}

/// The rules of a request to create an API key: a name of at least five
/// characters, and at least one permission.
pub open spec fn api_key_request_failures(req: CreateApiRequest) -> Seq<Rule> {
    failing(req.name@.len() >= 5, "name"@, "length"@, "Name Can't be Empty"@) + failing(
        req.permission_ids@.len() >= 1,
        "permission_ids"@,
        "length"@,
        "There Must be atleast One Scope"@,
    )
}

/// The rules of a request to create an organization: a name of 1 to 100
/// characters.
pub open spec fn org_request_failures(req: CreateOrgReq) -> Seq<Rule> {
    failing(1 <= req.name@.len() <= 100, "name"@, "length"@, "name is required"@)
}

/// The rules of a registration: a valid email, a password of at least 8
/// characters, a name of 1 to 50 characters.
pub open spec fn registration_failures(req: Create) -> Seq<Rule> {
    failing(valid_email(req.email@), "email"@, "email"@, "must be a valid email"@) + failing(
        req.password@.len() >= 8,
        "password"@,
        "length"@,
        "Password must be at least 8 chars"@,
    ) + failing(1 <= req.name@.len() <= 50, "name"@, "length"@, "name is required"@)
}

/// The rules of a sign-in: a valid email and a password of at least 8
/// characters.
pub open spec fn login_failures(req: LoginReq) -> Seq<Rule> {
    failing(valid_email(req.email@), "email"@, "email"@, "must be a valid email"@) + failing(
        req.password@.len() >= 8,
        "password"@,
        "length"@,
        "Password must be at least 8 chars"@,
    )
}

/// The rules of a profile update: a name of 1 to 50 characters.
pub open spec fn profile_failures(req: UpdateProfile) -> Seq<Rule> {
    failing(1 <= req.name@.len() <= 50, "name"@, "length"@, "name is required"@)
}

impl CreateApiRequest {
    /// Checks the rules of the request.
    pub fn validate(&self) -> (r: Result<(), AppError>)
        ensures
            validated(r, api_key_request_failures(*self)),
    {
        let mut issues: Vec<ValidationIssue> = Vec::new();
        let name_len = self.name.as_str().unicode_len();
        check(&mut issues, length_ok(name_len, 5, None), "name", "length", "Name Can't be Empty");
        check(
            &mut issues,
            length_ok(self.permission_ids.len(), 1, None),
            "permission_ids",
            "length",
            "There Must be atleast One Scope",
        );
        assert(issues_view(issues@) =~= api_key_request_failures(*self));
        finish(issues)
    }
}

impl CreateOrgReq {
    /// Checks the rules of the request.
    pub fn validate(&self) -> (r: Result<(), AppError>)
        ensures
            validated(r, org_request_failures(*self)),
    {
        let mut issues: Vec<ValidationIssue> = Vec::new();
        let name_len = self.name.as_str().unicode_len();
        check(&mut issues, length_ok(name_len, 1, Some(100)), "name", "length", "name is required");
        assert(issues_view(issues@) =~= org_request_failures(*self));
        finish(issues)
    }
}

impl Create {
    /// Checks the rules of the request.
    pub fn validate(&self) -> (r: Result<(), AppError>)
        ensures
            validated(r, registration_failures(*self)),
    {
        let mut issues: Vec<ValidationIssue> = Vec::new();
        check(&mut issues, email_is_valid(self.email.as_str()), "email", "email", "must be a valid email");
        let password_len = self.password.as_str().unicode_len();
        check(
            &mut issues,
            length_ok(password_len, 8, None),
            "password",
            "length",
            "Password must be at least 8 chars",
        );
        let name_len = self.name.as_str().unicode_len();
        check(&mut issues, length_ok(name_len, 1, Some(50)), "name", "length", "name is required");
        assert(issues_view(issues@) =~= registration_failures(*self));
        finish(issues)
    }
}

impl LoginReq {
    /// Checks the rules of the request.
    pub fn validate(&self) -> (r: Result<(), AppError>)
        ensures
            validated(r, login_failures(*self)),
    {
        let mut issues: Vec<ValidationIssue> = Vec::new();
        check(&mut issues, email_is_valid(self.email.as_str()), "email", "email", "must be a valid email");
        let password_len = self.password.as_str().unicode_len();
        check(
            &mut issues,
            length_ok(password_len, 8, None),
            "password",
            "length",
            "Password must be at least 8 chars",
        );
        assert(issues_view(issues@) =~= login_failures(*self));
        finish(issues)
    }
}

impl UpdateProfile {
    /// Checks the rules of the request.
    pub fn validate(&self) -> (r: Result<(), AppError>)
        ensures
            validated(r, profile_failures(*self)),
    {
        let mut issues: Vec<ValidationIssue> = Vec::new();
        let name_len = self.name.as_str().unicode_len();
        check(&mut issues, length_ok(name_len, 1, Some(50)), "name", "length", "name is required");
        assert(issues_view(issues@) =~= profile_failures(*self));
        finish(issues)
    }
}

} // verus!
