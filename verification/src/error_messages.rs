//! Error messages of ZBR functions.
//!
//! Each function gives the exact text of one kind of message; the caller puts it
//! after `Line N: Z{function} - `.
use vstd::prelude::*;
use crate::decimal::{decimal, signed_decimal, usize_text, i64_text};

verus! {

/// `"s"` unless the count is one.
pub open spec fn plural_s(n: nat) -> Seq<char> {
    if n == 1 {
        Seq::empty()
    } else {
        "s"@
    }
}

/// The text of the `too_few_args` message.
pub open spec fn too_few_args_text(expected: nat, got: nat) -> Seq<char> {
    "expected at least "@ + decimal(expected) + " argument"@ + plural_s(expected) + ", got "@ + decimal(got)
}

/// Too few arguments were given.
pub fn too_few_args(expected: usize, got: usize) -> (r: String)
    ensures
        r@ == too_few_args_text(expected as nat, got as nat),
{
    let mut r = String::new();
    r.append("expected at least ");
    r.append(usize_text(expected).as_str());
    r.append(" argument");
    if expected != 1 {
        r.append("s");
    }
    r.append(", got ");
    r.append(usize_text(got).as_str());
    assert(r@ =~= "expected at least "@ + decimal(expected as nat) + " argument"@ + plural_s(expected as nat) + ", got "@ + decimal(got as nat));
    r
}

/// The text of the `too_many_args` message.
pub open spec fn too_many_args_text(expected: nat, got: nat) -> Seq<char> {
    "expected at most "@ + decimal(expected) + " argument"@ + plural_s(expected) + ", got "@ + decimal(got)
}

/// Too many arguments were given.
pub fn too_many_args(expected: usize, got: usize) -> (r: String)
    ensures
        r@ == too_many_args_text(expected as nat, got as nat),
{
    let mut r = String::new();
    r.append("expected at most ");
    r.append(usize_text(expected).as_str());
    r.append(" argument");
    if expected != 1 {
        r.append("s");
    }
    r.append(", got ");
    r.append(usize_text(got).as_str());
    assert(r@ =~= "expected at most "@ + decimal(expected as nat) + " argument"@ + plural_s(expected as nat) + ", got "@ + decimal(got as nat));
    r
}

/// The text of the `exact_args` message.
pub open spec fn exact_args_text(expected: nat, got: nat) -> Seq<char> {
    "expected exactly "@ + decimal(expected) + " argument"@ + plural_s(expected) + ", got "@ + decimal(got)
}

/// A different number of arguments was expected.
pub fn exact_args(expected: usize, got: usize) -> (r: String)
    ensures
        r@ == exact_args_text(expected as nat, got as nat),
{
    let mut r = String::new();
    r.append("expected exactly ");
    r.append(usize_text(expected).as_str());
    r.append(" argument");
    if expected != 1 {
        r.append("s");
    }
    r.append(", got ");
    r.append(usize_text(got).as_str());
    assert(r@ =~= "expected exactly "@ + decimal(expected as nat) + " argument"@ + plural_s(expected as nat) + ", got "@ + decimal(got as nat));
    r
}

/// The text of the `required` message.
pub open spec fn required_text(arg_num: nat, arg_name: Seq<char>) -> Seq<char> {
    "argument "@ + decimal(arg_num) + " ("@ + arg_name + ") is required"@
}

/// A required argument is empty.
pub fn required(arg_num: usize, arg_name: &str) -> (r: String)
    ensures
        r@ == required_text(arg_num as nat, arg_name@),
{
    let mut r = String::new();
    r.append("argument ");
    r.append(usize_text(arg_num).as_str());
    r.append(" (");
    r.append(arg_name);
    r.append(") is required");
    assert(r@ =~= "argument "@ + decimal(arg_num as nat) + " ("@ + arg_name@ + ") is required"@);
    r
}

/// The text of the `expected_snowflake` message.
pub open spec fn expected_snowflake_text(arg_num: nat, arg_name: Seq<char>, got: Seq<char>) -> Seq<char> {
    "expected snowflake ID in argument "@ + decimal(arg_num) + " ("@ + arg_name + "), got \""@ + got + "\""@
}

/// An argument does not hold the expected kind of value.
pub fn expected_snowflake(arg_num: usize, arg_name: &str, got: &str) -> (r: String)
    ensures
        r@ == expected_snowflake_text(arg_num as nat, arg_name@, got@),
{
    let mut r = String::new();
    r.append("expected snowflake ID in argument ");
    r.append(usize_text(arg_num).as_str());
    r.append(" (");
    r.append(arg_name);
    r.append("), got \"");
    r.append(got);
    r.append("\"");
    assert(r@ =~= "expected snowflake ID in argument "@ + decimal(arg_num as nat) + " ("@ + arg_name@ + "), got \""@ + got@ + "\""@);
    r
}

/// The text of the `expected_number` message.
pub open spec fn expected_number_text(arg_num: nat, arg_name: Seq<char>, got: Seq<char>) -> Seq<char> {
    "expected number in argument "@ + decimal(arg_num) + " ("@ + arg_name + "), got \""@ + got + "\""@
}

/// An argument does not hold the expected kind of value.
pub fn expected_number(arg_num: usize, arg_name: &str, got: &str) -> (r: String)
    ensures
        r@ == expected_number_text(arg_num as nat, arg_name@, got@),
{
    let mut r = String::new();
    r.append("expected number in argument ");
    r.append(usize_text(arg_num).as_str());
    r.append(" (");
    r.append(arg_name);
    r.append("), got \"");
    r.append(got);
    r.append("\"");
    assert(r@ =~= "expected number in argument "@ + decimal(arg_num as nat) + " ("@ + arg_name@ + "), got \""@ + got@ + "\""@);
    r
}

/// The text of the `expected_integer` message.
pub open spec fn expected_integer_text(arg_num: nat, arg_name: Seq<char>, got: Seq<char>) -> Seq<char> {
    "expected integer in argument "@ + decimal(arg_num) + " ("@ + arg_name + "), got \""@ + got + "\""@
}

/// An argument does not hold the expected kind of value.
pub fn expected_integer(arg_num: usize, arg_name: &str, got: &str) -> (r: String)
    ensures
        r@ == expected_integer_text(arg_num as nat, arg_name@, got@),
{
    let mut r = String::new();
    r.append("expected integer in argument ");
    r.append(usize_text(arg_num).as_str());
    r.append(" (");
    r.append(arg_name);
    r.append("), got \"");
    r.append(got);
    r.append("\"");
    assert(r@ =~= "expected integer in argument "@ + decimal(arg_num as nat) + " ("@ + arg_name@ + "), got \""@ + got@ + "\""@);
    r
}

/// The text of the `expected_boolean` message.
pub open spec fn expected_boolean_text(arg_num: nat, arg_name: Seq<char>, got: Seq<char>) -> Seq<char> {
    "expected true or false in argument "@ + decimal(arg_num) + " ("@ + arg_name + "), got \""@ + got + "\""@
}

/// An argument does not hold the expected kind of value.
pub fn expected_boolean(arg_num: usize, arg_name: &str, got: &str) -> (r: String)
    ensures
        r@ == expected_boolean_text(arg_num as nat, arg_name@, got@),
{
    let mut r = String::new();
    r.append("expected true or false in argument ");
    r.append(usize_text(arg_num).as_str());
    r.append(" (");
    r.append(arg_name);
    r.append("), got \"");
    r.append(got);
    r.append("\"");
    assert(r@ =~= "expected true or false in argument "@ + decimal(arg_num as nat) + " ("@ + arg_name@ + "), got \""@ + got@ + "\""@);
    r
}

/// The text of the `expected_url` message.
pub open spec fn expected_url_text(arg_num: nat, arg_name: Seq<char>, got: Seq<char>) -> Seq<char> {
    "expected URL in argument "@ + decimal(arg_num) + " ("@ + arg_name + "), got \""@ + got + "\""@
}

/// An argument does not hold the expected kind of value.
pub fn expected_url(arg_num: usize, arg_name: &str, got: &str) -> (r: String)
    ensures
        r@ == expected_url_text(arg_num as nat, arg_name@, got@),
{
    let mut r = String::new();
    r.append("expected URL in argument ");
    r.append(usize_text(arg_num).as_str());
    r.append(" (");
    r.append(arg_name);
    r.append("), got \"");
    r.append(got);
    r.append("\"");
    assert(r@ =~= "expected URL in argument "@ + decimal(arg_num as nat) + " ("@ + arg_name@ + "), got \""@ + got@ + "\""@);
    r
}

/// The text of the `expected_hex_color` message.
pub open spec fn expected_hex_color_text(arg_num: nat, arg_name: Seq<char>, got: Seq<char>) -> Seq<char> {
    "expected hex color in argument "@ + decimal(arg_num) + " ("@ + arg_name + "), got \""@ + got + "\""@
}

/// An argument does not hold the expected kind of value.
pub fn expected_hex_color(arg_num: usize, arg_name: &str, got: &str) -> (r: String)
    ensures
        r@ == expected_hex_color_text(arg_num as nat, arg_name@, got@),
{
    let mut r = String::new();
    r.append("expected hex color in argument ");
    r.append(usize_text(arg_num).as_str());
    r.append(" (");
    r.append(arg_name);
    r.append("), got \"");
    r.append(got);
    r.append("\"");
    assert(r@ =~= "expected hex color in argument "@ + decimal(arg_num as nat) + " ("@ + arg_name@ + "), got \""@ + got@ + "\""@);
    r
}

/// The text of the `expected_duration` message.
pub open spec fn expected_duration_text(arg_num: nat, arg_name: Seq<char>, got: Seq<char>) -> Seq<char> {
    "expected duration (e.g. 30s, 1m, 2h) in argument "@ + decimal(arg_num) + " ("@ + arg_name + "), got \""@ + got + "\""@
}

/// An argument does not hold the expected kind of value.
pub fn expected_duration(arg_num: usize, arg_name: &str, got: &str) -> (r: String)
    ensures
        r@ == expected_duration_text(arg_num as nat, arg_name@, got@),
{
    let mut r = String::new();
    r.append("expected duration (e.g. 30s, 1m, 2h) in argument ");
    r.append(usize_text(arg_num).as_str());
    r.append(" (");
    r.append(arg_name);
    r.append("), got \"");
    r.append(got);
    r.append("\"");
    assert(r@ =~= "expected duration (e.g. 30s, 1m, 2h) in argument "@ + decimal(arg_num as nat) + " ("@ + arg_name@ + "), got \""@ + got@ + "\""@);
    r
}

/// The text of the `expected_choice` message.
pub open spec fn expected_choice_text(arg_num: nat, arg_name: Seq<char>, choices: Seq<char>, got: Seq<char>) -> Seq<char> {
    "expected one of ("@ + choices + ") in argument "@ + decimal(arg_num) + " ("@ + arg_name + "), got \""@ + got + "\""@
}

/// An argument is not one of the allowed choices.
pub fn expected_choice(arg_num: usize, arg_name: &str, choices: &str, got: &str) -> (r: String)
    ensures
        r@ == expected_choice_text(arg_num as nat, arg_name@, choices@, got@),
{
    let mut r = String::new();
    r.append("expected one of (");
    r.append(choices);
    r.append(") in argument ");
    r.append(usize_text(arg_num).as_str());
    r.append(" (");
    r.append(arg_name);
    r.append("), got \"");
    r.append(got);
    r.append("\"");
    assert(r@ =~= "expected one of ("@ + choices@ + ") in argument "@ + decimal(arg_num as nat) + " ("@ + arg_name@ + "), got \""@ + got@ + "\""@);
    r
}

/// The text of the `out_of_range` message.
pub open spec fn out_of_range_text(arg_num: nat, arg_name: Seq<char>, min: int, max: int, got: int) -> Seq<char> {
    "argument "@ + decimal(arg_num) + " ("@ + arg_name + ") must be between "@ + signed_decimal(min) + " and "@ + signed_decimal(max) + ", got "@ + signed_decimal(got)
}

/// A numeric argument lies outside its range.
pub fn out_of_range(arg_num: usize, arg_name: &str, min: i64, max: i64, got: i64) -> (r: String)
    ensures
        r@ == out_of_range_text(arg_num as nat, arg_name@, min as int, max as int, got as int),
{
    let mut r = String::new();
    r.append("argument ");
    r.append(usize_text(arg_num).as_str());
    r.append(" (");
    r.append(arg_name);
    r.append(") must be between ");
    r.append(i64_text(min).as_str());
    r.append(" and ");
    r.append(i64_text(max).as_str());
    r.append(", got ");
    r.append(i64_text(got).as_str());
    assert(r@ =~= "argument "@ + decimal(arg_num as nat) + " ("@ + arg_name@ + ") must be between "@ + signed_decimal(min as int) + " and "@ + signed_decimal(max as int) + ", got "@ + signed_decimal(got as int));
    r
}

/// The text of the `must_be_positive` message.
pub open spec fn must_be_positive_text(arg_num: nat, arg_name: Seq<char>, got: int) -> Seq<char> {
    "argument "@ + decimal(arg_num) + " ("@ + arg_name + ") must be a positive number, got "@ + signed_decimal(got)
}

/// A numeric argument is not positive.
pub fn must_be_positive(arg_num: usize, arg_name: &str, got: i64) -> (r: String)
    ensures
        r@ == must_be_positive_text(arg_num as nat, arg_name@, got as int),
{
    let mut r = String::new();
    r.append("argument ");
    r.append(usize_text(arg_num).as_str());
    r.append(" (");
    r.append(arg_name);
    r.append(") must be a positive number, got ");
    r.append(i64_text(got).as_str());
    assert(r@ =~= "argument "@ + decimal(arg_num as nat) + " ("@ + arg_name@ + ") must be a positive number, got "@ + signed_decimal(got as int));
    r
}

/// The text of the `too_long` message.
pub open spec fn too_long_text(arg_num: nat, arg_name: Seq<char>, max: nat, got: nat) -> Seq<char> {
    "argument "@ + decimal(arg_num) + " ("@ + arg_name + ") must be at most "@ + decimal(max) + " characters, got "@ + decimal(got)
}

/// A text argument is longer than allowed.
pub fn too_long(arg_num: usize, arg_name: &str, max: usize, got: usize) -> (r: String)
    ensures
        r@ == too_long_text(arg_num as nat, arg_name@, max as nat, got as nat),
{
    let mut r = String::new();
    r.append("argument ");
    r.append(usize_text(arg_num).as_str());
    r.append(" (");
    r.append(arg_name);
    r.append(") must be at most ");
    r.append(usize_text(max).as_str());
    r.append(" characters, got ");
    r.append(usize_text(got).as_str());
    assert(r@ =~= "argument "@ + decimal(arg_num as nat) + " ("@ + arg_name@ + ") must be at most "@ + decimal(max as nat) + " characters, got "@ + decimal(got as nat));
    r
}

/// The text of the `requires_first` message.
pub open spec fn requires_first_text(dependency: Seq<char>) -> Seq<char> {
    "requires "@ + dependency + " to be called first"@
}

/// A function must be called before this one.
pub fn requires_first(dependency: &str) -> (r: String)
    ensures
        r@ == requires_first_text(dependency@),
{
    let mut r = String::new();
    r.append("requires ");
    r.append(dependency);
    r.append(" to be called first");
    assert(r@ =~= "requires "@ + dependency@ + " to be called first"@);
    r
}

/// The text of the `requires_set_first` message.
pub open spec fn requires_set_first_text(field: Seq<char>) -> Seq<char> {
    "requires "@ + field + " to be set first"@
}

/// A value must be set before this function runs.
pub fn requires_set_first(field: &str) -> (r: String)
    ensures
        r@ == requires_set_first_text(field@),
{
    let mut r = String::new();
    r.append("requires ");
    r.append(field);
    r.append(" to be set first");
    assert(r@ =~= "requires "@ + field@ + " to be set first"@);
    r
}

/// The text of the `not_in_guild` message.
pub open spec fn not_in_guild_text() -> Seq<char> {
    "requires guild context"@
}

/// The function needs a guild.
pub fn not_in_guild() -> (r: String)
    ensures
        r@ == not_in_guild_text(),
{
    let mut r = String::new();
    r.append("requires guild context");
    assert(r@ =~= "requires guild context"@);
    r
}

/// The text of the `not_found` message.
pub open spec fn not_found_text(resource: Seq<char>, identifier: Seq<char>) -> Seq<char> {
    resource + " \""@ + identifier + "\" not found"@
}

/// A named resource does not exist.
pub fn not_found(resource: &str, identifier: &str) -> (r: String)
    ensures
        r@ == not_found_text(resource@, identifier@),
{
    let mut r = String::new();
    r.append(resource);
    r.append(" \"");
    r.append(identifier);
    r.append("\" not found");
    assert(r@ =~= resource@ + " \""@ + identifier@ + "\" not found"@);
    r
}

/// The text of the `action_failed` message.
pub open spec fn action_failed_text(action: Seq<char>) -> Seq<char> {
    "failed to "@ + action
}

/// An action failed.
pub fn action_failed(action: &str) -> (r: String)
    ensures
        r@ == action_failed_text(action@),
{
    let mut r = String::new();
    r.append("failed to ");
    r.append(action);
    assert(r@ =~= "failed to "@ + action@);
    r
}

/// The text of the `action_failed_reason` message.
pub open spec fn action_failed_reason_text(action: Seq<char>, reason: Seq<char>) -> Seq<char> {
    "failed to "@ + action + " ("@ + reason + ")"@
}

/// An action failed, with the reason.
pub fn action_failed_reason(action: &str, reason: &str) -> (r: String)
    ensures
        r@ == action_failed_reason_text(action@, reason@),
{
    let mut r = String::new();
    r.append("failed to ");
    r.append(action);
    r.append(" (");
    r.append(reason);
    r.append(")");
    assert(r@ =~= "failed to "@ + action@ + " ("@ + reason@ + ")"@);
    r
}

/// The text of the `not_available` message.
pub open spec fn not_available_text(component: Seq<char>) -> Seq<char> {
    component + " is not available"@
}

/// A component is not available.
pub fn not_available(component: &str) -> (r: String)
    ensures
        r@ == not_available_text(component@),
{
    let mut r = String::new();
    r.append(component);
    r.append(" is not available");
    assert(r@ =~= component@ + " is not available"@);
    r
}

/// The text of the `internal_error` message.
pub open spec fn internal_error_text(msg: Seq<char>) -> Seq<char> {
    "internal error: "@ + msg
}

/// An internal error.
pub fn internal_error(msg: &str) -> (r: String)
    ensures
        r@ == internal_error_text(msg@),
{
    let mut r = String::new();
    r.append("internal error: ");
    r.append(msg);
    assert(r@ =~= "internal error: "@ + msg@);
    r
}

/// The text of the `unknown_permission` message.
pub open spec fn unknown_permission_text(got: Seq<char>) -> Seq<char> {
    "unknown permission \""@ + got + "\" — see docs for valid permission names"@
}

/// A permission name is not known.
pub fn unknown_permission(got: &str) -> (r: String)
    ensures
        r@ == unknown_permission_text(got@),
{
    let mut r = String::new();
    r.append("unknown permission \"");
    r.append(got);
    r.append("\" — see docs for valid permission names");
    assert(r@ =~= "unknown permission \""@ + got@ + "\" — see docs for valid permission names"@);
    r
}

/// The text of the `missing_permission` message.
pub open spec fn missing_permission_text(perm: Seq<char>) -> Seq<char> {
    "missing required permission: "@ + perm
}

/// A required permission is missing.
pub fn missing_permission(perm: &str) -> (r: String)
    ensures
        r@ == missing_permission_text(perm@),
{
    let mut r = String::new();
    r.append("missing required permission: ");
    r.append(perm);
    assert(r@ =~= "missing required permission: "@ + perm@);
    r
}

} // verus!
