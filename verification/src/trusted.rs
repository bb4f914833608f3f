//! The calls into other crates. Verus does not look into these functions: it
//! takes their contracts as given.

use vstd::prelude::*;
use crate::EnvSubError;

verus! {

/// The text that `uuid` gives for the UUID with these 128 bits: its
/// hyphenated lower-case form.
pub uninterp spec fn spec_uuid_text(bits: u128) -> Seq<char>;

/// Renders a UUID with `uuid::Uuid`'s `Display`, which writes the hyphenated
/// lower-case form. The text depends on the bits alone, so it has a name,
/// [`spec_uuid_text`]; nothing more is claimed of it.
#[verifier::external_body]
pub(crate) fn uuid_text(bits: u128) -> (text: String)
    ensures
        text@ == spec_uuid_text(bits),
{
    auxon_sdk::api::Uuid::from_u128(bits).to_string()
}

/// The label of the named log level with this number, from 0 for the most
/// severe to 14 for the least.
pub open spec fn named_level_label(code: i32) -> Seq<char> {
    if code == 0 {
        "EMERG"@
    } else if code == 1 {
        "ALERT"@
    } else if code == 2 {
        "CRIT"@
    } else if code == 3 {
        "ERR"@
    } else if code == 4 {
        "WARNING"@
    } else if code == 5 {
        "NOTICE"@
    } else if code == 6 {
        "INFO"@
    } else if code == 7 {
        "DEBUG_SYSTEM"@
    } else if code == 8 {
        "DEBUG_PROGRAM"@
    } else if code == 9 {
        "DEBUG_PROCESS"@
    } else if code == 10 {
        "DEBUG_MODULE"@
    } else if code == 11 {
        "DEBUG_UNIT"@
    } else if code == 12 {
        "DEBUG_FUNCTION"@
    } else if code == 13 {
        "DEBUG_LINE"@
    } else {
        "DEBUG"@
    }
}

/// Renders a named log level with `barectf_parser::LogLevel`'s `Display`,
/// after `LogLevel::from` has turned the number into a level. For the
/// numbers 0 to 14 that is one of the fifteen named levels, and `Display`
/// writes the label that the level is declared with.
#[verifier::external_body]
pub(crate) fn log_level_label(code: i32) -> (label: String)
    requires
        0 <= code <= 14,
    ensures
        label@ == named_level_label(code),
{
    barectf_parser::LogLevel::from(code).to_string()
}

/// Allocates a timeline id with `auxon_sdk::api::TimelineId::allocate`, which
/// draws a random UUID, and hands out its 128 bits. Nothing is claimed of the
/// value: two calls may give any two values.
#[verifier::external_body]
pub(crate) fn allocate_timeline_id() -> (id: u128) {
    auxon_sdk::api::TimelineId::allocate().get_raw().as_u128()
}

/// Draws a random UUID with `uuid::Uuid::new_v4` and hands out its 128 bits.
/// Nothing is claimed of the value.
#[verifier::external_body]
pub(crate) fn random_uuid() -> (bits: u128) {
    auxon_sdk::api::Uuid::new_v4().as_u128()
}

/// Replaces `${NAME}`, `${NAME-default}` and `${NAME:-default}` in `input` by
/// the values of environment variables, with
/// `auxon_sdk::reflector_config::envsub`. What comes back depends on the
/// environment of the process, so nothing is claimed of it.
#[verifier::external_body]
pub(crate) fn envsub(input: &str) -> (r: Result<String, EnvSubError>) {
    match auxon_sdk::reflector_config::envsub(input) {
        Ok(s) => Ok(s),
        Err(auxon_sdk::reflector_config::EnvSubError::EnvVarNotUnicode(name)) => Err(
            EnvSubError::EnvVarNotUnicode(name),
        ),
        Err(auxon_sdk::reflector_config::EnvSubError::EnvVarNotPresent(name)) => Err(
            EnvSubError::EnvVarNotPresent(name),
        ),
    }
}

} // verus!
