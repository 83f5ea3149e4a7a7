//! Project and task identifiers.
//!
//! The repository's identifiers are 128-bit UUID values; the library holds
//! them as plain integers and leaves the textual forms (parsing a typed id,
//! rendering an id into a reply) to the `uuid` crate behind named results.

use vstd::prelude::*;
use vstd::string::StringExecFns;
use crate::errors::TelegramError;

verus! {

/// A project or task identifier: the 128-bit value of a UUID.
#[derive(Clone, Copy, PartialEq, Eq, Hash, Structural, Debug)]
pub struct EntityId {
    pub value: u128,
}

/// The identifier value that the `uuid` crate reads out of a text, if any;
/// it depends on the text alone.
pub uninterp spec fn spec_uuid_parse(s: Seq<char>) -> Option<u128>;

/// The hyphenated rendering that the `uuid` crate gives a 128-bit value;
/// it depends on the value alone.
pub uninterp spec fn spec_uuid_text(v: u128) -> Seq<char>;

/// The text with its leading and trailing whitespace removed; it depends on
/// the text alone.
pub uninterp spec fn spec_trimmed(s: Seq<char>) -> Seq<char>;

/// Relies on `uuid::Uuid::parse_str`: reads an identifier out of its textual
/// forms; the result depends on the text alone.
#[verifier::external_body]
pub(crate) fn uuid_from_str(s: &str) -> (r: Option<u128>)
    ensures
        r == spec_uuid_parse(s@),
{
    uuid::Uuid::parse_str(s).ok().map(|u| u.as_u128())
}

/// Relies on `uuid::Uuid`'s rendering through `to_string`: the hyphenated,
/// 36-character form; it depends on the value alone.
#[verifier::external_body]
fn uuid_to_string(v: u128) -> (r: String)
    ensures
        r@ == spec_uuid_text(v),
        r@.len() == 36,
{
    uuid::Uuid::from_u128(v).to_string()
}

/// Relies on `str::trim`: removes leading and trailing whitespace; the
/// result depends on the text alone.
#[verifier::external_body]
pub(crate) fn str_trim(s: &str) -> (r: &str)
    ensures
        r@ == spec_trimmed(s@),
{
    s.trim()
}

/// Relies on `uuid::Uuid::new_v4`: a random identifier; nothing is promised
/// of its value.
#[verifier::external_body]
pub(crate) fn fresh_entity_id() -> EntityId {
    EntityId { value: uuid::Uuid::new_v4().as_u128() }
}

/// Relies on `uuid::Uuid::new_v4` and its hyphenated rendering: a random
/// token text; nothing is promised of its value.
#[verifier::external_body]
pub(crate) fn fresh_token_text() -> String {
    uuid::Uuid::new_v4().to_string()
}

impl EntityId {
    /// The hyphenated textual form of this identifier.
    pub fn text(&self) -> (r: String)
        ensures
            r@ == spec_uuid_text(self.value),
    {
        uuid_to_string(self.value)
    }
}

/// The complaint for a text that is no identifier.
pub open spec fn spec_invalid_id_message(trimmed: Seq<char>) -> Seq<char> {
    "Invalid ID format: "@ + trimmed + ". Expected a UUID."@
}

/// Parse an identifier from a string: whitespace around it is ignored, and
/// anything that is not a UUID is an [`TelegramError::InvalidCommand`] whose
/// text names the offending input.
pub fn parse_uuid(s: &str) -> (r: Result<EntityId, TelegramError>)
    ensures
        spec_uuid_parse(spec_trimmed(s@)) matches Some(v) ==> r == Ok::<EntityId,
            TelegramError,
        >(EntityId { value: v }),
        spec_uuid_parse(spec_trimmed(s@)) is None ==> (r matches Err(
            TelegramError::InvalidCommand(m),
        ) && m@ == spec_invalid_id_message(spec_trimmed(s@))),
{
    let trimmed = str_trim(s);
    match uuid_from_str(trimmed) {
        Some(v) => Ok(EntityId { value: v }),
        None => {
            let msg = String::from_str("Invalid ID format: ").concat(trimmed).concat(
                ". Expected a UUID.",
            );
            Err(TelegramError::InvalidCommand(msg))
        },
    }
}

} // verus!
