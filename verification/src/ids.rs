//! Identifiers and time stamps that come from outside the library.

use uuid::Uuid;
use vstd::prelude::*;

verus! {

#[verifier::external_type_specification]
#[verifier::external_body]
pub struct ExUuid(uuid::Uuid);

/// The 128 bits of an identifier as a number: what `Uuid::as_u128` returns.
pub uninterp spec fn uuid_bits(id: Uuid) -> u128;

/// The identifier that a text spells, if it spells one: what
/// `Uuid::parse_str` returns, an identifier given by its bits.
pub uninterp spec fn parsed_uuid(text: Seq<char>) -> Option<u128>;

/// `Uuid::as_u128`: the identifier as one number, most significant byte
/// first.
pub assume_specification[ uuid::Uuid::as_u128 ](id: &uuid::Uuid) -> (bits: u128)
    ensures
        bits == uuid_bits(*id),
;

/// `Uuid::new_v4`: a random identifier. Nothing is known of it beforehand.
#[verifier::external_body]
pub(crate) fn fresh_uuid() -> (id: Uuid) {
    Uuid::new_v4()
}

/// `Uuid::parse_str`: the identifier written in `text` in any of the
/// accepted formats, or nothing when `text` is in none of them.
#[verifier::external_body]
pub(crate) fn parse_uuid(text: &str) -> (id: Option<Uuid>)
    ensures
        match id {
            Some(u) => parsed_uuid(text@) == Some(uuid_bits(u)),
            None => parsed_uuid(text@) is None,
        },
{
    Uuid::parse_str(text).ok()
}

/// Whether two identifiers are the same.
pub fn same_id(a: &Uuid, b: &Uuid) -> (same: bool)
    ensures
        same == (uuid_bits(*a) == uuid_bits(*b)),
{
    a.as_u128() == b.as_u128()
}

/// The place of the first identifier equal to `id` in `ids`.
pub fn position_of(ids: &Vec<Uuid>, id: &Uuid) -> (found: Option<usize>)
    ensures
        match found {
            Some(i) => {
                &&& i < ids@.len()
                &&& uuid_bits(ids@[i as int]) == uuid_bits(*id)
                &&& forall|j: int| 0 <= j < i ==> uuid_bits(#[trigger] ids@[j]) != uuid_bits(*id)
            },
            None => forall|j: int| 0 <= j < ids@.len() ==> uuid_bits(#[trigger] ids@[j]) != uuid_bits(
                *id,
            ),
        },
{
    let mut i: usize = 0;
    while i < ids.len()
        invariant
            i <= ids.len(),
            forall|j: int| 0 <= j < i ==> uuid_bits(#[trigger] ids@[j]) != uuid_bits(*id),
        decreases ids.len() - i,
    {
        if same_id(&ids[i], id) {
            return Some(i);
        }
        i += 1;
    }
    None
}

/// A point in time: seconds since the start of 1970 (UTC) and the
/// nanoseconds into that second.
#[derive(Debug, Clone, Copy, PartialEq, Eq, Structural)]
pub struct Timestamp {
    pub secs: i64,
    pub nanos: u32,
}

impl Timestamp {
    /// Whether `self` is earlier than `other`.
    pub open spec fn is_before(self, other: Timestamp) -> bool {
        self.secs < other.secs || (self.secs == other.secs && self.nanos < other.nanos)
    }

    /// Whether this point in time is earlier than `other`.
    pub fn before(&self, other: &Timestamp) -> (earlier: bool)
        ensures
            earlier == self.is_before(*other),
    {
        self.secs < other.secs || (self.secs == other.secs && self.nanos < other.nanos)
    }
}

/// The point in time that a text in the format of RFC 3339 names, if it
/// names one: what `DateTime::parse_from_rfc3339` returns, as
/// `DateTime::timestamp` and `DateTime::timestamp_subsec_nanos` give it.
pub uninterp spec fn parsed_time(text: Seq<char>) -> Option<Timestamp>;

/// `DateTime::parse_from_rfc3339`: the date and time written in `text`, or
/// nothing when `text` is not in that format.
#[verifier::external_body]
pub(crate) fn parse_time(text: &str) -> (time: Option<Timestamp>)
    ensures
        time == parsed_time(text@),
{
    chrono::DateTime::parse_from_rfc3339(text).ok().map(
        |t| Timestamp { secs: t.timestamp(), nanos: t.timestamp_subsec_nanos() },
    )
}

/// The identifier stored as `text`, or a new one where `text` spells none.
pub fn id_from_text(text: &str) -> (id: Uuid)
    ensures
        parsed_uuid(text@) matches Some(bits) ==> uuid_bits(id) == bits,
{
    match parse_uuid(text) {
        Some(id) => id,
        None => fresh_uuid(),
    }
}

/// The time stored as `text`, or the current time where `text` names none.
pub fn time_from_text(text: &str) -> (time: Timestamp)
    ensures
        parsed_time(text@) matches Some(t) ==> time == t,
{
    match parse_time(text) {
        Some(time) => time,
        None => now(),
    }
}

/// `Utc::now`: the current time, as `DateTime::timestamp` and
/// `DateTime::timestamp_subsec_nanos` give it. It depends on the clock.
#[verifier::external_body]
pub(crate) fn now() -> (time: Timestamp) {
    let now = chrono::Utc::now();
    Timestamp { secs: now.timestamp(), nanos: now.timestamp_subsec_nanos() }
}

} // verus!
