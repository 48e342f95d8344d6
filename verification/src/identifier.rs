//! Peer identifiers: 128-bit values that the rendezvous server hands out and
//! that travel as UUID text.

use vstd::prelude::*;

verus! {

/// What `Uuid::try_parse` makes of a text: the 128-bit value of the UUID it
/// reads, or `None` where it reads none.
pub uninterp spec fn uuid_parse(text: Seq<char>) -> Option<u128>;

/// How a UUID with the given 128-bit value is displayed.
pub uninterp spec fn uuid_text(value: u128) -> Seq<char>;

/// `Uuid::try_parse`, with the UUID handed back as its 128-bit value
/// (`Uuid::as_u128`). The result depends on the text alone.
#[verifier::external_body]
fn parse_uuid(text: &str) -> (value: Option<u128>)
    ensures
        value == uuid_parse(text@),
{
    match uuid::Uuid::try_parse(text) {
        Ok(id) => Some(id.as_u128()),
        Err(_) => None,
    }
}

/// The `Display` form of `Uuid::from_u128(value)`. The uuid crate documents
/// that its parser reads every form that the crate itself writes, so the text
/// parses back to `value`.
#[verifier::external_body]
fn format_uuid(value: u128) -> (text: String)
    ensures
        text@ == uuid_text(value),
        uuid_parse(text@) == Some(value),
{
    uuid::Uuid::from_u128(value).to_string()
}

/// `Uuid::new_v4`, as a 128-bit value. The value is random but for the
/// version and variant bits, which the uuid crate always sets. The call
/// panics where the operating system has no random bytes to give.
#[verifier::external_body]
fn random_uuid() -> (value: u128)
    ensures
        is_random_value(value),
{
    uuid::Uuid::new_v4().as_u128()
}

/// Whether `value` carries the marks of a random UUID: version
/// 4, and the variant of RFC 4122.
pub open spec fn is_random_value(value: u128) -> bool {
    value & 0xF000_C000_0000_0000_0000u128 == 0x4000_8000_0000_0000_0000u128
}

/// Identifies a peer. The value zero is the nil identifier, which stands for
/// a peer that has not registered.
#[derive(Clone, Copy, Debug, PartialEq, Eq, Hash, Structural)]
pub struct PeerIdentifier {
    pub value: u128,
}

/// The identifier that a text stands for, if it stands for one.
pub open spec fn identifier_of_text(text: Seq<char>) -> Option<PeerIdentifier> {
    match uuid_parse(text) {
        Some(value) => Some(PeerIdentifier { value }),
        None => None,
    }
}

/// The textual form of an identifier.
pub open spec fn identifier_text(id: PeerIdentifier) -> Seq<char> {
    uuid_text(id.value)
}

impl PeerIdentifier {
    /// Whether this is the nil identifier.
    pub open spec fn spec_is_nil(&self) -> bool {
        self.value == 0
    }

    /// The nil identifier.
    pub fn nil() -> (id: PeerIdentifier)
        ensures
            id.value == 0,
    {
        PeerIdentifier { value: 0 }
    }

    /// Whether this is the nil identifier.
    #[verifier::when_used_as_spec(spec_is_nil)]
    pub fn is_nil(&self) -> (nil: bool)
        ensures
            nil == self.spec_is_nil(),
    {
        self.value == 0
    }

    /// Reads an identifier from UUID text.
    pub fn parse(text: &str) -> (id: Option<PeerIdentifier>)
        ensures
            id == identifier_of_text(text@),
    {
        match parse_uuid(text) {
            Some(value) => Some(PeerIdentifier { value }),
            None => None,
        }
    }

    /// The textual form of the identifier. Reading it gives the identifier
    /// back.
    pub fn to_text(&self) -> (text: String)
        ensures
            text@ == identifier_text(*self),
            identifier_of_text(text@) == Some(*self),
    {
        format_uuid(self.value)
    }

    /// A fresh random identifier. It is never nil.
    pub fn random() -> (id: PeerIdentifier)
        ensures
            is_random_value(id.value),
            !id.is_nil(),
    {
        let value = random_uuid();
        proof {
            Self::random_value_is_not_nil(value);
        }
        PeerIdentifier { value }
    }

    /// The nil value lacks the marks of a random UUID.
    pub proof fn random_value_is_not_nil(value: u128)
        requires
            is_random_value(value),
        ensures
            value != 0,
    {
        assert(value & 0xF000_C000_0000_0000_0000u128 == 0x4000_8000_0000_0000_0000u128
            ==> value != 0) by (bit_vector);
    }
}

} // verus!
