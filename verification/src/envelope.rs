//! The envelopes that peers and the rendezvous server exchange: registration
//! and lookup, each with its response.

use crate::address::{
    address_text, lemma_address_round_trip, lemma_address_text_starts_with_digit, NetworkAddress,
};
use crate::document::{
    all_text, datagram_members, datagram_of, entries_read_back, json_entries, json_is_object, json_members,
    lemma_datagram_round_trip, lemma_members_of_push, members_of, new_object, read_datagram,
    set_member, write_datagram, Entry, Members, MAX_DATAGRAM,
};
use crate::error::{Cause, DecodeError};
use crate::fields::{
    address_member, identifier_member, read_address, read_identifier, read_resolved, read_text,
    resolved_member, text_member, Field, FieldValue, NOT_FOUND, QUERY, REGISTRATION,
};
use crate::identifier::{identifier_of_text, identifier_text, PeerIdentifier};
use vstd::prelude::*;

verus! {

/// An envelope of the rendezvous protocol.
#[derive(Debug)]
pub enum ControlEnvelope {
    /// A peer asks to be registered under the address given.
    Registration { reply_address: NetworkAddress },
    /// A peer asks for the address of another.
    LookupRequest { queried: PeerIdentifier },
    /// The server's answer to a lookup: the address on record, if any.
    LookupResponse { queried: PeerIdentifier, resolved: Option<NetworkAddress> },
    /// The server's answer to a registration.
    RegistrationResponse { status: String, assigned: PeerIdentifier },
}

/// What an envelope says, as mathematics: the same four kinds, the text of
/// the status in place of the string.
pub enum ControlView {
    Registration { reply_address: NetworkAddress },
    LookupRequest { queried: PeerIdentifier },
    LookupResponse { queried: PeerIdentifier, resolved: Option<NetworkAddress> },
    RegistrationResponse { status: Seq<char>, assigned: PeerIdentifier },
}

impl View for ControlEnvelope {
    type V = ControlView;

    open spec fn view(&self) -> ControlView {
        match self {
            ControlEnvelope::Registration { reply_address } => ControlView::Registration {
                reply_address: *reply_address,
            },
            ControlEnvelope::LookupRequest { queried } => ControlView::LookupRequest {
                queried: *queried,
            },
            ControlEnvelope::LookupResponse { queried, resolved } => ControlView::LookupResponse {
                queried: *queried,
                resolved: *resolved,
            },
            ControlEnvelope::RegistrationResponse {
                status,
                assigned,
            } => ControlView::RegistrationResponse { status: status@, assigned: *assigned },
        }
    }
}

/// The view of the outcome of reading an envelope.
pub open spec fn control_outcome(outcome: Result<ControlEnvelope, DecodeError>) -> Result<
    ControlView,
    DecodeError,
> {
    match outcome {
        Ok(envelope) => Ok(envelope@),
        Err(error) => Err(error),
    }
}

/// The envelope that six field values make.
///
/// A request type decides the kind: `registration` needs `addr`, `query`
/// needs `queried_uuid`, and any other type is invalid. Without a request
/// type, a `status` makes a registration response and, failing that, an
/// `address` makes a lookup response; both need `uuid`. A document with none
/// of the three lacks its request type.
pub open spec fn control_of_fields(
    req_type: FieldValue<Seq<char>>,
    addr: FieldValue<NetworkAddress>,
    queried_uuid: FieldValue<PeerIdentifier>,
    status: FieldValue<Seq<char>>,
    address: FieldValue<Option<NetworkAddress>>,
    uuid: FieldValue<PeerIdentifier>,
) -> Result<ControlView, DecodeError> {
    match req_type {
        FieldValue::Present(kind) => if kind == REGISTRATION@ {
            match addr.required(Field::Addr) {
                Ok(reply_address) => Ok(ControlView::Registration { reply_address }),
                Err(error) => Err(error),
            }
        } else if kind == QUERY@ {
            match queried_uuid.required(Field::QueriedUuid) {
                Ok(queried) => Ok(ControlView::LookupRequest { queried }),
                Err(error) => Err(error),
            }
        } else {
            Err(DecodeError::InvalidField(Field::ReqType, Cause::UnknownRequest))
        },
        FieldValue::Invalid(cause) => Err(DecodeError::InvalidField(Field::ReqType, cause)),
        FieldValue::Missing => match status {
            FieldValue::Present(status) => match uuid.required(Field::Uuid) {
                Ok(assigned) => Ok(ControlView::RegistrationResponse { status, assigned }),
                Err(error) => Err(error),
            },
            FieldValue::Invalid(cause) => Err(DecodeError::InvalidField(Field::Status, cause)),
            FieldValue::Missing => match address {
                FieldValue::Present(resolved) => match uuid.required(Field::Uuid) {
                    Ok(queried) => Ok(ControlView::LookupResponse { queried, resolved }),
                    Err(error) => Err(error),
                },
                FieldValue::Invalid(cause) => Err(
                    DecodeError::InvalidField(Field::Address, cause),
                ),
                FieldValue::Missing => Err(DecodeError::MissingField(Field::ReqType)),
            },
        },
    }
}

/// The envelope that the members of a document stand for.
pub open spec fn control_of_members(members: Members) -> Result<ControlView, DecodeError> {
    control_of_fields(
        text_member(members, Field::ReqType),
        address_member(members, Field::Addr),
        identifier_member(members, Field::QueriedUuid),
        text_member(members, Field::Status),
        resolved_member(members, Field::Address),
        identifier_member(members, Field::Uuid),
    )
}

/// The envelope that a datagram stands for.
pub open spec fn control_of_datagram(bytes: Seq<u8>) -> Result<ControlView, DecodeError> {
    match datagram_members(bytes) {
        Some(members) => control_of_members(members),
        None => Err(DecodeError::Malformed),
    }
}

/// The text that a lookup response carries for its outcome.
pub open spec fn resolved_text(resolved: Option<NetworkAddress>) -> Seq<char> {
    match resolved {
        Some(address) => address_text(address),
        None => NOT_FOUND@,
    }
}

/// The members of the document that an envelope is written as, in their
/// order.
pub open spec fn control_entries(envelope: ControlView) -> Seq<Entry> {
    match envelope {
        ControlView::Registration { reply_address } => seq![
            (Field::ReqType.spec_name(), Some(REGISTRATION@)),
            (Field::Addr.spec_name(), Some(address_text(reply_address))),
        ],
        ControlView::LookupRequest { queried } => seq![
            (Field::ReqType.spec_name(), Some(QUERY@)),
            (Field::QueriedUuid.spec_name(), Some(identifier_text(queried))),
        ],
        ControlView::LookupResponse { queried, resolved } => seq![
            (Field::Address.spec_name(), Some(resolved_text(resolved))),
            (Field::Uuid.spec_name(), Some(identifier_text(queried))),
        ],
        ControlView::RegistrationResponse { status, assigned } => seq![
            (Field::Status.spec_name(), Some(status)),
            (Field::Uuid.spec_name(), Some(identifier_text(assigned))),
        ],
    }
}

/// The datagram that an envelope is written as.
pub open spec fn control_datagram(envelope: ControlView) -> Seq<u8> {
    datagram_of(control_entries(envelope))
}

/// An envelope is written as two members, both strings.
pub proof fn lemma_control_entries_are_text(envelope: ControlView)
    ensures
        control_entries(envelope).len() == 2,
        all_text(control_entries(envelope)),
{
}

/// The identifier that an envelope holds, if it holds one.
pub open spec fn control_identifier(envelope: ControlView) -> Option<PeerIdentifier> {
    match envelope {
        ControlView::Registration { .. } => None,
        ControlView::LookupRequest { queried } => Some(queried),
        ControlView::LookupResponse { queried, .. } => Some(queried),
        ControlView::RegistrationResponse { assigned, .. } => Some(assigned),
    }
}

/// Whether the texts that an envelope is written with read back as what the
/// envelope holds: its identifier as itself, and the document as its
/// members. The crates that write the texts see to this for every envelope
/// that the library builds or reads.
pub open spec fn control_reads_back(envelope: ControlView) -> bool {
    &&& control_identifier(envelope) matches Some(id) ==> identifier_of_text(identifier_text(id))
        == Some(id)
    &&& entries_read_back(control_entries(envelope))
}

/// Round trip: the document that an envelope is written as reads as the
/// envelope, whatever its kind, and so does the datagram if it is no longer
/// than the protocol allows.
pub proof fn lemma_control_round_trip(envelope: ControlView)
    requires
        control_reads_back(envelope),
    ensures
        control_of_members(members_of(control_entries(envelope))) == Ok::<
            ControlView,
            DecodeError,
        >(envelope),
        control_datagram(envelope).len() <= MAX_DATAGRAM ==> control_of_datagram(
            control_datagram(envelope),
        ) == Ok::<ControlView, DecodeError>(envelope),
{
    ControlEnvelope::lemma_members_read_back(envelope);
    if control_datagram(envelope).len() <= MAX_DATAGRAM {
        lemma_datagram_round_trip(control_entries(envelope));
    }
}

/// Whether `bytes` is the datagram that the envelope is written as. Such a
/// datagram, if it is no longer than the protocol allows, reads as the
/// envelope.
pub open spec fn is_control_datagram(bytes: Seq<u8>, envelope: ControlView) -> bool {
    &&& bytes == control_datagram(envelope)
    &&& bytes.len() <= MAX_DATAGRAM ==> control_of_datagram(bytes) == Ok::<
        ControlView,
        DecodeError,
    >(envelope)
}

impl ControlEnvelope {
    /// Makes an envelope of the values of the six fields that envelopes are
    /// made of, or reports the field that keeps them from making one.
    pub fn assemble(
        req_type: FieldValue<String>,
        addr: FieldValue<NetworkAddress>,
        queried_uuid: FieldValue<PeerIdentifier>,
        status: FieldValue<String>,
        address: FieldValue<Option<NetworkAddress>>,
        uuid: FieldValue<PeerIdentifier>,
    ) -> (outcome: Result<ControlEnvelope, DecodeError>)
        ensures
            control_outcome(outcome) == control_of_fields(
                req_type@,
                addr,
                queried_uuid,
                status@,
                address,
                uuid,
            ),
    {
        match req_type {
            FieldValue::Present(kind) => if kind == String::from_str(REGISTRATION) {
                let reply_address = addr.require(Field::Addr)?;
                Ok(ControlEnvelope::Registration { reply_address })
            } else if kind == String::from_str(QUERY) {
                let queried = queried_uuid.require(Field::QueriedUuid)?;
                Ok(ControlEnvelope::LookupRequest { queried })
            } else {
                Err(DecodeError::InvalidField(Field::ReqType, Cause::UnknownRequest))
            },
            FieldValue::Invalid(cause) => Err(DecodeError::InvalidField(Field::ReqType, cause)),
            FieldValue::Missing => match status {
                FieldValue::Present(status) => {
                    let assigned = uuid.require(Field::Uuid)?;
                    Ok(ControlEnvelope::RegistrationResponse { status, assigned })
                },
                FieldValue::Invalid(cause) => Err(
                    DecodeError::InvalidField(Field::Status, cause),
                ),
                FieldValue::Missing => match address {
                    FieldValue::Present(resolved) => {
                        let queried = uuid.require(Field::Uuid)?;
                        Ok(ControlEnvelope::LookupResponse { queried, resolved })
                    },
                    FieldValue::Invalid(cause) => Err(
                        DecodeError::InvalidField(Field::Address, cause),
                    ),
                    FieldValue::Missing => Err(DecodeError::MissingField(Field::ReqType)),
                },
            },
        }
    }

    /// Reads an envelope from a document.
    pub fn read(document: &json::JsonValue) -> (outcome: Result<ControlEnvelope, DecodeError>)
        ensures
            control_outcome(outcome) == control_of_members(json_members(*document)),
    {
        Self::assemble(
            read_text(document, Field::ReqType),
            read_address(document, Field::Addr),
            read_identifier(document, Field::QueriedUuid),
            read_text(document, Field::Status),
            read_resolved(document, Field::Address),
            read_identifier(document, Field::Uuid),
        )
    }

    /// Writes two members into a new document.
    fn document_of(first: Field, first_text: &str, second: Field, second_text: &str) -> (document:
        json::JsonValue)
        requires
            first != second,
        ensures
            json_is_object(document),
            json_entries(document) == seq![
                (first.spec_name(), Some(first_text@)),
                (second.spec_name(), Some(second_text@)),
            ],
    {
        let mut document = new_object();
        proof {
            Field::lemma_names_differ(first, second);
            lemma_members_of_push(Seq::empty(), first.spec_name(), Some(first_text@));
        }
        set_member(&mut document, first.name(), first_text);
        set_member(&mut document, second.name(), second_text);
        proof {
            assert(json_entries(document) =~= seq![
                (first.spec_name(), Some(first_text@)),
                (second.spec_name(), Some(second_text@)),
            ]);
        }
        document
    }

    /// The part of the round trip that needs no datagram: the members that
    /// an envelope is written as read as the envelope.
    proof fn lemma_members_read_back(envelope: ControlView)
        requires
            control_identifier(envelope) matches Some(id) ==> identifier_of_text(
                identifier_text(id),
            ) == Some(id),
        ensures
            control_of_members(members_of(control_entries(envelope))) == Ok::<
                ControlView,
                DecodeError,
            >(envelope),
    {
        let entries = control_entries(envelope);
        let none = Seq::<Entry>::empty();
        let one = none.push(entries[0]);
        lemma_members_of_push(none, entries[0].0, entries[0].1);
        lemma_members_of_push(one, entries[1].0, entries[1].1);
        assert(one.push(entries[1]) =~= entries);
        Field::lemma_names_differ(Field::ReqType, Field::Addr);
        Field::lemma_names_differ(Field::ReqType, Field::QueriedUuid);
        Field::lemma_names_differ(Field::ReqType, Field::Status);
        Field::lemma_names_differ(Field::ReqType, Field::Address);
        Field::lemma_names_differ(Field::ReqType, Field::Uuid);
        Field::lemma_names_differ(Field::Status, Field::Address);
        Field::lemma_names_differ(Field::Status, Field::Uuid);
        Field::lemma_names_differ(Field::Address, Field::Uuid);
        reveal_strlit("registration");
        reveal_strlit("query");
        reveal_strlit("nil");
        match envelope {
            ControlView::Registration { reply_address } => {
                lemma_address_round_trip(reply_address);
            },
            ControlView::LookupRequest { .. } => {
                assert(QUERY@.len() != REGISTRATION@.len());
            },
            ControlView::LookupResponse { resolved, .. } => {
                if let Some(found) = resolved {
                    lemma_address_round_trip(found);
                    lemma_address_text_starts_with_digit(found);
                }
            },
            ControlView::RegistrationResponse { .. } => {},
        }
    }

    /// Writes the envelope as a document. Reading the document gives the
    /// envelope back.
    pub fn to_json(&self) -> (document: json::JsonValue)
        ensures
            json_is_object(document),
            json_entries(document) == control_entries(self@),
            control_of_members(json_members(document)) == Ok::<ControlView, DecodeError>(self@),
            control_identifier(self@) matches Some(id) ==> identifier_of_text(identifier_text(id))
                == Some(id),
    {
        let document = match self {
            ControlEnvelope::Registration { reply_address } => {
                let addr = reply_address.to_text();
                Self::document_of(Field::ReqType, REGISTRATION, Field::Addr, addr.as_str())
            },
            ControlEnvelope::LookupRequest { queried } => {
                let queried_uuid = queried.to_text();
                Self::document_of(
                    Field::ReqType,
                    QUERY,
                    Field::QueriedUuid,
                    queried_uuid.as_str(),
                )
            },
            ControlEnvelope::LookupResponse { queried, resolved } => {
                let address = match resolved {
                    Some(found) => found.to_text(),
                    None => String::from_str(NOT_FOUND),
                };
                let uuid = queried.to_text();
                Self::document_of(Field::Address, address.as_str(), Field::Uuid, uuid.as_str())
            },
            ControlEnvelope::RegistrationResponse { status, assigned } => {
                let uuid = assigned.to_text();
                Self::document_of(Field::Status, status.as_str(), Field::Uuid, uuid.as_str())
            },
        };
        proof {
            Self::lemma_members_read_back(self@);
        }
        document
    }

    /// Writes the envelope as a datagram. Where the datagram is no longer
    /// than the protocol allows, reading it gives the envelope back.
    pub fn encode(&self) -> (bytes: Vec<u8>)
        ensures
            is_control_datagram(bytes@, self@),
            control_reads_back(self@),
    {
        let document = self.to_json();
        proof {
            lemma_control_entries_are_text(self@);
        }
        let bytes = write_datagram(&document);
        proof {
            lemma_control_round_trip(self@);
        }
        bytes
    }

    /// Reads an envelope from a datagram.
    pub fn decode(bytes: &[u8]) -> (outcome: Result<ControlEnvelope, DecodeError>)
        ensures
            control_outcome(outcome) == control_of_datagram(bytes@),
    {
        match read_datagram(bytes) {
            Some(document) => Self::read(&document),
            None => Err(DecodeError::Malformed),
        }
    }
}

} // verus!
