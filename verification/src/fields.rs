//! The fields of the envelopes and how they are read from a document.

use crate::address::{address_of_text, NetworkAddress};
use crate::document::{has_member, json_members, member_text, Members};
use crate::error::{Cause, DecodeError};
use crate::identifier::{identifier_of_text, PeerIdentifier};
use crate::timestamp::{is_timestamp_text, Timestamp};
use vstd::prelude::*;

verus! {

/// The fields that the envelopes are made of.
#[derive(Clone, Copy, Debug, PartialEq, Eq, Structural)]
pub enum Field {
    /// `req_type`: what a request asks for.
    ReqType,
    /// `addr`: the address that a peer registers.
    Addr,
    /// `status`: how a registration ended.
    Status,
    /// `uuid`: the identifier that a response speaks of.
    Uuid,
    /// `queried_uuid`: the identifier that a lookup asks for.
    QueriedUuid,
    /// `address`: the address that a lookup found, or `nil`.
    Address,
    /// `src_uuid`: who sent a message.
    SrcUuid,
    /// `dst_uuid`: whom a message is for.
    DstUuid,
    /// `data`: what a message says.
    Data,
    /// `creation_time`: when a message was written.
    CreationTime,
}

/// The request type of a registration.
pub const REGISTRATION: &'static str = "registration";

/// The request type of a lookup.
pub const QUERY: &'static str = "query";

/// What a lookup response carries in place of an address when the server
/// knows none.
pub const NOT_FOUND: &'static str = "nil";

/// The status of a registration that succeeded.
pub const STATUS_OK: &'static str = "OK";

impl Field {
    /// The key of the field in a document.
    pub open spec fn spec_name(self) -> Seq<char> {
        match self {
            Field::ReqType => "req_type"@,
            Field::Addr => "addr"@,
            Field::Status => "status"@,
            Field::Uuid => "uuid"@,
            Field::QueriedUuid => "queried_uuid"@,
            Field::Address => "address"@,
            Field::SrcUuid => "src_uuid"@,
            Field::DstUuid => "dst_uuid"@,
            Field::Data => "data"@,
            Field::CreationTime => "creation_time"@,
        }
    }

    /// The key of the field in a document.
    pub fn name(self) -> (name: &'static str)
        ensures
            name@ == self.spec_name(),
    {
        match self {
            Field::ReqType => "req_type",
            Field::Addr => "addr",
            Field::Status => "status",
            Field::Uuid => "uuid",
            Field::QueriedUuid => "queried_uuid",
            Field::Address => "address",
            Field::SrcUuid => "src_uuid",
            Field::DstUuid => "dst_uuid",
            Field::Data => "data",
            Field::CreationTime => "creation_time",
        }
    }

    /// No two fields share a key.
    pub proof fn lemma_names_differ(first: Field, second: Field)
        requires
            first != second,
        ensures
            first.spec_name() != second.spec_name(),
    {
        reveal_strlit("req_type");
        reveal_strlit("addr");
        reveal_strlit("status");
        reveal_strlit("uuid");
        reveal_strlit("queried_uuid");
        reveal_strlit("address");
        reveal_strlit("src_uuid");
        reveal_strlit("dst_uuid");
        reveal_strlit("data");
        reveal_strlit("creation_time");
        let a = first.spec_name();
        let b = second.spec_name();
        if a.len() == b.len() {
            assert(a[0] != b[0]);
        }
    }
}

/// What a document holds for a field.
#[derive(Debug)]
pub enum FieldValue<T> {
    /// The document has no member under the field's key.
    Missing,
    /// The document has a member, but not one of the field's type.
    Invalid(Cause),
    /// The value of the field.
    Present(T),
}

impl<T: View> View for FieldValue<T> {
    type V = FieldValue<T::V>;

    open spec fn view(&self) -> FieldValue<T::V> {
        match self {
            FieldValue::Missing => FieldValue::Missing,
            FieldValue::Invalid(cause) => FieldValue::Invalid(*cause),
            FieldValue::Present(value) => FieldValue::Present(value@),
        }
    }
}

impl<T> FieldValue<T> {
    /// The error that an envelope reports when it needs the field and this
    /// is what the document holds; `None` where the value is there.
    pub open spec fn failure(self, field: Field) -> Option<DecodeError> {
        match self {
            FieldValue::Missing => Some(DecodeError::MissingField(field)),
            FieldValue::Invalid(cause) => Some(DecodeError::InvalidField(field, cause)),
            FieldValue::Present(_) => None,
        }
    }

    /// The value of a field that an envelope needs, or the error to report.
    pub open spec fn required(self, field: Field) -> Result<T, DecodeError> {
        match self {
            FieldValue::Missing => Err(DecodeError::MissingField(field)),
            FieldValue::Invalid(cause) => Err(DecodeError::InvalidField(field, cause)),
            FieldValue::Present(value) => Ok(value),
        }
    }

    /// The value of a field that an envelope needs, or the error to report.
    pub fn require(self, field: Field) -> (value: Result<T, DecodeError>)
        ensures
            value == self.required(field),
    {
        match self {
            FieldValue::Missing => Err(DecodeError::MissingField(field)),
            FieldValue::Invalid(cause) => Err(DecodeError::InvalidField(field, cause)),
            FieldValue::Present(value) => Ok(value),
        }
    }
}

/// The text that the members hold for a field.
pub open spec fn text_member(members: Members, field: Field) -> FieldValue<Seq<char>> {
    if !members.contains_key(field.spec_name()) {
        FieldValue::Missing
    } else {
        match members[field.spec_name()] {
            Some(text) => FieldValue::Present(text),
            None => FieldValue::Invalid(Cause::NotText),
        }
    }
}

/// The identifier that the members hold for a field.
pub open spec fn identifier_member(members: Members, field: Field) -> FieldValue<PeerIdentifier> {
    match text_member(members, field) {
        FieldValue::Present(text) => match identifier_of_text(text) {
            Some(id) => FieldValue::Present(id),
            None => FieldValue::Invalid(Cause::NotAnIdentifier),
        },
        FieldValue::Invalid(cause) => FieldValue::Invalid(cause),
        FieldValue::Missing => FieldValue::Missing,
    }
}

/// The address that the members hold for a field.
pub open spec fn address_member(members: Members, field: Field) -> FieldValue<NetworkAddress> {
    match text_member(members, field) {
        FieldValue::Present(text) => match address_of_text(text) {
            Some(address) => FieldValue::Present(address),
            None => FieldValue::Invalid(Cause::NotAnAddress),
        },
        FieldValue::Invalid(cause) => FieldValue::Invalid(cause),
        FieldValue::Missing => FieldValue::Missing,
    }
}

/// What the members hold for a field that carries the outcome of a lookup:
/// an address, or `nil` for none.
pub open spec fn resolved_member(members: Members, field: Field) -> FieldValue<
    Option<NetworkAddress>,
> {
    match text_member(members, field) {
        FieldValue::Present(text) => if text == NOT_FOUND@ {
            FieldValue::Present(None)
        } else {
            match address_of_text(text) {
                Some(address) => FieldValue::Present(Some(address)),
                None => FieldValue::Invalid(Cause::NotAnAddress),
            }
        },
        FieldValue::Invalid(cause) => FieldValue::Invalid(cause),
        FieldValue::Missing => FieldValue::Missing,
    }
}

/// The text of the point in time that the members hold for a field.
pub open spec fn timestamp_member(members: Members, field: Field) -> FieldValue<Seq<char>> {
    match text_member(members, field) {
        FieldValue::Present(text) => if is_timestamp_text(text) {
            FieldValue::Present(text)
        } else {
            FieldValue::Invalid(Cause::NotATimestamp)
        },
        FieldValue::Invalid(cause) => FieldValue::Invalid(cause),
        FieldValue::Missing => FieldValue::Missing,
    }
}

/// Reads a field as text.
pub fn read_text(document: &json::JsonValue, field: Field) -> (value: FieldValue<String>)
    ensures
        value@ == text_member(json_members(*document), field),
{
    match member_text(document, field.name()) {
        Some(text) => FieldValue::Present(text),
        None => if has_member(document, field.name()) {
            FieldValue::Invalid(Cause::NotText)
        } else {
            FieldValue::Missing
        },
    }
}

/// Reads a field as an identifier.
pub fn read_identifier(document: &json::JsonValue, field: Field) -> (value: FieldValue<
    PeerIdentifier,
>)
    ensures
        value == identifier_member(json_members(*document), field),
{
    match read_text(document, field) {
        FieldValue::Present(text) => match PeerIdentifier::parse(text.as_str()) {
            Some(id) => FieldValue::Present(id),
            None => FieldValue::Invalid(Cause::NotAnIdentifier),
        },
        FieldValue::Invalid(cause) => FieldValue::Invalid(cause),
        FieldValue::Missing => FieldValue::Missing,
    }
}

/// Reads a field as an address.
pub fn read_address(document: &json::JsonValue, field: Field) -> (value: FieldValue<
    NetworkAddress,
>)
    ensures
        value == address_member(json_members(*document), field),
{
    match read_text(document, field) {
        FieldValue::Present(text) => match NetworkAddress::parse(text.as_str()) {
            Some(address) => FieldValue::Present(address),
            None => FieldValue::Invalid(Cause::NotAnAddress),
        },
        FieldValue::Invalid(cause) => FieldValue::Invalid(cause),
        FieldValue::Missing => FieldValue::Missing,
    }
}

/// Reads a field as the outcome of a lookup.
pub fn read_resolved(document: &json::JsonValue, field: Field) -> (value: FieldValue<
    Option<NetworkAddress>,
>)
    ensures
        value == resolved_member(json_members(*document), field),
{
    match read_text(document, field) {
        FieldValue::Present(text) => if text == String::from_str(NOT_FOUND) {
            FieldValue::Present(None)
        } else {
            match NetworkAddress::parse(text.as_str()) {
                Some(address) => FieldValue::Present(Some(address)),
                None => FieldValue::Invalid(Cause::NotAnAddress),
            }
        },
        FieldValue::Invalid(cause) => FieldValue::Invalid(cause),
        FieldValue::Missing => FieldValue::Missing,
    }
}

/// Reads a field as a point in time.
pub fn read_timestamp(document: &json::JsonValue, field: Field) -> (value: FieldValue<Timestamp>)
    ensures
        value@ == timestamp_member(json_members(*document), field),
{
    match read_text(document, field) {
        FieldValue::Present(text) => match Timestamp::parse(text.as_str()) {
            Some(time) => FieldValue::Present(time),
            None => FieldValue::Invalid(Cause::NotATimestamp),
        },
        FieldValue::Invalid(cause) => FieldValue::Invalid(cause),
        FieldValue::Missing => FieldValue::Missing,
    }
}

} // verus!
