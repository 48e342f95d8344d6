//! Messages that peers send to each other.

use crate::document::{
    datagram_members, datagram_of, entries_read_back, json_entries, json_is_object, json_members,
    lemma_datagram_round_trip, lemma_members_of_push, members_of, new_object, read_datagram,
    set_member, write_datagram, Entry, Members, MAX_DATAGRAM,
};
use crate::error::{DecodeError, MessageError};
use crate::fields::{
    identifier_member, read_identifier, read_text, read_timestamp, text_member, timestamp_member,
    Field, FieldValue,
};
use crate::identifier::{identifier_of_text, identifier_text, PeerIdentifier};
use crate::timestamp::{is_timestamp_text, Timestamp};
use vstd::prelude::*;

verus! {

/// A message on its way from one peer to another. The protocol accepts a
/// message whose sender is also its recipient.
#[derive(Debug)]
pub struct Message {
    pub dst_uuid: PeerIdentifier,
    pub src_uuid: PeerIdentifier,
    pub creation_time: Timestamp,
    pub data: String,
}

/// What a message says, as mathematics: the two identifiers, the text of the
/// creation time and the text of the data.
pub struct MessageView {
    pub dst_uuid: PeerIdentifier,
    pub src_uuid: PeerIdentifier,
    pub creation_time: Seq<char>,
    pub data: Seq<char>,
}

impl View for Message {
    type V = MessageView;

    open spec fn view(&self) -> MessageView {
        MessageView {
            dst_uuid: self.dst_uuid,
            src_uuid: self.src_uuid,
            creation_time: self.creation_time@,
            data: self.data@,
        }
    }
}

impl Clone for Message {
    fn clone(&self) -> (copy: Self)
        ensures
            copy@ == self@,
    {
        Message {
            dst_uuid: self.dst_uuid,
            src_uuid: self.src_uuid,
            creation_time: self.creation_time.clone(),
            data: self.data.clone(),
        }
    }
}

/// The view of the outcome of reading a message.
pub open spec fn message_outcome(outcome: Result<Message, DecodeError>) -> Result<
    MessageView,
    DecodeError,
> {
    match outcome {
        Ok(message) => Ok(message@),
        Err(error) => Err(error),
    }
}

/// The message that four field values make, or the error of the first of
/// them that is missing or invalid, in the order destination, source, data,
/// creation time.
pub open spec fn message_of_fields(
    dst_uuid: FieldValue<PeerIdentifier>,
    src_uuid: FieldValue<PeerIdentifier>,
    data: FieldValue<Seq<char>>,
    creation_time: FieldValue<Seq<char>>,
) -> Result<MessageView, DecodeError> {
    match (dst_uuid, src_uuid, data, creation_time) {
        (
            FieldValue::Present(dst_uuid),
            FieldValue::Present(src_uuid),
            FieldValue::Present(data),
            FieldValue::Present(creation_time),
        ) => Ok(MessageView { dst_uuid, src_uuid, creation_time, data }),
        _ => if let Some(error) = dst_uuid.failure(Field::DstUuid) {
            Err(error)
        } else if let Some(error) = src_uuid.failure(Field::SrcUuid) {
            Err(error)
        } else if let Some(error) = data.failure(Field::Data) {
            Err(error)
        } else {
            Err(creation_time.failure(Field::CreationTime).unwrap())
        },
    }
}

/// The message that the members of a document stand for.
pub open spec fn message_of_members(members: Members) -> Result<MessageView, DecodeError> {
    message_of_fields(
        identifier_member(members, Field::DstUuid),
        identifier_member(members, Field::SrcUuid),
        text_member(members, Field::Data),
        timestamp_member(members, Field::CreationTime),
    )
}

/// The message that a datagram stands for.
pub open spec fn message_of_datagram(bytes: Seq<u8>) -> Result<MessageView, DecodeError> {
    match datagram_members(bytes) {
        Some(members) => message_of_members(members),
        None => Err(DecodeError::Malformed),
    }
}

/// The members of the document that a message is written as, in their
/// order.
pub open spec fn message_entries(message: MessageView) -> Seq<Entry> {
    seq![
        (Field::DstUuid.spec_name(), Some(identifier_text(message.dst_uuid))),
        (Field::SrcUuid.spec_name(), Some(identifier_text(message.src_uuid))),
        (Field::Data.spec_name(), Some(message.data)),
        (Field::CreationTime.spec_name(), Some(message.creation_time)),
    ]
}

/// The datagram that a message is written as.
pub open spec fn message_datagram(message: MessageView) -> Seq<u8> {
    datagram_of(message_entries(message))
}

/// Whether the texts that a message is written with read back as what the
/// message holds: each identifier as itself, the creation time as a point in
/// time, and the document as its members. The crates that write the texts
/// see to this for every message that the library builds or reads.
pub open spec fn message_reads_back(message: MessageView) -> bool {
    &&& identifier_of_text(identifier_text(message.dst_uuid)) == Some(message.dst_uuid)
    &&& identifier_of_text(identifier_text(message.src_uuid)) == Some(message.src_uuid)
    &&& is_timestamp_text(message.creation_time)
    &&& entries_read_back(message_entries(message))
}

/// Round trip: the document that a message is written as reads as the
/// message, and so does the datagram if it is no longer than the protocol
/// allows.
pub proof fn lemma_message_round_trip(message: MessageView)
    requires
        message_reads_back(message),
    ensures
        message_of_members(members_of(message_entries(message))) == Ok::<
            MessageView,
            DecodeError,
        >(message),
        message_datagram(message).len() <= MAX_DATAGRAM ==> message_of_datagram(
            message_datagram(message),
        ) == Ok::<MessageView, DecodeError>(message),
{
    Message::lemma_members_read_back(message);
    if message_datagram(message).len() <= MAX_DATAGRAM {
        lemma_datagram_round_trip(message_entries(message));
    }
}

/// A document reads as a message if and only if it holds each of the four
/// fields with a value of the field's type.
pub proof fn lemma_message_needs_its_fields(members: Members)
    ensures
        message_of_members(members) is Ok <==> {
            &&& identifier_member(members, Field::DstUuid) is Present
            &&& identifier_member(members, Field::SrcUuid) is Present
            &&& text_member(members, Field::Data) is Present
            &&& timestamp_member(members, Field::CreationTime) is Present
        },
{
}

/// A document that lacks one of the four fields is not read as a message,
/// and where the fields before it are in order, the error names the field
/// that is missing.
pub proof fn lemma_missing_field_is_reported(members: Members, field: Field)
    requires
        field == Field::DstUuid || field == Field::SrcUuid || field == Field::Data || field
            == Field::CreationTime,
        !members.contains_key(field.spec_name()),
    ensures
        message_of_members(members) is Err,
        field == Field::DstUuid ==> message_of_members(members) == Err::<MessageView, DecodeError>(
            DecodeError::MissingField(field),
        ),
        field == Field::SrcUuid && identifier_member(members, Field::DstUuid) is Present
            ==> message_of_members(members) == Err::<MessageView, DecodeError>(
            DecodeError::MissingField(field),
        ),
        field == Field::Data && identifier_member(members, Field::DstUuid) is Present
            && identifier_member(members, Field::SrcUuid) is Present ==> message_of_members(
            members,
        ) == Err::<MessageView, DecodeError>(DecodeError::MissingField(field)),
        field == Field::CreationTime && identifier_member(members, Field::DstUuid) is Present
            && identifier_member(members, Field::SrcUuid) is Present && text_member(
            members,
            Field::Data,
        ) is Present ==> message_of_members(members) == Err::<MessageView, DecodeError>(
            DecodeError::MissingField(field),
        ),
{
}

/// Whether `bytes` is the datagram that the message is written as, and
/// reads as the message if it is no longer than the protocol allows.
pub open spec fn is_message_datagram(bytes: Seq<u8>, message: MessageView) -> bool {
    &&& bytes == message_datagram(message)
    &&& bytes.len() <= MAX_DATAGRAM ==> message_of_datagram(bytes) == Ok::<
        MessageView,
        DecodeError,
    >(message)
}

impl Message {
    /// A message stamped with the current time. The clock decides whether
    /// there is one: where its reading cannot be read back as a point in
    /// time, no message is made.
    pub fn new(dst_uuid: PeerIdentifier, src_uuid: PeerIdentifier, data: &str) -> (made: Result<
        Message,
        MessageError,
    >)
        ensures
            match made {
                Ok(message) => message.dst_uuid == dst_uuid && message.src_uuid == src_uuid
                    && message.data@ == data@,
                Err(error) => error is MessageCreationError,
            },
    {
        match Timestamp::now() {
            Some(creation_time) => Self::new_with_timestamp(
                dst_uuid,
                src_uuid,
                data,
                creation_time,
            ),
            None => Err(
                MessageError::MessageCreationError(String::from_str("the clock gave no time")),
            ),
        }
    }

    /// A message with the given creation time. This never fails.
    pub fn new_with_timestamp(
        dst_uuid: PeerIdentifier,
        src_uuid: PeerIdentifier,
        data: &str,
        creation_time: Timestamp,
    ) -> (made: Result<Message, MessageError>)
        ensures
            made matches Ok(message) && message@ == (MessageView {
                dst_uuid,
                src_uuid,
                creation_time: creation_time@,
                data: data@,
            }),
    {
        Ok(Message { dst_uuid, src_uuid, creation_time, data: String::from_str(data) })
    }

    /// Makes a message of the values of its four fields, or reports the
    /// first field that is missing or invalid.
    pub fn assemble(
        dst_uuid: FieldValue<PeerIdentifier>,
        src_uuid: FieldValue<PeerIdentifier>,
        data: FieldValue<String>,
        creation_time: FieldValue<Timestamp>,
    ) -> (outcome: Result<Message, DecodeError>)
        ensures
            message_outcome(outcome) == message_of_fields(
                dst_uuid,
                src_uuid,
                data@,
                creation_time@,
            ),
    {
        let dst_uuid = dst_uuid.require(Field::DstUuid)?;
        let src_uuid = src_uuid.require(Field::SrcUuid)?;
        let data = data.require(Field::Data)?;
        let creation_time = creation_time.require(Field::CreationTime)?;
        Ok(Message { dst_uuid, src_uuid, creation_time, data })
    }

    /// Reads a message from a document.
    pub fn read(document: &json::JsonValue) -> (outcome: Result<Message, DecodeError>)
        ensures
            message_outcome(outcome) == message_of_members(json_members(*document)),
    {
        Self::assemble(
            read_identifier(document, Field::DstUuid),
            read_identifier(document, Field::SrcUuid),
            read_text(document, Field::Data),
            read_timestamp(document, Field::CreationTime),
        )
    }

    /// Reads a message from a document of the form
    /// `{"dst_uuid": .., "src_uuid": .., "data": .., "creation_time": ..}`.
    pub fn from_json(json_data: json::JsonValue) -> (outcome: Result<Message, MessageError>)
        ensures
            match outcome {
                Ok(message) => message_of_members(json_members(json_data)) == Ok::<
                    MessageView,
                    DecodeError,
                >(message@),
                Err(error) => error matches MessageError::JsonParseError(cause)
                    && message_of_members(json_members(json_data)) == Err::<
                    MessageView,
                    DecodeError,
                >(cause),
            },
    {
        match Self::read(&json_data) {
            Ok(message) => Ok(message),
            Err(cause) => Err(MessageError::JsonParseError(cause)),
        }
    }

    /// Writes the message as a document. Reading the document gives the
    /// message back.
    pub fn to_json(&self) -> (document: json::JsonValue)
        ensures
            json_is_object(document),
            json_entries(document) == message_entries(self@),
            message_of_members(json_members(document)) == Ok::<MessageView, DecodeError>(self@),
            identifier_of_text(identifier_text(self.dst_uuid)) == Some(self.dst_uuid),
            identifier_of_text(identifier_text(self.src_uuid)) == Some(self.src_uuid),
            is_timestamp_text(self.creation_time@),
    {
        let mut document = new_object();
        let dst_uuid = self.dst_uuid.to_text();
        let src_uuid = self.src_uuid.to_text();
        let creation_time = self.creation_time.text();
        proof {
            Field::lemma_names_differ(Field::DstUuid, Field::SrcUuid);
            Field::lemma_names_differ(Field::DstUuid, Field::Data);
            Field::lemma_names_differ(Field::DstUuid, Field::CreationTime);
            Field::lemma_names_differ(Field::SrcUuid, Field::Data);
            Field::lemma_names_differ(Field::SrcUuid, Field::CreationTime);
            Field::lemma_names_differ(Field::Data, Field::CreationTime);
        }
        set_member(&mut document, Field::DstUuid.name(), dst_uuid.as_str());
        proof {
            lemma_members_of_push(
                Seq::empty(),
                Field::DstUuid.spec_name(),
                Some(dst_uuid@),
            );
        }
        let ghost one = json_entries(document);
        set_member(&mut document, Field::SrcUuid.name(), src_uuid.as_str());
        proof {
            lemma_members_of_push(one, Field::SrcUuid.spec_name(), Some(src_uuid@));
        }
        let ghost two = json_entries(document);
        set_member(&mut document, Field::Data.name(), self.data.as_str());
        proof {
            lemma_members_of_push(two, Field::Data.spec_name(), Some(self.data@));
        }
        set_member(&mut document, Field::CreationTime.name(), creation_time);
        proof {
            assert(json_entries(document) =~= message_entries(self@));
            Self::lemma_members_read_back(self@);
        }
        document
    }

    /// The part of the round trip that needs no datagram: the members that
    /// a message is written as read as the message.
    proof fn lemma_members_read_back(message: MessageView)
        requires
            identifier_of_text(identifier_text(message.dst_uuid)) == Some(message.dst_uuid),
            identifier_of_text(identifier_text(message.src_uuid)) == Some(message.src_uuid),
            is_timestamp_text(message.creation_time),
        ensures
            message_of_members(members_of(message_entries(message))) == Ok::<
                MessageView,
                DecodeError,
            >(message),
    {
        let dst_uuid = (Field::DstUuid.spec_name(), Some(identifier_text(message.dst_uuid)));
        let src_uuid = (Field::SrcUuid.spec_name(), Some(identifier_text(message.src_uuid)));
        let data = (Field::Data.spec_name(), Some(message.data));
        let creation_time = (Field::CreationTime.spec_name(), Some(message.creation_time));
        let none = Seq::<Entry>::empty();
        let one = none.push(dst_uuid);
        let two = one.push(src_uuid);
        let three = two.push(data);
        Field::lemma_names_differ(Field::DstUuid, Field::SrcUuid);
        Field::lemma_names_differ(Field::DstUuid, Field::Data);
        Field::lemma_names_differ(Field::DstUuid, Field::CreationTime);
        Field::lemma_names_differ(Field::SrcUuid, Field::Data);
        Field::lemma_names_differ(Field::SrcUuid, Field::CreationTime);
        Field::lemma_names_differ(Field::Data, Field::CreationTime);
        lemma_members_of_push(none, dst_uuid.0, dst_uuid.1);
        lemma_members_of_push(one, src_uuid.0, src_uuid.1);
        lemma_members_of_push(two, data.0, data.1);
        lemma_members_of_push(three, creation_time.0, creation_time.1);
        assert(three.push(creation_time) =~= message_entries(message));
    }

    /// Writes the message as a datagram. Where the datagram is no longer
    /// than the protocol allows, reading it gives the message back.
    pub fn encode(&self) -> (bytes: Vec<u8>)
        ensures
            is_message_datagram(bytes@, self@),
            message_reads_back(self@),
    {
        let document = self.to_json();
        let bytes = write_datagram(&document);
        proof {
            lemma_message_round_trip(self@);
        }
        bytes
    }

    /// Reads a message from a datagram.
    pub fn decode(bytes: &[u8]) -> (outcome: Result<Message, DecodeError>)
        ensures
            message_outcome(outcome) == message_of_datagram(bytes@),
    {
        match read_datagram(bytes) {
            Some(document) => Self::read(&document),
            None => Err(DecodeError::Malformed),
        }
    }
}

} // verus!
