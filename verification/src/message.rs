//! The canonical message record and the parser that produces it.

use crate::clock::{now, Timestamp};
use crate::json::{integer_at, read_integer, read_string, string_at, text_of};
use vstd::prelude::*;
use vstd::string::StringExecFns;

verus! {

/// A member of the queue payload that the consumer looks at.
#[derive(Clone, Copy, Debug, PartialEq, Eq, Structural)]
pub enum Field {
    Data,
    Identifier,
    Message,
    PhoneNumber,
    CampaignId,
}

impl Field {
    /// The member's name on the wire.
    pub open spec fn key_spec(self) -> Seq<char> {
        match self {
            Field::Data => "data"@,
            Field::Identifier => "identifier"@,
            Field::Message => "message"@,
            Field::PhoneNumber => "phoneNumber"@,
            Field::CampaignId => "campaignId"@,
        }
    }

    /// The member's name in error messages.
    pub open spec fn label_spec(self) -> Seq<char> {
        match self {
            Field::Data => "data"@,
            Field::Identifier => "identifier"@,
            Field::Message => "message"@,
            Field::PhoneNumber => "phone_number"@,
            Field::CampaignId => "campaign_id"@,
        }
    }

    pub fn key(self) -> (r: &'static str)
        ensures
            r@ == self.key_spec(),
    {
        match self {
            Field::Data => "data",
            Field::Identifier => "identifier",
            Field::Message => "message",
            Field::PhoneNumber => "phoneNumber",
            Field::CampaignId => "campaignId",
        }
    }

    pub fn label(self) -> (r: &'static str)
        ensures
            r@ == self.label_spec(),
    {
        match self {
            Field::Data => "data",
            Field::Identifier => "identifier",
            Field::Message => "message",
            Field::PhoneNumber => "phone_number",
            Field::CampaignId => "campaign_id",
        }
    }
}

/// Why a payload was turned away. A payload that fails once fails always, so
/// these are never retried.
#[derive(Clone, Copy, Debug, PartialEq, Eq, Structural)]
pub enum ValidationError {
    /// The payload is not a JSON document.
    Malformed,
    /// A required member is absent or is not a string.
    Missing(Field),
    /// A member that must carry text is the empty string.
    Empty(Field),
}

impl ValidationError {
    pub open spec fn message_spec(self) -> Seq<char> {
        match self {
            ValidationError::Malformed => "Malformed payload"@,
            ValidationError::Missing(f) => "Missing '"@ + f.label_spec() + "' field"@,
            ValidationError::Empty(f) => "Empty '"@ + f.label_spec() + "' field"@,
        }
    }

    /// The sentence that names the offending member.
    pub fn message(&self) -> (r: String)
        ensures
            r@ == self.message_spec(),
    {
        match self {
            ValidationError::Malformed => "Malformed payload".to_owned(),
            ValidationError::Missing(f) => {
                let mut s = "Missing '".to_owned();
                s.append(f.label());
                s.append("' field");
                s
            },
            ValidationError::Empty(f) => {
                let mut s = "Empty '".to_owned();
                s.append(f.label());
                s.append("' field");
                s
            },
        }
    }
}

/// What the consumer reads out of the `data` object of a delivery, before any
/// judgement: each member is present or not.
#[derive(Debug, PartialEq, Eq)]
pub struct Payload {
    pub identifier: Option<String>,
    pub message: Option<String>,
    pub phone_number: Option<String>,
    pub campaign_id: Option<String>,
    pub total: Option<i64>,
}

pub ghost struct PayloadView {
    pub identifier: Option<Seq<char>>,
    pub message: Option<Seq<char>>,
    pub phone_number: Option<Seq<char>>,
    pub campaign_id: Option<Seq<char>>,
    pub total: Option<i64>,
}

impl View for Payload {
    type V = PayloadView;

    open spec fn view(&self) -> PayloadView {
        PayloadView {
            identifier: text_of(self.identifier),
            message: text_of(self.message),
            phone_number: text_of(self.phone_number),
            campaign_id: text_of(self.campaign_id),
            total: self.total,
        }
    }
}

impl PayloadView {
    /// The first thing wrong with the payload, members taken in the order
    /// identifier, message, phone number, campaign; `None` for a payload that
    /// makes a message.
    pub open spec fn defect(self) -> Option<ValidationError> {
        if self.identifier is None {
            Some(ValidationError::Missing(Field::Identifier))
        } else if self.message is None {
            Some(ValidationError::Missing(Field::Message))
        } else if self.message->0.len() == 0 {
            Some(ValidationError::Empty(Field::Message))
        } else if self.phone_number is None {
            Some(ValidationError::Missing(Field::PhoneNumber))
        } else if self.campaign_id is None {
            Some(ValidationError::Missing(Field::CampaignId))
        } else {
            None
        }
    }
}

impl Payload {
    /// The payload that a JSON value holds.
    pub open spec fn of(data: serde_json::Value) -> PayloadView {
        PayloadView {
            identifier: string_at(data, Field::Identifier.key_spec()),
            message: string_at(data, Field::Message.key_spec()),
            phone_number: string_at(data, Field::PhoneNumber.key_spec()),
            campaign_id: string_at(data, Field::CampaignId.key_spec()),
            total: integer_at(data, "total"@),
        }
    }

    /// Reads the five members out of `data`. A member of the wrong kind
    /// counts as absent.
    pub fn read(data: &serde_json::Value) -> (p: Payload)
        ensures
            p@ == Payload::of(*data),
    {
        Payload {
            identifier: read_string(data, Field::Identifier.key()),
            message: read_string(data, Field::Message.key()),
            phone_number: read_string(data, Field::PhoneNumber.key()),
            campaign_id: read_string(data, Field::CampaignId.key()),
            total: read_integer(data, "total"),
        }
    }
}

/// One inbound unit of work, as stored.
#[derive(Debug, PartialEq, Eq)]
pub struct Message {
    pub identifier: String,
    pub message: String,
    pub phone_number: String,
    pub campaign_id: String,
    pub created_at: Timestamp,
    pub updated_at: Timestamp,
    pub deleted: bool,
}

pub ghost struct MessageView {
    pub identifier: Seq<char>,
    pub message: Seq<char>,
    pub phone_number: Seq<char>,
    pub campaign_id: Seq<char>,
    pub created_at: Timestamp,
    pub updated_at: Timestamp,
    pub deleted: bool,
}

impl View for Message {
    type V = MessageView;

    open spec fn view(&self) -> MessageView {
        MessageView {
            identifier: self.identifier@,
            message: self.message@,
            phone_number: self.phone_number@,
            campaign_id: self.campaign_id@,
            created_at: self.created_at,
            updated_at: self.updated_at,
            deleted: self.deleted,
        }
    }
}

impl Message {
    /// The record made from a payload without defect at the instant `now`:
    /// both timestamps are `now` and the record is not deleted.
    pub open spec fn assemble(p: PayloadView, now: Timestamp) -> MessageView {
        MessageView {
            identifier: p.identifier->0,
            message: p.message->0,
            phone_number: p.phone_number->0,
            campaign_id: p.campaign_id->0,
            created_at: now,
            updated_at: now,
            deleted: false,
        }
    }

    /// What parsing `p` at the instant `now` gives.
    pub open spec fn parse(p: PayloadView, now: Timestamp) -> Result<
        MessageView,
        ValidationError,
    > {
        match p.defect() {
            Some(e) => Err(e),
            None => Ok(Message::assemble(p, now)),
        }
    }

    /// Validates a payload and stamps it with `now`.
    pub fn from_payload(payload: Payload, now: Timestamp) -> (r: Result<Message, ValidationError>)
        ensures
            r matches Ok(m) ==> Message::parse(payload@, now) == Ok::<
                MessageView,
                ValidationError,
            >(m@),
            r matches Err(e) ==> Message::parse(payload@, now) == Err::<
                MessageView,
                ValidationError,
            >(e),
    {
        let identifier = match payload.identifier {
            Some(s) => s,
            None => { return Err(ValidationError::Missing(Field::Identifier)); },
        };
        let message = match payload.message {
            Some(s) => s,
            None => { return Err(ValidationError::Missing(Field::Message)); },
        };
        if message.as_str().is_empty() {
            return Err(ValidationError::Empty(Field::Message));
        }
        let phone_number = match payload.phone_number {
            Some(s) => s,
            None => { return Err(ValidationError::Missing(Field::PhoneNumber)); },
        };
        let campaign_id = match payload.campaign_id {
            Some(s) => s,
            None => { return Err(ValidationError::Missing(Field::CampaignId)); },
        };
        Ok(
            Message {
                identifier,
                message,
                phone_number,
                campaign_id,
                created_at: now,
                updated_at: now,
                deleted: false,
            },
        )
    }

    /// Parses the `data` object of a delivery into a message stamped with the
    /// current time. Consults no store.
    pub fn build(data: serde_json::Value) -> (r: Result<Message, ValidationError>)
        ensures
            r matches Ok(m) ==> Message::parse(Payload::of(data), m.created_at) == Ok::<
                MessageView,
                ValidationError,
            >(m@) && m.created_at.well_formed(),
            r matches Err(e) ==> Payload::of(data).defect() == Some(e),
    {
        let payload = Payload::read(&data);
        Message::from_payload(payload, now())
    }

}

impl Clone for Message {
    fn clone(&self) -> (r: Message)
        ensures
            r@ == self@,
    {
        Message {
            identifier: self.identifier.clone(),
            message: self.message.clone(),
            phone_number: self.phone_number.clone(),
            campaign_id: self.campaign_id.clone(),
            created_at: self.created_at,
            updated_at: self.updated_at,
            deleted: self.deleted,
        }
    }
}

fn clone_text(text: &Option<String>) -> (r: Option<String>)
    ensures
        text_of(r) == text_of(*text),
{
    match text {
        Some(t) => Some(t.clone()),
        None => None,
    }
}

impl Clone for Payload {
    fn clone(&self) -> (r: Payload)
        ensures
            r@ == self@,
    {
        Payload {
            identifier: clone_text(&self.identifier),
            message: clone_text(&self.message),
            phone_number: clone_text(&self.phone_number),
            campaign_id: clone_text(&self.campaign_id),
            total: self.total,
        }
    }
}

} // verus!
