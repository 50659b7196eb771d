use vstd::prelude::*;
use crate::models::email_request;

verus! {

/// Whether lettre's mailbox parser accepts `s` as a single recipient address.
/// The grammar is lettre's; only acceptance is named here.
pub uninterp spec fn is_valid_address(s: Seq<char>) -> bool;

#[verifier::external_type_specification]
#[verifier::external_body]
pub struct ExMailbox(lettre::message::Mailbox);

#[verifier::external_type_specification]
#[verifier::external_body]
pub struct ExMessage(lettre::Message);

#[verifier::external_type_specification]
#[verifier::external_body]
pub struct ExAddressError(lettre::address::AddressError);

#[verifier::external_type_specification]
#[verifier::external_body]
pub struct ExEmailError(lettre::error::Error);

/// A mailbox that lettre's parser produced, together with the text it was
/// parsed from. The fields are private: the only way to obtain one is through
/// the parser, so every value of this type is free of the control characters
/// that a hand-built `Mailbox` could smuggle into a display name.
pub struct ParsedMailbox {
    inner: lettre::message::Mailbox,
    address: Ghost<Seq<char>>,
}

impl ParsedMailbox {
    /// The text this mailbox was parsed from.
    pub closed spec fn address(self) -> Seq<char> {
        self.address@
    }
}

/// A transport-level message ready for submission, together with what it was
/// built from: the sender and recipient address texts, the subject and the
/// HTML body. The transport reads `message`; contracts speak of the rest.
pub struct OutboundMessage {
    pub message: lettre::Message,
    sender: Ghost<Seq<char>>,
    recipient: Ghost<Seq<char>>,
    subject: Ghost<Seq<char>>,
    body: Ghost<Seq<char>>,
}

impl OutboundMessage {
    /// The address text of the fixed sender identity the message was built with.
    pub closed spec fn sender(self) -> Seq<char> {
        self.sender@
    }

    /// The address text the recipient mailbox was parsed from.
    pub closed spec fn recipient(self) -> Seq<char> {
        self.recipient@
    }

    /// The subject line the message was built with.
    pub closed spec fn subject(self) -> Seq<char> {
        self.subject@
    }

    /// The HTML body the message was built with.
    pub closed spec fn body(self) -> Seq<char> {
        self.body@
    }
}

/// Relies on lettre's `Mailbox` parser (`impl FromStr for Mailbox`): whether a
/// string parses as a mailbox depends on the string alone.
#[verifier::external_body]
fn parse_mailbox(s: &str) -> (r: Result<lettre::message::Mailbox, lettre::address::AddressError>)
    ensures
        r is Ok <==> is_valid_address(s@),
{
    s.parse()
}

/// Relies on lettre's `MessageBuilder`: with exactly one `From` mailbox and a
/// `To` mailbox set, `singlepart` always returns a message (its only failure
/// paths are a missing or plural originator and an empty recipient list), and
/// writing the two headers cannot fail, because a parsed mailbox's display
/// name admits no carriage return or line feed.
#[verifier::external_body]
fn build_message(from: &ParsedMailbox, to: ParsedMailbox, subject: &str, body: String) -> (r:
    Result<lettre::Message, lettre::error::Error>)
    ensures
        r is Ok,
{
    lettre::Message::builder().from(from.inner.clone()).to(to.inner).subject(subject).singlepart(
        lettre::message::SinglePart::builder().header(
            lettre::message::header::ContentType::TEXT_HTML,
        ).body(body),
    )
}

/// Why a transport-level message could not be constructed for one item.
#[derive(Debug, Clone, PartialEq, Eq)]
pub enum BuildError {
    /// The recipient address does not parse as a mailbox.
    InvalidAddress,
}

/// Parse a configured mailbox address (the process-wide sender identity).
pub fn parse_sender(s: &str) -> (r: Result<ParsedMailbox, BuildError>)
    ensures
        r is Ok <==> is_valid_address(s@),
        r matches Ok(m) ==> m.address() == s@,
        r is Err ==> r == Err::<ParsedMailbox, BuildError>(BuildError::InvalidAddress),
{
    match parse_mailbox(s) {
        Ok(inner) => Ok(ParsedMailbox { inner, address: Ghost(s@) }),
        Err(_) => Err(BuildError::InvalidAddress),
    }
}

/// Construct the transport-level message for one batch item: sender is the
/// fixed sender identity, recipient is the item's `to_email`, subject and
/// single HTML body part are taken from the item. Construction succeeds
/// exactly when the recipient address is valid.
pub fn prepare_message(from: &ParsedMailbox, req: &email_request) -> (r: Result<
    OutboundMessage,
    BuildError,
>)
    ensures
        r is Ok <==> is_valid_address(req.to_email@),
        r matches Ok(m) ==> {
            &&& m.sender() == from.address()
            &&& m.recipient() == req.to_email@
            &&& m.subject() == req.subject@
            &&& m.body() == req.body@
        },
        r is Err ==> r == Err::<OutboundMessage, BuildError>(BuildError::InvalidAddress),
{
    match parse_mailbox(req.to_email.as_str()) {
        Ok(inner) => match build_message(
            from,
            ParsedMailbox { inner, address: Ghost(req.to_email@) },
            req.subject.as_str(),
            req.body.clone(),
        ) {
            Ok(message) => Ok(
                OutboundMessage {
                    message,
                    sender: Ghost(from.address()),
                    recipient: Ghost(req.to_email@),
                    subject: Ghost(req.subject@),
                    body: Ghost(req.body@),
                },
            ),
            Err(_) => Err(BuildError::InvalidAddress),
        },
        Err(_) => Err(BuildError::InvalidAddress),
    }
}

} // verus!
