//! The email-send request and the parser that reads it from a payload.

use vstd::prelude::*;
use vstd::utf8::{decode_utf8, valid_utf8};

use crate::address::{is_valid_address, valid_address};
use crate::payload::{
    json_object, read, reading_of, zero_runs_bounded_spec, Field, Member, MemberView, Reading,
    ReadingView,
};

verus! {

/// Why a payload is no email-send request.
#[derive(Clone, Copy, Debug, PartialEq, Eq, Structural)]
pub enum ParseError {
    /// The payload is not a UTF-8 encoded JSON object, holds a number with
    /// a run of zeros too long for the JSON parser, or its subject or body
    /// is not a string.
    Malformed,
    /// The object lacks this key.
    MissingField(Field),
    /// What stands under this key is not a valid mailbox address.
    InvalidAddress(Field),
}

/// The four texts of a request, as sequences of characters.
pub struct RequestView {
    pub from: Seq<char>,
    pub to: Seq<char>,
    pub subject: Seq<char>,
    pub body: Seq<char>,
}

/// The four texts of a payload that holds a string under every key and
/// whose addresses were accepted.
#[derive(Debug)]
pub struct Draft {
    pub from: String,
    pub to: String,
    pub subject: String,
    pub body: String,
}

impl View for Draft {
    type V = RequestView;

    open spec fn view(&self) -> RequestView {
        RequestView { from: self.from@, to: self.to@, subject: self.subject@, body: self.body@ }
    }
}

/// A request to send one HTML email. Both addresses of a request are valid
/// mailbox addresses; subject and body are any text.
#[derive(Debug)]
pub struct EmailRequest {
    from: String,
    to: String,
    subject: String,
    body: String,
}

impl View for EmailRequest {
    type V = RequestView;

    closed spec fn view(&self) -> RequestView {
        RequestView { from: self.from@, to: self.to@, subject: self.subject@, body: self.body@ }
    }
}

impl EmailRequest {
    #[verifier::type_invariant]
    spec fn addresses_valid(self) -> bool {
        valid_address(self.from@) && valid_address(self.to@)
    }

    /// The sender's mailbox, as it stood in the payload.
    pub fn sender(&self) -> (text: &str)
        ensures
            text@ == self@.from,
            valid_address(text@),
    {
        proof {
            use_type_invariant(self);
        }
        self.from.as_str()
    }

    /// The recipient's mailbox, as it stood in the payload.
    pub fn recipient(&self) -> (text: &str)
        ensures
            text@ == self@.to,
            valid_address(text@),
    {
        proof {
            use_type_invariant(self);
        }
        self.to.as_str()
    }

    /// The subject line.
    pub fn subject(&self) -> (text: &str)
        ensures
            text@ == self@.subject,
    {
        self.subject.as_str()
    }

    /// The HTML body.
    pub fn body(&self) -> (text: &str)
        ensures
            text@ == self@.body,
    {
        self.body.as_str()
    }
}

/// Whether a member holds a valid mailbox address.
pub open spec fn holds_address(member: MemberView) -> bool {
    member matches MemberView::Text(text) && valid_address(text)
}

/// The verdict on a reading, given for each address whether it is valid.
///
/// A key that is absent is reported first, in the order from, to, subject,
/// body. Then each address must be a string and valid, the sender's first.
/// Last, subject and body must be strings.
pub open spec fn assess_spec(reading: ReadingView, from_ok: bool, to_ok: bool) -> Result<
    RequestView,
    ParseError,
> {
    if reading.from is Absent {
        Err(ParseError::MissingField(Field::From))
    } else if reading.to is Absent {
        Err(ParseError::MissingField(Field::To))
    } else if reading.subject is Absent {
        Err(ParseError::MissingField(Field::Subject))
    } else if reading.body is Absent {
        Err(ParseError::MissingField(Field::Body))
    } else if !(reading.from is Text && from_ok) {
        Err(ParseError::InvalidAddress(Field::From))
    } else if !(reading.to is Text && to_ok) {
        Err(ParseError::InvalidAddress(Field::To))
    } else if !(reading.subject is Text && reading.body is Text) {
        Err(ParseError::Malformed)
    } else {
        Ok(
            RequestView {
                from: reading.from->Text_0,
                to: reading.to->Text_0,
                subject: reading.subject->Text_0,
                body: reading.body->Text_0,
            },
        )
    }
}

/// What a payload parses to.
pub open spec fn parse_spec(bytes: Seq<u8>) -> Result<RequestView, ParseError> {
    match reading_of(bytes) {
        None => Err(ParseError::Malformed),
        Some(reading) => assess_spec(
            reading,
            holds_address(reading.from),
            holds_address(reading.to),
        ),
    }
}

/// Judges a reading, given for each address whether it is valid, and hands
/// out the four texts where nothing is wrong.
pub fn assess(reading: Reading, from_ok: bool, to_ok: bool) -> (verdict: Result<Draft, ParseError>)
    ensures
        match verdict {
            Ok(draft) => assess_spec(reading@, from_ok, to_ok) == Ok::<RequestView, ParseError>(
                draft@,
            ),
            Err(error) => assess_spec(reading@, from_ok, to_ok) == Err::<RequestView, ParseError>(
                error,
            ),
        },
{
    let Reading { from, to, subject, body } = reading;
    if is_absent(&from) {
        return Err(ParseError::MissingField(Field::From));
    }
    if is_absent(&to) {
        return Err(ParseError::MissingField(Field::To));
    }
    if is_absent(&subject) {
        return Err(ParseError::MissingField(Field::Subject));
    }
    if is_absent(&body) {
        return Err(ParseError::MissingField(Field::Body));
    }
    let from = match from {
        Member::Text(text) => text,
        _ => return Err(ParseError::InvalidAddress(Field::From)),
    };
    if !from_ok {
        return Err(ParseError::InvalidAddress(Field::From));
    }
    let to = match to {
        Member::Text(text) => text,
        _ => return Err(ParseError::InvalidAddress(Field::To)),
    };
    if !to_ok {
        return Err(ParseError::InvalidAddress(Field::To));
    }
    let subject = match subject {
        Member::Text(text) => text,
        _ => return Err(ParseError::Malformed),
    };
    let body = match body {
        Member::Text(text) => text,
        _ => return Err(ParseError::Malformed),
    };
    Ok(Draft { from, to, subject, body })
}

fn is_absent(member: &Member) -> (absent: bool)
    ensures
        absent == (member@ is Absent),
{
    match member {
        Member::Absent => true,
        _ => false,
    }
}

fn address_check(member: &Member) -> (ok: bool)
    ensures
        ok == holds_address(member@),
{
    match member {
        Member::Text(text) => is_valid_address(text.as_str()),
        _ => false,
    }
}

/// Parses a payload into a request.
///
/// Fails with `Malformed` where the bytes are not a UTF-8 encoded JSON
/// object or hold a run of more than 32,000 zeros outside any string
/// literal, with `MissingField` where a key is absent, with `InvalidAddress`
/// where an address is not a valid mailbox, and with `Malformed` again where
/// subject or body is not a string. The four texts of a request are those of
/// the payload, unchanged, whatever they hold.
pub fn parse(bytes: &[u8]) -> (parsed: Result<EmailRequest, ParseError>)
    ensures
        match parsed {
            Ok(request) => parse_spec(bytes@) == Ok::<RequestView, ParseError>(request@),
            Err(error) => parse_spec(bytes@) == Err::<RequestView, ParseError>(error),
        },
{
    let reading = match read(bytes) {
        Some(reading) => reading,
        None => return Err(ParseError::Malformed),
    };
    let from_ok = address_check(&reading.from);
    let to_ok = address_check(&reading.to);
    match assess(reading, from_ok, to_ok) {
        Ok(draft) => Ok(
            EmailRequest {
                from: draft.from,
                to: draft.to,
                subject: draft.subject,
                body: draft.body,
            },
        ),
        Err(error) => Err(error),
    }
}

/// The reading of a payload that holds the four texts of `request`, each as
/// a string under its key.
pub open spec fn reading_with(request: RequestView) -> ReadingView {
    ReadingView {
        from: MemberView::Text(request.from),
        to: MemberView::Text(request.to),
        subject: MemberView::Text(request.subject),
        body: MemberView::Text(request.body),
    }
}

/// A payload parses exactly when it holds a string under each of the four
/// keys and those under `from` and `to` are valid addresses. The request
/// then has the four strings as they stand in the payload.
pub proof fn lemma_parses_iff_well_formed(bytes: Seq<u8>, request: RequestView)
    ensures
        parse_spec(bytes) == Ok::<RequestView, ParseError>(request) <==> {
            &&& reading_of(bytes) == Some(reading_with(request))
            &&& valid_address(request.from)
            &&& valid_address(request.to)
        },
{
    if parse_spec(bytes) == Ok::<RequestView, ParseError>(request) {
        let reading = reading_of(bytes)->Some_0;
        assert(reading == reading_with(request));
    }
}

/// A payload that lacks a key fails with `MissingField`, and the key that
/// the error names is one that the payload lacks: the first of them in the
/// order from, to, subject, body. Where `field` is the only key missing, it
/// is the one named.
pub proof fn lemma_missing_field_is_named(bytes: Seq<u8>, reading: ReadingView, field: Field)
    requires
        reading_of(bytes) == Some(reading),
        reading.member(field) is Absent,
    ensures
        parse_spec(bytes) matches Err(ParseError::MissingField(named)) && {
            &&& reading.member(named) is Absent
            &&& (forall|other: Field| reading.member(other) is Absent ==> other == field) ==> named
                == field
        },
{
    let named = parse_spec(bytes)->Err_0->MissingField_0;
    assert(reading.member(named) is Absent);
}

/// A payload that holds all four keys and under `from` or `to` something
/// that is no valid address fails with `InvalidAddress`. The field that the
/// error names is the sender's where that one is at fault, and else the
/// recipient's.
pub proof fn lemma_invalid_address_is_named(bytes: Seq<u8>, reading: ReadingView)
    requires
        reading_of(bytes) == Some(reading),
        forall|field: Field| !(reading.member(field) is Absent),
        !holds_address(reading.from) || !holds_address(reading.to),
    ensures
        parse_spec(bytes) == Err::<RequestView, ParseError>(
            ParseError::InvalidAddress(
                if !holds_address(reading.from) {
                    Field::From
                } else {
                    Field::To
                },
            ),
        ),
{
    assert(!(reading.member(Field::From) is Absent));
    assert(!(reading.member(Field::To) is Absent));
    assert(!(reading.member(Field::Subject) is Absent));
    assert(!(reading.member(Field::Body) is Absent));
}

/// A payload is malformed exactly when it is not UTF-8, when it holds an
/// overlong run of zeros outside its string literals, when its text holds
/// no JSON object, or when it holds all four keys and valid addresses, but
/// something other than a string as its subject or body.
pub proof fn lemma_malformed_iff(bytes: Seq<u8>)
    ensures
        parse_spec(bytes) == Err::<RequestView, ParseError>(ParseError::Malformed) <==> {
            ||| !valid_utf8(bytes)
            ||| !zero_runs_bounded_spec(bytes)
            ||| json_object(decode_utf8(bytes)) is None
            ||| {
                let reading = reading_of(bytes)->Some_0;
                &&& forall|field: Field| !(reading.member(field) is Absent)
                &&& holds_address(reading.from)
                &&& holds_address(reading.to)
                &&& !(reading.subject is Text && reading.body is Text)
            }
        },
{
    if reading_of(bytes) is Some {
        let reading = reading_of(bytes)->Some_0;
        assert(reading.member(Field::From) == reading.from);
        assert(reading.member(Field::To) == reading.to);
        assert(reading.member(Field::Subject) == reading.subject);
        assert(reading.member(Field::Body) == reading.body);
        if !(reading.from is Absent) && !(reading.to is Absent) && !(reading.subject is Absent)
            && !(reading.body is Absent) {
            assert forall|field: Field| !(reading.member(field) is Absent) by {}
        }
    }
}

} // verus!
