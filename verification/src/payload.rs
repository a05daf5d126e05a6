//! Reading a queue payload: UTF-8 text that holds one JSON object, of which
//! the four members `from`, `to`, `subject` and `body` are looked up.

use vstd::prelude::*;
use vstd::utf8::*;

verus! {

/// One of the four keys of an email-send request.
#[derive(Clone, Copy, Debug, PartialEq, Eq, Structural)]
pub enum Field {
    From,
    To,
    Subject,
    Body,
}

impl Field {
    /// The key under which the field stands in a payload.
    pub open spec fn key_spec(self) -> Seq<char> {
        match self {
            Field::From => "from"@,
            Field::To => "to"@,
            Field::Subject => "subject"@,
            Field::Body => "body"@,
        }
    }

    /// The key under which the field stands in a payload.
    pub fn key(self) -> (name: &'static str)
        ensures
            name@ == self.key_spec(),
    {
        match self {
            Field::From => "from",
            Field::To => "to",
            Field::Subject => "subject",
            Field::Body => "body",
        }
    }
}

/// What a payload holds under one key.
#[derive(Debug)]
pub enum Member {
    /// The object has no such key.
    Absent,
    /// The key is there, with a value that is not a string.
    Other,
    /// The key is there, with this string as its value.
    Text(String),
}

/// A `Member` with its text as a sequence of characters.
pub enum MemberView {
    Absent,
    Other,
    Text(Seq<char>),
}

impl View for Member {
    type V = MemberView;

    open spec fn view(&self) -> MemberView {
        match self {
            Member::Absent => MemberView::Absent,
            Member::Other => MemberView::Other,
            Member::Text(text) => MemberView::Text(text@),
        }
    }
}

/// What a payload holds under the four keys of a request.
#[derive(Debug)]
pub struct Reading {
    pub from: Member,
    pub to: Member,
    pub subject: Member,
    pub body: Member,
}

/// A `Reading` with its texts as sequences of characters.
pub struct ReadingView {
    pub from: MemberView,
    pub to: MemberView,
    pub subject: MemberView,
    pub body: MemberView,
}

impl View for Reading {
    type V = ReadingView;

    open spec fn view(&self) -> ReadingView {
        ReadingView { from: self.from@, to: self.to@, subject: self.subject@, body: self.body@ }
    }
}

impl ReadingView {
    /// The member that stands under the key of `field`.
    pub open spec fn member(self, field: Field) -> MemberView {
        match field {
            Field::From => self.from,
            Field::To => self.to,
            Field::Subject => self.subject,
            Field::Body => self.body,
        }
    }
}

/// `json::object::Object`, the keys and values of one JSON object, held as
/// the `json` crate made it.
#[verifier::external_type_specification]
#[verifier::external_body]
pub struct ExObject(json::object::Object);

/// The members of a JSON object: each key it holds, with the value's text
/// where the value is a string and `None` where it is anything else.
pub uninterp spec fn object_members(object: json::object::Object) -> Map<Seq<char>, Option<Seq<char>>>;

/// What `json::parse` makes of a text: the members of the object it reads,
/// or `None` where it reports an error or reads a value that is no object.
pub uninterp spec fn json_object(text: Seq<char>) -> Option<Map<Seq<char>, Option<Seq<char>>>>;

/// Decodes bytes with `std::str::from_utf8`, which accepts exactly the
/// well-formed UTF-8 sequences and returns a string slice over the same
/// bytes: the text whose encoding they are.
#[verifier::external_body]
fn utf8_text(bytes: &[u8]) -> (text: Option<&str>)
    ensures
        text is Some <==> valid_utf8(bytes@),
        text matches Some(t) ==> encode_utf8(t@) == bytes@,
{
    std::str::from_utf8(bytes).ok()
}

/// Parses a text with `json::parse` and keeps the result where it is an
/// object. The parser reads nothing but the text, so the members of that
/// object are `json_object` of the text.
///
/// The parser counts the digits of a fraction down in a 16-bit exponent,
/// one step for each digit while the number read so far is small, and a
/// number that is zero stays small. A fraction of more than 32,768 digits
/// can so overstep the exponent, which stops the program where overflow is
/// checked. Texts with a long run of the digit zero outside their string
/// literals are therefore kept from the parser. A string literal it reads
/// byte by byte without counting, so zeros in one do no harm; and it is in
/// a literal exactly where `in_literal` says so, as long as it has found
/// no error.
#[verifier::external_body]
fn parse_object(text: &str) -> (parsed: Option<json::object::Object>)
    requires
        zero_runs_bounded_spec(encode_utf8(text@)),
    ensures
        match parsed {
            Some(object) => json_object(text@) == Some(object_members(object)),
            None => json_object(text@) is None,
        },
{
    match json::parse(text) {
        Ok(json::JsonValue::Object(object)) => Some(object),
        _ => None,
    }
}

/// Looks a key up with `json::object::Object::get` and hands the value out
/// as a `Member`: its text where `JsonValue::as_str` gives one.
#[verifier::external_body]
fn object_member(object: &json::object::Object, key: &str) -> (member: Member)
    ensures
        member@ == member_of(object_members(*object), key@),
{
    match object.get(key) {
        None => Member::Absent,
        Some(value) => match value.as_str() {
            Some(text) => Member::Text(text.to_owned()),
            None => Member::Other,
        },
    }
}

/// The digit zero as a byte of the payload.
pub const ZERO_DIGIT: u8 = 0x30;

/// The double quote, which opens and closes a string literal.
pub const QUOTE: u8 = 0x22;

/// The backslash, which inside a string literal takes the next byte with it.
pub const BACKSLASH: u8 = 0x5c;

/// The longest run of the digit zero that a payload may hold outside its
/// string literals. It stays well below the 32,768 steps that the JSON
/// parser's exponent can take: after a run of zeros a number takes at most
/// twenty more.
pub const ZERO_RUN_LIMIT: usize = 32000;

/// Where a scan of a payload stands with respect to its string literals.
#[derive(Clone, Copy, Debug, PartialEq, Eq, Structural)]
pub enum Scan {
    /// Not in a string literal.
    Outside,
    /// In a string literal.
    Inside,
    /// In a string literal, right after a backslash.
    Escaped,
}

/// Where the scan stands after one more byte. A quote opens a literal, and
/// closes it unless a backslash stands before it; a backslash in a literal
/// takes the next byte with it, whatever that is.
pub open spec fn scan_step(state: Scan, byte: u8) -> Scan {
    match state {
        Scan::Outside => if byte == QUOTE {
            Scan::Inside
        } else {
            Scan::Outside
        },
        Scan::Inside => if byte == QUOTE {
            Scan::Outside
        } else if byte == BACKSLASH {
            Scan::Escaped
        } else {
            Scan::Inside
        },
        Scan::Escaped => Scan::Inside,
    }
}

/// Where the scan stands before the byte at position `pos`.
pub open spec fn scan_before(bytes: Seq<u8>, pos: int) -> Scan
    decreases pos,
{
    if pos <= 0 || pos > bytes.len() {
        Scan::Outside
    } else {
        scan_step(scan_before(bytes, pos - 1), bytes[pos - 1])
    }
}

/// Whether the byte at position `pos` lies in a string literal. The quote
/// that opens a literal lies outside it, the one that closes it inside.
pub open spec fn in_literal(bytes: Seq<u8>, pos: int) -> bool {
    !(scan_before(bytes, pos) is Outside)
}

/// The length of the run of zeros outside string literals that ends just
/// before position `end`.
pub open spec fn zero_run_before(bytes: Seq<u8>, end: int) -> nat
    decreases end,
{
    if end <= 0 || end > bytes.len() || bytes[end - 1] != ZERO_DIGIT || in_literal(
        bytes,
        end - 1,
    ) {
        0
    } else {
        1 + zero_run_before(bytes, end - 1)
    }
}

/// Whether no run of zeros outside the string literals of a payload is
/// longer than `ZERO_RUN_LIMIT`. Zeros in a literal do not count.
pub open spec fn zero_runs_bounded_spec(bytes: Seq<u8>) -> bool {
    forall|end: int|
        0 <= end <= bytes.len() ==> #[trigger] zero_run_before(bytes, end) <= ZERO_RUN_LIMIT
}

fn scan_next(state: Scan, byte: u8) -> (next: Scan)
    ensures
        next == scan_step(state, byte),
{
    match state {
        Scan::Outside => if byte == QUOTE {
            Scan::Inside
        } else {
            Scan::Outside
        },
        Scan::Inside => if byte == QUOTE {
            Scan::Outside
        } else if byte == BACKSLASH {
            Scan::Escaped
        } else {
            Scan::Inside
        },
        Scan::Escaped => Scan::Inside,
    }
}

/// Whether no run of zeros outside the string literals of a payload is
/// longer than `ZERO_RUN_LIMIT`.
pub fn zero_runs_bounded(bytes: &[u8]) -> (bounded: bool)
    ensures
        bounded == zero_runs_bounded_spec(bytes@),
{
    let mut state = Scan::Outside;
    let mut run: usize = 0;
    let mut i: usize = 0;
    while i < bytes.len()
        invariant
            i <= bytes.len(),
            state == scan_before(bytes@, i as int),
            run == zero_run_before(bytes@, i as int),
            forall|end: int|
                0 <= end <= i ==> #[trigger] zero_run_before(bytes@, end) <= ZERO_RUN_LIMIT,
        decreases bytes.len() - i,
    {
        let byte = bytes[i];
        let outside = match state {
            Scan::Outside => true,
            _ => false,
        };
        if byte == ZERO_DIGIT && outside {
            run = run + 1;
        } else {
            run = 0;
        }
        state = scan_next(state, byte);
        i = i + 1;
        assert(state == scan_before(bytes@, i as int));
        assert(run == zero_run_before(bytes@, i as int));
        if run > ZERO_RUN_LIMIT {
            return false;
        }
    }
    true
}

/// Zeros in string literals do not count: a payload that holds the digit
/// zero in its literals only passes, however many there are.
pub proof fn lemma_zeros_in_literals_pass(bytes: Seq<u8>)
    requires
        forall|pos: int|
            0 <= pos < bytes.len() && bytes[pos] == ZERO_DIGIT ==> #[trigger] in_literal(
                bytes,
                pos,
            ),
    ensures
        zero_runs_bounded_spec(bytes),
{
    assert forall|end: int| 0 <= end <= bytes.len() implies #[trigger] zero_run_before(bytes, end)
        == 0 by {
        if end > 0 && bytes[end - 1] == ZERO_DIGIT {
            assert(in_literal(bytes, end - 1));
        }
    }
}

/// A run of zeros is no longer than the payload: one of at most
/// `ZERO_RUN_LIMIT` bytes passes.
pub proof fn lemma_short_payload_passes(bytes: Seq<u8>)
    requires
        bytes.len() <= ZERO_RUN_LIMIT,
    ensures
        zero_runs_bounded_spec(bytes),
{
    assert forall|end: int| 0 <= end <= bytes.len() implies #[trigger] zero_run_before(bytes, end)
        <= ZERO_RUN_LIMIT by {
        lemma_zero_run_within(bytes, end);
    }
}

proof fn lemma_zero_run_within(bytes: Seq<u8>, end: int)
    requires
        0 <= end <= bytes.len(),
    ensures
        zero_run_before(bytes, end) <= end,
    decreases end,
{
    if end > 0 {
        lemma_zero_run_within(bytes, end - 1);
    }
}

/// What a set of members holds under `key`.
pub open spec fn member_of(members: Map<Seq<char>, Option<Seq<char>>>, key: Seq<char>) -> MemberView {
    if !members.contains_key(key) {
        MemberView::Absent
    } else {
        match members[key] {
            Some(text) => MemberView::Text(text),
            None => MemberView::Other,
        }
    }
}

/// What a set of members holds under the four keys of a request.
pub open spec fn reading_of_members(members: Map<Seq<char>, Option<Seq<char>>>) -> ReadingView {
    ReadingView {
        from: member_of(members, Field::From.key_spec()),
        to: member_of(members, Field::To.key_spec()),
        subject: member_of(members, Field::Subject.key_spec()),
        body: member_of(members, Field::Body.key_spec()),
    }
}

/// The reading of a payload: `None` unless the bytes are UTF-8 text that
/// holds a JSON object and, outside its string literals, no overlong run of
/// zeros.
pub open spec fn reading_of(bytes: Seq<u8>) -> Option<ReadingView> {
    if !valid_utf8(bytes) || !zero_runs_bounded_spec(bytes) {
        None
    } else {
        match json_object(decode_utf8(bytes)) {
            None => None,
            Some(members) => Some(reading_of_members(members)),
        }
    }
}

/// Reads a payload. Gives `None` where the bytes are not UTF-8, hold a run
/// of more than `ZERO_RUN_LIMIT` zeros outside their string literals or do
/// not hold a JSON object, and else what the object holds under the four
/// keys.
pub fn read(bytes: &[u8]) -> (reading: Option<Reading>)
    ensures
        match reading {
            Some(r) => reading_of(bytes@) == Some(r@),
            None => reading_of(bytes@) is None,
        },
{
    let text = match utf8_text(bytes) {
        Some(text) => text,
        None => return None,
    };
    proof {
        encode_utf8_decode_utf8(text@);
    }
    if !zero_runs_bounded(bytes) {
        return None;
    }
    let object = match parse_object(text) {
        Some(object) => object,
        None => return None,
    };
    let from = object_member(&object, Field::From.key());
    let to = object_member(&object, Field::To.key());
    let subject = object_member(&object, Field::Subject.key());
    let body = object_member(&object, Field::Body.key());
    Some(Reading { from, to, subject, body })
}

} // verus!
