//! Putting tickets on the queue and taking them off again: the text form of a
//! payload, the answers of the queue service, and the once-only completion of
//! a received message.
use vstd::prelude::*;
use crate::errors::shop_error::CoffeeShopError;
use crate::json::{push_str_debug, str_debug_text};
use crate::text::{decimal, digit_char, push_str};
use crate::time::{Duration, span_nanos};

verus! {

/// The size limit, in bytes, of a value in a queue message.
pub const SIZE_LIMIT: usize = 262144;

/// The length of the unpadded Base64 text of `n` bytes: four characters for
/// each whole group of three bytes, and two or three for a last partial group.
pub open spec fn encoded_len(n: nat) -> nat {
    (n / 3) * 4 + if n % 3 == 0 {
        0nat
    } else if n % 3 == 1 {
        2nat
    } else {
        3nat
    }
}

/// The character of a six-bit value in the standard Base64 alphabet: `A` to
/// `Z`, `a` to `z`, `0` to `9`, then `+` and `/`.
pub open spec fn base64_char(v: nat) -> char {
    if v < 26 {
        (65 + v) as char
    } else if v < 52 {
        (97 + (v - 26)) as char
    } else if v < 62 {
        (48 + (v - 52)) as char
    } else if v == 62 {
        '+'
    } else {
        '/'
    }
}

/// The unpadded Base64 text, in the standard alphabet, of the given bytes:
/// each group of three bytes is four characters of six bits each, the most
/// significant bits first; a last group of one or two bytes is two or three
/// characters, its missing bits taken as zero.
pub open spec fn base64_encoded(d: Seq<u8>) -> Seq<char>
    decreases d.len(),
{
    if d.len() == 0 {
        Seq::empty()
    } else if d.len() == 1 {
        seq![base64_char(d[0] as nat / 4), base64_char((d[0] as nat % 4) * 16)]
    } else if d.len() == 2 {
        seq![
            base64_char(d[0] as nat / 4),
            base64_char((d[0] as nat % 4) * 16 + d[1] as nat / 16),
            base64_char((d[1] as nat % 16) * 4),
        ]
    } else {
        seq![
            base64_char(d[0] as nat / 4),
            base64_char((d[0] as nat % 4) * 16 + d[1] as nat / 16),
            base64_char((d[1] as nat % 16) * 4 + d[2] as nat / 64),
            base64_char(d[2] as nat % 64),
        ] + base64_encoded(d.subrange(3, d.len() as int))
    }
}

/// The Base64 text of `n` bytes has [`encoded_len`] characters.
pub proof fn lemma_encoded_len(d: Seq<u8>)
    ensures
        base64_encoded(d).len() == encoded_len(d.len()),
    decreases d.len(),
{
    if d.len() >= 3 {
        lemma_encoded_len(d.subrange(3, d.len() as int));
    }
}

/// What decoding the given text as unpadded standard Base64 gives: the bytes,
/// or the display text of the decoding error.
pub uninterp spec fn base64_decoded(text: Seq<char>) -> Result<Seq<u8>, Seq<char>>;

/// Whether decoding `text` gives the bytes `data`.
pub open spec fn decodes_to(text: Seq<char>, data: Seq<u8>) -> bool {
    base64_decoded(text) == Ok::<Seq<u8>, Seq<char>>(data)
}

/// Encodes bytes with `base64`'s `STANDARD_NO_PAD` engine (`Engine::encode`).
/// The contract claims that the text is the unpadded standard Base64 of the
/// bytes, as [`base64_encoded`] spells it out, and that the same engine decodes
/// it back to the bytes. The crate panics where the text's length overflows
/// `usize`, which `requires` leaves out.
#[verifier::external_body]
fn base64_encode(data: &[u8]) -> (r: String)
    requires
        encoded_len(data@.len()) <= usize::MAX,
    ensures
        r@ == base64_encoded(data@),
        decodes_to(r@, data@),
{
    base64::Engine::encode(&base64::engine::general_purpose::STANDARD_NO_PAD, data)
}

/// Decodes text with `base64`'s `STANDARD_NO_PAD` engine (`Engine::decode`),
/// keeping the display text of a `DecodeError`. The contract says that the
/// outcome is the named decoding of the text.
#[verifier::external_body]
fn base64_decode(data: &str) -> (r: Result<Vec<u8>, String>)
    ensures
        r matches Ok(v) ==> (base64_decoded(data@) matches Ok(b) && b == v@),
        r matches Err(m) ==> (base64_decoded(data@) matches Err(e) && e == m@),
{
    match base64::Engine::decode(&base64::engine::general_purpose::STANDARD_NO_PAD, data) {
        Ok(v) => Ok(v),
        Err(e) => Err(e.to_string()),
    }
}

/// Encodes a payload as the unpadded Base64 text of a queue message. A text
/// longer than [`SIZE_LIMIT`] is refused with its length; any other is the
/// text, which decodes back to the payload.
pub fn encode(data: &[u8]) -> (r: Result<String, CoffeeShopError>)
    requires
        encoded_len(data@.len()) <= usize::MAX,
    ensures
        encoded_len(data@.len()) <= SIZE_LIMIT ==> (r matches Ok(s) && s@ == base64_encoded(data@)
            && decodes_to(s@, data@)),
        encoded_len(data@.len()) > SIZE_LIMIT ==> (r matches Err(CoffeeShopError::Base64EncodingOversize(n))
            && n == encoded_len(data@.len())),
{
    let result = base64_encode(data);
    proof {
        lemma_encoded_len(data@);
    }
    let n = result.unicode_len();
    if n > SIZE_LIMIT {
        Err(CoffeeShopError::Base64EncodingOversize(n))
    } else {
        Ok(result)
    }
}

/// The error that a failed decoding of a queue message becomes.
pub fn decoding_outcome(raw: Result<Vec<u8>, String>) -> (r: Result<Vec<u8>, CoffeeShopError>)
    ensures
        match raw {
            Ok(v) => r matches Ok(w) && w@ == v@,
            Err(m) => r matches Err(CoffeeShopError::Base64DecodingError(t)) && t@ == m@,
        },
{
    match raw {
        Ok(v) => Ok(v),
        Err(m) => Err(CoffeeShopError::Base64DecodingError(m)),
    }
}

/// Decodes the unpadded Base64 text of a queue message into its payload.
pub fn decode(data: &str) -> (r: Result<Vec<u8>, CoffeeShopError>)
    ensures
        match base64_decoded(data@) {
            Ok(b) => r matches Ok(v) && v@ == b,
            Err(m) => r matches Err(CoffeeShopError::Base64DecodingError(t)) && t@ == m,
        },
{
    decoding_outcome(base64_decode(data))
}

/// Why a text is not a count, as the standard library's integer parsing tells
/// the cases apart.
#[derive(Clone, Copy, Debug, PartialEq, Eq, Structural)]
pub enum ParseFailure {
    Empty,
    InvalidDigit,
    PosOverflow,
}

impl ParseFailure {
    /// The display text of the failure.
    pub open spec fn spec_message(self) -> Seq<char> {
        match self {
            ParseFailure::Empty => "cannot parse integer from empty string"@,
            ParseFailure::InvalidDigit => "invalid digit found in string"@,
            ParseFailure::PosOverflow => "number too large to fit in target type"@,
        }
    }

    /// The display text of the failure.
    pub fn message(&self) -> (r: String)
        ensures
            r@ == self.spec_message(),
    {
        match self {
            ParseFailure::Empty => String::from_str("cannot parse integer from empty string"),
            ParseFailure::InvalidDigit => String::from_str("invalid digit found in string"),
            ParseFailure::PosOverflow => String::from_str("number too large to fit in target type"),
        }
    }
}

/// Whether `c` is a decimal digit.
pub open spec fn is_digit(c: char) -> bool {
    '0' <= c && c <= '9'
}

/// The value of the decimal digit `c`.
pub open spec fn digit_value(c: char) -> nat {
    (c as int - '0' as int) as nat
}

/// Reads the characters `d` from the left as decimal digits: the number they
/// spell, or the first failure met, a character that is no digit or a value
/// beyond `usize::MAX`.
pub open spec fn read_digits(d: Seq<char>) -> Result<nat, ParseFailure>
    decreases d.len(),
{
    if d.len() == 0 {
        Ok(0nat)
    } else {
        match read_digits(d.drop_last()) {
            Err(e) => Err(e),
            Ok(v) => if !is_digit(d.last()) {
                Err(ParseFailure::InvalidDigit)
            } else if v * 10 + digit_value(d.last()) > usize::MAX {
                Err(ParseFailure::PosOverflow)
            } else {
                Ok(v * 10 + digit_value(d.last()))
            },
        }
    }
}

/// Parses a count as an unsigned integer: an optional `+` and then decimal
/// digits; a sign alone has an invalid digit, and a `-` is no digit.
pub open spec fn parse_count(s: Seq<char>) -> Result<nat, ParseFailure> {
    if s.len() == 0 {
        Err(ParseFailure::Empty)
    } else if (s[0] == '+' || s[0] == '-') && s.len() == 1 {
        Err(ParseFailure::InvalidDigit)
    } else if s[0] == '+' {
        read_digits(s.subrange(1, s.len() as int))
    } else {
        read_digits(s)
    }
}

proof fn lemma_read_digits_failure_stays(d: Seq<char>, k: int)
    requires
        0 <= k <= d.len(),
        read_digits(d.subrange(0, k)) is Err,
    ensures
        read_digits(d) == read_digits(d.subrange(0, k)),
    decreases d.len(),
{
    if k < d.len() {
        assert(d.drop_last().subrange(0, k) =~= d.subrange(0, k));
        lemma_read_digits_failure_stays(d.drop_last(), k);
    } else {
        assert(d.subrange(0, k) =~= d);
    }
}

proof fn lemma_digit_char(d: nat)
    requires
        d < 10,
    ensures
        is_digit(digit_char(d)),
        digit_value(digit_char(d)) == d,
        digit_char(d) != '+',
        digit_char(d) != '-',
{
}

proof fn lemma_read_decimal(n: nat)
    requires
        n <= usize::MAX,
    ensures
        read_digits(decimal(n)) == Ok::<nat, ParseFailure>(n),
        decimal(n).len() > 0,
        is_digit(decimal(n)[0]),
    decreases n,
{
    lemma_digit_char(n % 10);
    assert((n / 10) * 10 + n % 10 == n) by (nonlinear_arith);
    let d = decimal(n);
    if n < 10 {
        assert(d.drop_last() =~= Seq::<char>::empty());
        assert(read_digits(d.drop_last()) == Ok::<nat, ParseFailure>(0nat));
    } else {
        lemma_read_decimal(n / 10);
        assert(d.drop_last() =~= decimal(n / 10));
        assert(d[0] == decimal(n / 10)[0]);
    }
    assert(d.last() == digit_char(n % 10));
    assert(read_digits(d) == Ok::<nat, ParseFailure>(n));
}

/// Parsing the decimal rendering of a count, as the queue service reports
/// counts, gives the count back.
pub proof fn law_parse_reads_decimal(n: nat)
    requires
        n <= usize::MAX,
    ensures
        parse_count(decimal(n)) == Ok::<nat, ParseFailure>(n),
{
    lemma_read_decimal(n);
}

/// Parses a count: the value, or why the text is none.
pub fn parse_usize(s: &str) -> (r: Result<usize, ParseFailure>)
    ensures
        match parse_count(s@) {
            Ok(n) => r matches Ok(v) && v == n,
            Err(e) => r == Err::<usize, ParseFailure>(e),
        },
{
    let n = s.unicode_len();
    if n == 0 {
        return Err(ParseFailure::Empty);
    }
    let first = s.get_char(0);
    if (first == '+' || first == '-') && n == 1 {
        return Err(ParseFailure::InvalidDigit);
    }
    let start: usize = if first == '+' { 1 } else { 0 };
    let ghost digits = s@.subrange(start as int, n as int);
    proof {
        if start == 0 {
            assert(digits =~= s@);
        }
        assert(digits.subrange(0, 0) =~= Seq::<char>::empty());
        assert(parse_count(s@) == read_digits(digits));
    }
    let mut i: usize = start;
    let mut value: usize = 0;
    while i < n
        invariant
            n == s@.len(),
            start <= i <= n,
            digits == s@.subrange(start as int, n as int),
            parse_count(s@) == read_digits(digits),
            read_digits(digits.subrange(0, i - start)) == Ok::<nat, ParseFailure>(value as nat),
        decreases n - i,
    {
        let c = s.get_char(i);
        let ghost before = digits.subrange(0, i - start);
        let ghost after = digits.subrange(0, i + 1 - start);
        proof {
            assert(after.drop_last() =~= before);
            assert(after.last() == c);
        }
        if !('0' <= c && c <= '9') {
            proof {
                lemma_read_digits_failure_stays(digits, i + 1 - start);
            }
            return Err(ParseFailure::InvalidDigit);
        }
        let d: u32 = (c as u32) - ('0' as u32);
        let next: u128 = (value as u128) * 10 + (d as u128);
        if next > (usize::MAX as u128) {
            proof {
                lemma_read_digits_failure_stays(digits, i + 1 - start);
            }
            return Err(ParseFailure::PosOverflow);
        }
        value = next as usize;
        i = i + 1;
    }
    proof {
        assert(digits.subrange(0, n - start) =~= digits);
    }
    Ok(value)
}

/// The attributes of the queue that the shop reads: the approximate number of
/// messages, in the text the service reports it in, where it reported one.
#[derive(Debug)]
pub struct QueueAttributes {
    pub approximate_number_of_messages: Option<String>,
}

/// The message of a count that does not parse.
pub open spec fn count_failure_text(count: Seq<char>, f: ParseFailure) -> Seq<char> {
    "Failed to parse the approximate number of messages "@ + str_debug_text(count) + ": "@ + f.spec_message()
}

/// The number of tickets waiting in the queue, read from the attributes that
/// the service answered with.
pub fn get_ticket_count(attributes: Option<QueueAttributes>) -> (r: Result<usize, CoffeeShopError>)
    ensures
        match attributes {
            None => r matches Err(CoffeeShopError::UnexpectedAWSResponse(m)) && m@ == "Missing attributes"@,
            Some(a) => match a.approximate_number_of_messages {
                None => r matches Err(CoffeeShopError::UnexpectedAWSResponse(m))
                    && m@ == "Missing approximate number of messages"@,
                Some(c) => match parse_count(c@) {
                    Ok(n) => r matches Ok(v) && v == n,
                    Err(f) => r matches Err(CoffeeShopError::UnexpectedAWSResponse(m))
                        && m@ == count_failure_text(c@, f),
                },
            },
        },
{
    match attributes {
        None => Err(CoffeeShopError::UnexpectedAWSResponse(String::from_str("Missing attributes"))),
        Some(a) => match a.approximate_number_of_messages {
            None => Err(
                CoffeeShopError::UnexpectedAWSResponse(String::from_str("Missing approximate number of messages")),
            ),
            Some(count) => match parse_usize(count.as_str()) {
                Ok(v) => Ok(v),
                Err(f) => {
                    let mut m = String::from_str("Failed to parse the approximate number of messages ");
                    push_str_debug(&mut m, count.as_str());
                    push_str(&mut m, ": ");
                    let t = f.message();
                    push_str(&mut m, t.as_str());
                    Err(CoffeeShopError::UnexpectedAWSResponse(m))
                },
            },
        },
    }
}

/// The ticket of a message that the queue accepted: its message ID, which the
/// service must have answered with.
pub fn sent_ticket(message_id: Option<String>) -> (r: Result<String, CoffeeShopError>)
    ensures
        match message_id {
            Some(id) => r matches Ok(t) && t@ == id@,
            None => r matches Err(CoffeeShopError::UnexpectedAWSResponse(m))
                && m@ == "No message ID returned upon sending message."@,
        },
{
    match message_id {
        Some(id) => Ok(id),
        None => Err(
            CoffeeShopError::UnexpectedAWSResponse(String::from_str("No message ID returned upon sending message.")),
        ),
    }
}

/// The longest wait for a message, and the wait when none is given: twenty
/// seconds.
pub open spec fn longest_wait() -> (u64, u32) {
    (20u64, 0u32)
}

/// The wait for a message: the given timeout or the longest wait, whichever
/// is shorter.
pub open spec fn wait_span(timeout: Option<(u64, u32)>) -> (u64, u32) {
    let t = match timeout {
        Some(t) => t,
        None => longest_wait(),
    };
    if span_nanos(longest_wait()) < span_nanos(t) {
        longest_wait()
    } else {
        t
    }
}

/// How long to wait for a message, and the whole seconds of that wait that
/// the receive request carries.
pub fn receive_wait(timeout: Option<Duration>) -> (r: (Duration, i32))
    ensures
        r.0@ == wait_span(match timeout {
            Some(t) => Some(t@),
            None => None,
        }),
        r.1 == r.0@.0,
        0 <= r.1 <= 20,
{
    let limit = Duration::from_secs(20);
    let wait = match timeout {
        Some(t) => t,
        None => Duration::from_secs(20),
    };
    let wait = wait.min(limit);
    let secs = wait.as_secs();
    proof {
        assert(span_nanos(wait@) <= span_nanos(longest_wait()));
        assert(wait@.0 <= 20) by (nonlinear_arith)
            requires
                wait@.0 * 1_000_000_000 + wait@.1 <= 20 * 1_000_000_000,
                wait@.1 >= 0,
        ;
    }
    (wait, secs as i32)
}

/// A message as the queue service hands it out; any of its parts may be
/// missing.
#[derive(Debug)]
pub struct ReceivedMessage {
    pub receipt_handle: Option<String>,
    pub body: Option<String>,
    pub message_id: Option<String>,
}

/// A received message with all of its parts; its ticket is its message ID.
#[derive(Debug)]
pub struct StagedMessage {
    pub ticket: String,
    pub receipt_handle: String,
    pub body: String,
}

/// What staging the last of the received messages gives: the queue is empty
/// after the wait where there is none, and each missing part is reported, the
/// receipt handle first, then the body, then the message ID.
pub open spec fn staging_outcome(m: Option<ReceivedMessage>, wait: (u64, u32), r: Result<StagedMessage, CoffeeShopError>) -> bool {
    match m {
        None => r matches Err(CoffeeShopError::AWSSQSQueueEmpty(d)) && d@ == wait,
        Some(m) => match (m.receipt_handle, m.body, m.message_id) {
            (None, _, _) => r matches Err(CoffeeShopError::UnexpectedAWSResponse(t)) && t@ == "Missing SQS receipt handle"@,
            (Some(_), None, _) => r matches Err(CoffeeShopError::UnexpectedAWSResponse(t))
                && t@ == "Missing SQS message body"@,
            (Some(_), Some(_), None) => r matches Err(CoffeeShopError::UnexpectedAWSResponse(t))
                && t@ == "Missing SQS message ID"@,
            (Some(h), Some(b), Some(i)) => r matches Ok(s) && s.receipt_handle@ == h@ && s.body@ == b@
                && s.ticket@ == i@,
        },
    }
}

/// The last of the received messages, if any.
pub open spec fn last_message(messages: Option<Seq<ReceivedMessage>>) -> Option<ReceivedMessage> {
    match messages {
        Some(v) => if v.len() > 0 {
            Some(v.last())
        } else {
            None
        },
        None => None,
    }
}

/// Stages the last of the messages that a receive request answered with.
pub fn stage_message(messages: Option<Vec<ReceivedMessage>>, wait: Duration) -> (r: Result<StagedMessage, CoffeeShopError>)
    ensures
        staging_outcome(last_message(match messages {
            Some(v) => Some(v@),
            None => None,
        }), wait@, r),
{
    let message = match messages {
        Some(mut v) => v.pop(),
        None => None,
    };
    match message {
        None => Err(CoffeeShopError::AWSSQSQueueEmpty(wait)),
        Some(m) => {
            let receipt_handle = match m.receipt_handle {
                Some(h) => h,
                None => {
                    return Err(CoffeeShopError::UnexpectedAWSResponse(String::from_str("Missing SQS receipt handle")));
                },
            };
            let body = match m.body {
                Some(b) => b,
                None => {
                    return Err(CoffeeShopError::UnexpectedAWSResponse(String::from_str("Missing SQS message body")));
                },
            };
            let ticket = match m.message_id {
                Some(i) => i,
                None => {
                    return Err(CoffeeShopError::UnexpectedAWSResponse(String::from_str("Missing SQS message ID")));
                },
            };
            Ok(StagedMessage { ticket, receipt_handle, body })
        },
    }
}

/// What the queue service is told when a staged message is completed: delete
/// it, or make it visible again at once so that another barista takes it.
#[derive(Clone, Copy, Debug, PartialEq, Eq, Structural)]
pub enum ReceiptReply {
    Delete,
    ReturnToQueue,
}

/// A message taken off the queue and staged for processing, until it is
/// either deleted from the queue or returned to it, which happens once.
#[derive(Debug)]
pub struct StagedReceipt<M> {
    ticket: String,
    message: M,
    receipt_handle: String,
    queue_url: String,
    completed: Option<bool>,
}

impl<M> StagedReceipt<M> {
    /// How the receipt was completed: deleted (`true`) or returned
    /// (`false`); `None` while it is staged.
    pub closed spec fn completion(&self) -> Option<bool> {
        self.completed
    }

    /// The decoded message.
    pub closed spec fn spec_message(&self) -> M {
        self.message
    }

    /// The ticket of the message.
    pub closed spec fn spec_ticket(&self) -> Seq<char> {
        self.ticket@
    }

    /// The handle by which the queue service knows this receipt.
    pub closed spec fn spec_receipt_handle(&self) -> Seq<char> {
        self.receipt_handle@
    }

    /// The queue the message came from.
    pub closed spec fn spec_queue_url(&self) -> Seq<char> {
        self.queue_url@
    }

    /// A staged receipt for a message from the queue at `queue_url`.
    pub fn new(staged: StagedMessage, message: M, queue_url: String) -> (r: StagedReceipt<M>)
        ensures
            r.spec_ticket() == staged.ticket@,
            r.spec_receipt_handle() == staged.receipt_handle@,
            r.spec_queue_url() == queue_url@,
            r.spec_message() == message,
            r.completion() is None,
    {
        StagedReceipt {
            ticket: staged.ticket,
            message,
            receipt_handle: staged.receipt_handle,
            queue_url,
            completed: None,
        }
    }

    /// The ticket of the message.
    pub fn ticket(&self) -> (r: &str)
        ensures
            r@ == self.spec_ticket(),
    {
        self.ticket.as_str()
    }

    /// The handle by which the queue service knows this receipt.
    pub fn receipt_handle(&self) -> (r: &str)
        ensures
            r@ == self.spec_receipt_handle(),
    {
        self.receipt_handle.as_str()
    }

    /// The queue the message came from.
    pub fn queue_url(&self) -> (r: &str)
        ensures
            r@ == self.spec_queue_url(),
    {
        self.queue_url.as_str()
    }

    /// The decoded message.
    pub fn message(&self) -> (r: &M)
        ensures
            *r == self.spec_message(),
    {
        &self.message
    }

    /// Whether the receipt was completed; one dropped before that is reported.
    pub fn is_completed(&self) -> (r: bool)
        ensures
            r == self.completion() is Some,
    {
        self.completed.is_some()
    }

    /// Completes the receipt: deleted from the queue if `result`, returned to
    /// it otherwise. A receipt completes once; completing it again is refused
    /// and changes nothing.
    pub fn complete(&mut self, result: bool) -> (r: Result<ReceiptReply, CoffeeShopError>)
        ensures
            old(self).completion() is None ==> final(self).completion() == Some(result) && r == Ok::<
                ReceiptReply,
                CoffeeShopError,
            >(if result {
                ReceiptReply::Delete
            } else {
                ReceiptReply::ReturnToQueue
            }),
            old(self).completion() is Some ==> final(self).completion() == old(self).completion() && (r matches Err(
                CoffeeShopError::AWSSQSStagedReceiptAlreadyCompleted(m),
            ) && m@ == (if result {
                "deleted"@
            } else {
                "aborted"@
            })),
            final(self).spec_ticket() == old(self).spec_ticket(),
            final(self).spec_receipt_handle() == old(self).spec_receipt_handle(),
            final(self).spec_queue_url() == old(self).spec_queue_url(),
            final(self).spec_message() == old(self).spec_message(),
    {
        if self.completed.is_some() {
            let m = if result {
                String::from_str("deleted")
            } else {
                String::from_str("aborted")
            };
            return Err(CoffeeShopError::AWSSQSStagedReceiptAlreadyCompleted(m));
        }
        self.completed = Some(result);
        if result {
            Ok(ReceiptReply::Delete)
        } else {
            Ok(ReceiptReply::ReturnToQueue)
        }
    }

    /// Returns the message to the queue.
    pub fn abort(&mut self) -> (r: Result<ReceiptReply, CoffeeShopError>)
        ensures
            old(self).completion() is None ==> final(self).completion() == Some(false) && r == Ok::<
                ReceiptReply,
                CoffeeShopError,
            >(ReceiptReply::ReturnToQueue),
            old(self).completion() is Some ==> final(self).completion() == old(self).completion() && (r matches Err(
                CoffeeShopError::AWSSQSStagedReceiptAlreadyCompleted(m),
            ) && m@ == "aborted"@),
    {
        self.complete(false)
    }

    /// Deletes the message from the queue.
    pub fn delete(&mut self) -> (r: Result<ReceiptReply, CoffeeShopError>)
        ensures
            old(self).completion() is None ==> final(self).completion() == Some(true) && r == Ok::<
                ReceiptReply,
                CoffeeShopError,
            >(ReceiptReply::Delete),
            old(self).completion() is Some ==> final(self).completion() == old(self).completion() && (r matches Err(
                CoffeeShopError::AWSSQSStagedReceiptAlreadyCompleted(m),
            ) && m@ == "deleted"@),
    {
        self.complete(true)
    }
}

} // verus!
