//! Processing results as table items: how a worker writes them and how a
//! waiter reads them back.
use vstd::prelude::*;
use crate::assoc::Assoc;
use crate::errors::schema::{ErrorSchema, StatusCode};
use crate::errors::shop_error::CoffeeShopError;
use crate::json::{Json, JsonModel, json_text, lemma_object_model, members_model};
use crate::text::{decimal, push_decimal, push_signed_decimal, signed_decimal, str_eq};

verus! {

/// The key of whether processing succeeded.
pub open spec fn success_key() -> Seq<char> { "success"@ }

/// The key of the status code of the result.
pub open spec fn status_key() -> Seq<char> { "status_code"@ }

/// The key of the serialized output of a success.
pub open spec fn output_key() -> Seq<char> { "output"@ }

/// The key of the JSON text of a failure's error.
pub open spec fn error_key() -> Seq<char> { "error"@ }

/// The key of the expiry time of the item.
pub open spec fn ttl_key() -> Seq<char> { "ttl"@ }

/// A value of a table item: a string, a number (as its text), a boolean,
/// binary data, or any other kind of value (kept as its `Debug` text).
#[derive(Debug)]
pub enum AttributeValue {
    S(String),
    N(String),
    Bool(bool),
    B(Vec<u8>),
    Other(String),
}

/// The content of an [`AttributeValue`].
pub enum AttrView {
    S(Seq<char>),
    N(Seq<char>),
    Bool(bool),
    B(Seq<u8>),
    Other(Seq<char>),
}

impl View for AttributeValue {
    type V = AttrView;

    open spec fn view(&self) -> AttrView {
        match self {
            AttributeValue::S(s) => AttrView::S(s@),
            AttributeValue::N(s) => AttrView::N(s@),
            AttributeValue::Bool(b) => AttrView::Bool(*b),
            AttributeValue::B(b) => AttrView::B(b@),
            AttributeValue::Other(s) => AttrView::Other(s@),
        }
    }
}

/// A table item: attributes by name.
pub type DynamoDBItem = Assoc<AttributeValue>;

/// The attributes of an item, by name.
pub open spec fn item_view(m: Map<Seq<char>, AttributeValue>) -> Map<Seq<char>, AttrView> {
    m.map_values(|v: AttributeValue| v@)
}

/// The value under `k`, if any.
pub open spec fn lookup(m: Map<Seq<char>, AttrView>, k: Seq<char>) -> Option<AttrView> {
    if m.contains_key(k) { Some(m[k]) } else { None }
}

/// The attributes that every result item carries: the ticket under the
/// partition key, then the expiry time under `ttl`.
pub open spec fn common_items(m: Map<Seq<char>, AttrView>, partition_key: Seq<char>, ticket: Seq<char>, expiry: i64) -> Map<Seq<char>, AttrView> {
    m.insert(partition_key, AttrView::S(ticket)).insert(ttl_key(), AttrView::N(signed_decimal(expiry as int)))
}

/// The item of a successful result: the common attributes, status 200,
/// success, and the serialized output.
pub open spec fn success_item(m: Map<Seq<char>, AttrView>, partition_key: Seq<char>, ticket: Seq<char>, output: Seq<u8>, expiry: i64) -> Map<Seq<char>, AttrView> {
    common_items(m, partition_key, ticket, expiry).insert(status_key(), AttrView::N("200"@)).insert(
        success_key(),
        AttrView::Bool(true),
    ).insert(output_key(), AttrView::B(output))
}

/// The item of a failed result: the common attributes, the error's status
/// code, failure, and the compact JSON text of the error.
pub open spec fn failure_item(m: Map<Seq<char>, AttrView>, partition_key: Seq<char>, ticket: Seq<char>, error: CoffeeShopError, expiry: i64) -> Map<Seq<char>, AttrView> {
    common_items(m, partition_key, ticket, expiry).insert(
        status_key(),
        AttrView::N(decimal(error.spec_status_code() as nat)),
    ).insert(success_key(), AttrView::Bool(false)).insert(error_key(), AttrView::S(json_text(error.spec_as_json())))
}

proof fn lemma_item_view_insert(m: Map<Seq<char>, AttributeValue>, k: Seq<char>, v: AttributeValue)
    ensures
        item_view(m.insert(k, v)) == item_view(m).insert(k, v@),
{
    assert(item_view(m.insert(k, v)) =~= item_view(m).insert(k, v@));
}

proof fn lemma_item_view_remove(m: Map<Seq<char>, AttributeValue>, k: Seq<char>)
    ensures
        item_view(m.remove(k)) == item_view(m).remove(k),
{
    assert(item_view(m.remove(k)) =~= item_view(m).remove(k));
}

fn put(item: &mut DynamoDBItem, key: String, value: AttributeValue)
    ensures
        item_view(final(item)@) == item_view(old(item)@).insert(key@, value@),
{
    let ghost v = value@;
    proof {
        lemma_item_view_insert(item@, key@, value);
    }
    item.insert(key, value);
}

/// Adds the attributes that every result item carries (see
/// [`common_items`]); `expiry` is the item's expiry time in seconds since
/// the Unix epoch.
pub fn add_common_items(item: DynamoDBItem, partition_key: &str, ticket: &str, expiry: i64) -> (r: DynamoDBItem)
    ensures
        item_view(r@) == common_items(item_view(item@), partition_key@, ticket@, expiry),
{
    let mut item = item;
    put(&mut item, String::from_str(partition_key), AttributeValue::S(String::from_str(ticket)));
    let mut n = String::new();
    push_signed_decimal(&mut n, expiry);
    put(&mut item, String::from_str("ttl"), AttributeValue::N(n));
    item
}

/// What a result item reads as.
#[derive(Debug)]
pub enum StoredResult {
    /// A success: its status code and the serialized output.
    Output { status: String, output: Vec<u8> },
    /// A failure: its status code and the JSON text of its error.
    Failure { status: String, error: String },
}

/// Conversion of processing results into table items.
pub trait ToItem: Sized {
    /// Adds the attributes of a successful result, whose output was serialized
    /// as `output`.
    fn report_ticket_success(self, partition_key: &str, ticket: &str, output: Vec<u8>, expiry: i64) -> Self;

    /// Adds the attributes of a failed result.
    fn report_ticket_failure(self, partition_key: &str, ticket: &str, error: CoffeeShopError, expiry: i64) -> Self;

    /// Adds the attributes of a result, successful or failed.
    fn report_ticket_result(self, partition_key: &str, ticket: &str, result: Result<Vec<u8>, CoffeeShopError>, expiry: i64) -> Self;
}

impl ToItem for DynamoDBItem {
    fn report_ticket_success(self, partition_key: &str, ticket: &str, output: Vec<u8>, expiry: i64) -> (r: Self)
        ensures
            item_view(r@) == success_item(item_view(self@), partition_key@, ticket@, output@, expiry),
    {
        let mut item = add_common_items(self, partition_key, ticket, expiry);
        put(&mut item, String::from_str("status_code"), AttributeValue::N(String::from_str("200")));
        put(&mut item, String::from_str("success"), AttributeValue::Bool(true));
        put(&mut item, String::from_str("output"), AttributeValue::B(output));
        item
    }

    fn report_ticket_failure(self, partition_key: &str, ticket: &str, error: CoffeeShopError, expiry: i64) -> (r: Self)
        ensures
            item_view(r@) == failure_item(item_view(self@), partition_key@, ticket@, error, expiry),
    {
        let body = error.as_json().to_text();
        let mut item = add_common_items(self, partition_key, ticket, expiry);
        let mut code = String::new();
        push_decimal(&mut code, error.status_code().as_u16() as u64);
        put(&mut item, String::from_str("status_code"), AttributeValue::N(code));
        put(&mut item, String::from_str("success"), AttributeValue::Bool(false));
        put(&mut item, String::from_str("error"), AttributeValue::S(body));
        item
    }

    fn report_ticket_result(self, partition_key: &str, ticket: &str, result: Result<Vec<u8>, CoffeeShopError>, expiry: i64) -> (r: Self)
        ensures
            result matches Ok(o) ==> item_view(r@) == success_item(item_view(self@), partition_key@, ticket@, o@, expiry),
            result matches Err(e) ==> item_view(r@) == failure_item(item_view(self@), partition_key@, ticket@, e, expiry),
    {
        match result {
            Ok(output) => self.report_ticket_success(partition_key, ticket, output, expiry),
            Err(error) => self.report_ticket_failure(partition_key, ticket, error, expiry),
        }
    }
}

/// The error of an item whose structure cannot be read.
pub open spec fn malformed_item_message() -> Seq<char> {
    "A map was retrieved, but its structure could not be parsed."@
}

fn malformed_item() -> (r: CoffeeShopError)
    ensures
        r matches CoffeeShopError::AWSDynamoDBMalformedItem(m) && m@ == malformed_item_message(),
{
    CoffeeShopError::AWSDynamoDBMalformedItem(String::from_str("A map was retrieved, but its structure could not be parsed."))
}

/// What the status of an item reads as: its ticket and whether it
/// succeeded, when the ticket is a string under the partition key and
/// `success` a boolean; else a malformed item.
pub open spec fn spec_process_status(m: Map<Seq<char>, AttrView>, partition_key: Seq<char>) -> Option<(Seq<char>, bool)> {
    match (lookup(m, partition_key), lookup(m, success_key())) {
        (Some(AttrView::S(t)), Some(AttrView::Bool(b))) => Some((t, b)),
        _ => None,
    }
}

/// Reads the ticket and the success of an item (see
/// [`spec_process_status`]).
pub fn to_process_status(item: &DynamoDBItem, partition_key: &str) -> (r: Result<(String, bool), CoffeeShopError>)
    ensures
        spec_process_status(item_view(item@), partition_key@) matches Some((t, b)) ==> (r matches Ok((rt, rb)) && rt@
            == t && rb == b),
        spec_process_status(item_view(item@), partition_key@) is None ==> (r matches Err(
            CoffeeShopError::AWSDynamoDBMalformedItem(m),
        ) && m@ == malformed_item_message()),
{
    match (item.get(partition_key), item.get("success")) {
        (Some(AttributeValue::S(ticket)), Some(AttributeValue::Bool(success))) => Ok((ticket.clone(), *success)),
        _ => Err(malformed_item()),
    }
}

/// What a stored result reads as, the five attributes taken out in turn
/// (the partition key first): a success when the ticket is a string, success
/// is true, the status a number, the output binary and there is no error; a
/// failure when success is false, there is no output and the error is a
/// string; anything else is malformed.
pub open spec fn spec_process_result(m: Map<Seq<char>, AttrView>, partition_key: Seq<char>) -> Option<(Seq<char>, bool, Seq<char>, Seq<u8>, Seq<char>)> {
    let v_key = lookup(m, partition_key);
    let m1 = m.remove(partition_key);
    let v_success = lookup(m1, success_key());
    let m2 = m1.remove(success_key());
    let v_status = lookup(m2, status_key());
    let m3 = m2.remove(status_key());
    let v_output = lookup(m3, output_key());
    let m4 = m3.remove(output_key());
    let v_error = lookup(m4, error_key());
    match (v_key, v_success, v_status, v_output, v_error) {
        (Some(AttrView::S(t)), Some(AttrView::Bool(true)), Some(AttrView::N(s)), Some(AttrView::B(b)), None) => Some(
            (t, true, s, b, Seq::empty()),
        ),
        (Some(AttrView::S(t)), Some(AttrView::Bool(false)), Some(AttrView::N(s)), None, Some(AttrView::S(e))) => Some(
            (t, false, s, Seq::empty(), e),
        ),
        _ => None,
    }
}

fn take(item: &mut DynamoDBItem, key: &str) -> (r: Option<AttributeValue>)
    ensures
        item_view(final(item)@) == item_view(old(item)@).remove(key@),
        r matches Some(v) ==> lookup(item_view(old(item)@), key@) == Some(v@),
        r is None ==> lookup(item_view(old(item)@), key@) is None,
{
    proof {
        lemma_item_view_remove(item@, key@);
    }
    item.remove(key)
}

/// Reads a stored result (see [`spec_process_result`]): its ticket and what
/// it holds, or a malformed item.
pub fn to_process_result(item: DynamoDBItem, partition_key: &str) -> (r: Result<(String, StoredResult), CoffeeShopError>)
    ensures
        spec_process_result(item_view(item@), partition_key@) matches Some((t, ok, s, b, e)) ==> (r matches Ok(
            (rt, stored),
        ) && rt@ == t && (if ok {
            stored matches StoredResult::Output { status, output } && status@ == s && output@ == b
        } else {
            stored matches StoredResult::Failure { status, error } && status@ == s && error@ == e
        })),
        spec_process_result(item_view(item@), partition_key@) is None ==> (r matches Err(
            CoffeeShopError::AWSDynamoDBMalformedItem(m),
        ) && m@ == malformed_item_message()),
{
    let mut item = item;
    let v_key = take(&mut item, partition_key);
    let v_success = take(&mut item, "success");
    let v_status = take(&mut item, "status_code");
    let v_output = take(&mut item, "output");
    let v_error = take(&mut item, "error");
    match (v_key, v_success, v_status, v_output, v_error) {
        (
            Some(AttributeValue::S(ticket)),
            Some(AttributeValue::Bool(true)),
            Some(AttributeValue::N(status)),
            Some(AttributeValue::B(output)),
            None,
        ) => Ok((ticket, StoredResult::Output { status, output })),
        (
            Some(AttributeValue::S(ticket)),
            Some(AttributeValue::Bool(false)),
            Some(AttributeValue::N(status)),
            None,
            Some(AttributeValue::S(error)),
        ) => Ok((ticket, StoredResult::Failure { status, error })),
        _ => Err(malformed_item()),
    }
}

/// Reading of table items as results.
pub trait ToProcessResult: Sized {
    /// The ticket and the success of the item.
    fn to_process_status(&self, partition_key: &str) -> Result<(String, bool), CoffeeShopError>;

    /// The ticket of the item and the result it stores.
    fn to_process_result(self, partition_key: &str) -> Result<(String, StoredResult), CoffeeShopError>;
}

impl ToProcessResult for DynamoDBItem {
    /// See [`to_process_status`].
    fn to_process_status(&self, partition_key: &str) -> (r: Result<(String, bool), CoffeeShopError>)
        ensures
            spec_process_status(item_view(self@), partition_key@) matches Some((t, b)) ==> (r matches Ok((rt, rb))
                && rt@ == t && rb == b),
            spec_process_status(item_view(self@), partition_key@) is None ==> (r matches Err(
                CoffeeShopError::AWSDynamoDBMalformedItem(m),
            ) && m@ == malformed_item_message()),
    {
        crate::dynamodb::to_process_status(self, partition_key)
    }

    /// See [`to_process_result`].
    fn to_process_result(self, partition_key: &str) -> (r: Result<(String, StoredResult), CoffeeShopError>)
        ensures
            spec_process_result(item_view(self@), partition_key@) is Some ==> (r matches Ok(out) && reads_as(
                out,
                item_view(self@),
                partition_key@,
            )),
            spec_process_result(item_view(self@), partition_key@) is None ==> (r matches Err(
                CoffeeShopError::AWSDynamoDBMalformedItem(m),
            ) && m@ == malformed_item_message()),
    {
        crate::dynamodb::to_process_result(self, partition_key)
    }
}

} // verus!

verus! {

/// The partition key is none of the names that a result item uses for its
/// own attributes.
pub open spec fn unreserved_key(k: Seq<char>) -> bool {
    k != ttl_key() && k != status_key() && k != success_key() && k != output_key() && k != error_key()
}

proof fn lemma_reserved_keys_distinct()
    ensures
        ttl_key() != status_key(),
        ttl_key() != success_key(),
        ttl_key() != output_key(),
        ttl_key() != error_key(),
        status_key() != success_key(),
        status_key() != output_key(),
        status_key() != error_key(),
        success_key() != output_key(),
        success_key() != error_key(),
        output_key() != error_key(),
{
    reveal_strlit("ttl");
    reveal_strlit("status_code");
    reveal_strlit("success");
    reveal_strlit("output");
    reveal_strlit("error");
    assert(ttl_key().len() != status_key().len());
    assert(ttl_key().len() != success_key().len());
    assert(ttl_key().len() != output_key().len());
    assert(ttl_key().len() != error_key().len());
    assert(status_key().len() != success_key().len());
    assert(status_key().len() != output_key().len());
    assert(status_key().len() != error_key().len());
    assert(success_key()[0] != output_key()[0]);
    assert(success_key().len() != error_key().len());
    assert(output_key()[0] != error_key()[0]);
}

/// The status of a successful result reads back as its ticket and success.
pub proof fn law_success_status_reads_back(m: Map<Seq<char>, AttrView>, partition_key: Seq<char>, ticket: Seq<char>, output: Seq<u8>, expiry: i64)
    requires
        unreserved_key(partition_key),
    ensures
        spec_process_status(success_item(m, partition_key, ticket, output, expiry), partition_key) == Some((ticket, true)),
{
    lemma_reserved_keys_distinct();
}

/// The status of a failed result reads back as its ticket and failure.
pub proof fn law_failure_status_reads_back(m: Map<Seq<char>, AttrView>, partition_key: Seq<char>, ticket: Seq<char>, error: CoffeeShopError, expiry: i64)
    requires
        unreserved_key(partition_key),
    ensures
        spec_process_status(failure_item(m, partition_key, ticket, error, expiry), partition_key) == Some((ticket, false)),
{
    lemma_reserved_keys_distinct();
}

/// A successful result written into a fresh item reads back as a success
/// with its ticket, status 200 and its output.
pub proof fn law_success_result_reads_back(partition_key: Seq<char>, ticket: Seq<char>, output: Seq<u8>, expiry: i64)
    requires
        unreserved_key(partition_key),
    ensures
        spec_process_result(success_item(Map::empty(), partition_key, ticket, output, expiry), partition_key) == Some(
            (ticket, true, "200"@, output, Seq::<char>::empty()),
        ),
{
    lemma_reserved_keys_distinct();
    let m = success_item(Map::empty(), partition_key, ticket, output, expiry);
    let m4 = m.remove(partition_key).remove(success_key()).remove(status_key()).remove(output_key());
    assert(!m4.contains_key(error_key()));
}

/// A failed result written into a fresh item reads back as a failure with
/// its ticket, the error's status code and the JSON text of the error.
pub proof fn law_failure_result_reads_back(partition_key: Seq<char>, ticket: Seq<char>, error: CoffeeShopError, expiry: i64)
    requires
        unreserved_key(partition_key),
    ensures
        spec_process_result(failure_item(Map::empty(), partition_key, ticket, error, expiry), partition_key) == Some(
            (ticket, false, decimal(error.spec_status_code() as nat), Seq::<u8>::empty(), json_text(error.spec_as_json())),
        ),
{
    lemma_reserved_keys_distinct();
    let m = failure_item(Map::empty(), partition_key, ticket, error, expiry);
    let m3 = m.remove(partition_key).remove(success_key()).remove(status_key());
    assert(!m3.contains_key(output_key()));
}

} // verus!

verus! {

/// The details of an error whose stored JSON cannot be parsed: a fixed
/// `message` and the stored text under `original`.
pub open spec fn unparsable_error_details(error_json: Seq<char>) -> JsonModel {
    JsonModel::Object(seq![
        ("message"@, JsonModel::Str("A processing error had occurred, but the error message cannot be parsed; could not report the actual error."@)),
        ("original"@, JsonModel::Str(error_json)),
    ])
}

/// The schema reported for a stored error whose JSON text cannot be parsed:
/// status 500, error `UnknownProcessingError`, and the text kept as
/// `original`.
pub fn unknown_processing_error(error_json: String) -> (r: ErrorSchema)
    ensures
        r@.status_code == 500,
        r@.error == "UnknownProcessingError"@,
        r@.details == Some(unparsable_error_details(error_json@)),
{
    let mut members: Vec<(String, Json)> = Vec::new();
    members.push((
        String::from_str("message"),
        Json::Str(String::from_str("A processing error had occurred, but the error message cannot be parsed; could not report the actual error.")),
    ));
    members.push((String::from_str("original"), Json::Str(error_json)));
    proof {
        lemma_object_model(members);
        if let JsonModel::Object(m) = unparsable_error_details(error_json@) {
            assert(members_model(members@) =~= m);
        }
    }
    ErrorSchema::new(
        StatusCode::internal_server_error(),
        String::from_str("UnknownProcessingError"),
        Some(Json::Object(members)),
    )
}

/// The schema of a stored failure: the one its JSON text parsed into, if it
/// parsed; else the schema of an unparsable error.
pub fn stored_error_schema(parsed: Option<ErrorSchema>, error_json: String) -> (r: ErrorSchema)
    ensures
        parsed matches Some(s) ==> r@ == s@,
        parsed is None ==> r@.status_code == 500 && r@.error == "UnknownProcessingError"@ && r@.details == Some(
            unparsable_error_details(error_json@),
        ),
{
    match parsed {
        Some(s) => s,
        None => unknown_processing_error(error_json),
    }
}

/// The most keys that one batch request to the table may ask for.
pub open spec fn request_limit() -> nat {
    100
}

/// How many requests a list of `n` tickets is fetched in: one per hundred
/// tickets, rounded up.
pub open spec fn chunk_count(n: nat) -> nat {
    ((n + 99) / 100) as nat
}

/// Where the `i`-th request's tickets end in a list of `n` tickets: a hundred
/// past where they start, or at the end of the list.
pub open spec fn chunk_end(n: nat, i: int) -> int {
    if (i + 1) * 100 <= n {
        (i + 1) * 100
    } else {
        n as int
    }
}

/// The requests that the tickets are fetched in: the tickets in their order,
/// a hundred to a request, the last request taking what is left.
pub open spec fn chunk_plan(s: Seq<String>) -> Seq<Seq<String>> {
    Seq::new(chunk_count(s.len()), |i: int| s.subrange(i * 100, chunk_end(s.len(), i)))
}

/// Splits tickets into the requests they are fetched in (see
/// [`chunk_plan`]).
pub fn chunk_tickets(tickets: Vec<String>) -> (r: Vec<Vec<String>>)
    ensures
        r@.len() == chunk_plan(tickets@).len(),
        forall|i: int| 0 <= i < r@.len() ==> #[trigger] r@[i]@ == chunk_plan(tickets@)[i],
{
    let ghost all = tickets@;
    let ghost n = all.len();
    let mut chunks: Vec<Vec<String>> = Vec::new();
    let mut rest = tickets;
    while rest.len() > 100
        invariant
            n == all.len(),
            chunks@.len() * 100 + rest@.len() == n,
            rest@ == all.subrange(chunks@.len() * 100 as int, n as int),
            forall|j: int| 0 <= j < chunks@.len() ==> #[trigger] chunks@[j]@ == chunk_plan(all)[j],
            chunks@.len() < chunk_count(n) || rest@.len() == 0,
        decreases rest@.len(),
    {
        let ghost k = chunks@.len() as int;
        let tail = rest.split_off(100);
        assert(chunk_count(n) > k + 1);
        assert(chunk_end(n, k) == (k + 1) * 100);
        assert(rest@ =~= all.subrange(k * 100, (k + 1) * 100));
        chunks.push(rest);
        rest = tail;
        assert(rest@ =~= all.subrange((k + 1) * 100, n as int));
    }
    let ghost k = chunks@.len() as int;
    if rest.len() > 0 {
        assert(chunk_count(n) == k + 1);
        assert(chunk_end(n, k) == n);
        chunks.push(rest);
    } else {
        assert(chunk_count(n) == k);
    }
    chunks
}

/// The concatenation of a list of ticket lists.
pub open spec fn flatten(c: Seq<Seq<String>>) -> Seq<String>
    decreases c.len(),
{
    if c.len() == 0 { Seq::empty() } else { flatten(c.drop_last()) + c.last() }
}

proof fn lemma_chunks_prefix(s: Seq<String>, k: int)
    requires
        0 <= k <= chunk_count(s.len()),
    ensures
        flatten(chunk_plan(s).take(k)) == s.subrange(0, if k * 100 <= s.len() { k * 100 } else { s.len() as int }),
    decreases k,
{
    let c = chunk_plan(s);
    if k == 0 {
        assert(c.take(0) =~= Seq::<Seq<String>>::empty());
        assert(s.subrange(0, 0) =~= Seq::<String>::empty());
    } else {
        lemma_chunks_prefix(s, k - 1);
        assert(c.take(k).drop_last() =~= c.take(k - 1));
        assert(c.take(k).last() == c[k - 1]);
        assert((k - 1) * 100 < s.len());
        let end = if k * 100 <= s.len() { k * 100 } else { s.len() as int };
        assert(chunk_end(s.len(), k - 1) == end);
        assert(s.subrange(0, (k - 1) * 100) + s.subrange((k - 1) * 100, end) =~= s.subrange(0, end));
    }
}

/// Fetching in chunks asks for every ticket once, in the order of the list:
/// the chunks one after another are the tickets.
pub proof fn law_chunks_cover_tickets(s: Seq<String>)
    ensures
        flatten(chunk_plan(s)) == s,
        flatten(chunk_plan(s)).to_multiset() == s.to_multiset(),
{
    let c = chunk_plan(s);
    lemma_chunks_prefix(s, c.len() as int);
    assert(c.take(c.len() as int) =~= c);
    assert(s.subrange(0, s.len() as int) =~= s);
}

/// Tickets are fetched in a hundred per request, rounded up, and no request
/// asks for more than a hundred of them, so that each fits a batch request.
pub proof fn law_chunks_fit_requests(s: Seq<String>)
    ensures
        chunk_plan(s).len() == chunk_count(s.len()),
        forall|i: int| 0 <= i < chunk_plan(s).len() ==> #[trigger] chunk_plan(s)[i].len() <= request_limit(),
        forall|i: int| 0 <= i < chunk_plan(s).len() ==> #[trigger] chunk_plan(s)[i].len() > 0,
{
    assert forall|i: int| 0 <= i < chunk_plan(s).len() implies #[trigger] chunk_plan(s)[i].len() <= request_limit()
        && chunk_plan(s)[i].len() > 0 by {
        assert(i * 100 < s.len());
    }
}

/// The key of the item of `ticket`: the ticket, as a string, under the
/// partition key.
pub open spec fn ticket_key(partition_key: Seq<char>, ticket: Seq<char>) -> Map<Seq<char>, AttrView> {
    Map::<Seq<char>, AttrView>::empty().insert(partition_key, AttrView::S(ticket))
}

/// The keys that a batch request asks for: one per ticket, in order.
pub fn ticket_keys(partition_key: &str, tickets: Vec<String>) -> (r: Vec<DynamoDBItem>)
    ensures
        r@.len() == tickets@.len(),
        forall|i: int| 0 <= i < r@.len() ==> item_view(#[trigger] r@[i]@) == ticket_key(partition_key@, tickets@[i]@),
{
    let ghost all = tickets@;
    let n = tickets.len();
    let mut keys: Vec<DynamoDBItem> = Vec::new();
    let mut rest = tickets;
    let mut i: usize = 0;
    while i < n
        invariant
            n == all.len(),
            i <= n,
            rest@ == all.subrange(i as int, n as int),
            keys@.len() == i,
            forall|j: int| 0 <= j < i ==> item_view(#[trigger] keys@[j]@) == ticket_key(partition_key@, all[j]@),
        decreases n - i,
    {
        let ticket = rest.remove(0);
        assert(ticket == all[i as int]);
        let mut key = DynamoDBItem::new();
        put(&mut key, String::from_str(partition_key), AttributeValue::S(ticket));
        proof {
            assert(item_view(Map::<Seq<char>, AttributeValue>::empty()) =~= Map::<Seq<char>, AttrView>::empty());
        }
        keys.push(key);
        i = i + 1;
        assert(rest@ =~= all.subrange(i as int, n as int));
    }
    keys
}

/// The result found for `ticket`: the last of the fetched results, when it
/// is for this ticket; else the ticket has no result.
pub fn select_ticket_result<T>(results: Vec<(String, T)>, ticket: &str) -> (r: Result<T, CoffeeShopError>)
    ensures
        results@.len() > 0 && results@.last().0@ == ticket@ ==> r == Ok::<T, CoffeeShopError>(results@.last().1),
        !(results@.len() > 0 && results@.last().0@ == ticket@) ==> (r matches Err(CoffeeShopError::ResultNotFound(t))
            && t@ == ticket@),
{
    let mut results = results;
    match results.pop() {
        Some((found, result)) => {
            if str_eq(found.as_str(), ticket) {
                Ok(result)
            } else {
                Err(CoffeeShopError::ResultNotFound(String::from_str(ticket)))
            }
        },
        None => Err(CoffeeShopError::ResultNotFound(String::from_str(ticket))),
    }
}

/// Reads the status of every fetched item; any malformed item fails the
/// whole read.
pub fn read_process_statuses(items: &Vec<DynamoDBItem>, partition_key: &str) -> (r: Result<Vec<(String, bool)>, CoffeeShopError>)
    ensures
        (forall|i: int| 0 <= i < items@.len() ==> #[trigger] spec_process_status(item_view(items@[i]@), partition_key@) is Some)
            ==> (r matches Ok(v) && v@.len() == items@.len() && forall|i: int| 0 <= i < v@.len() ==> (
            spec_process_status(item_view(items@[i]@), partition_key@) == Some((#[trigger] v@[i].0@, v@[i].1)))),
        !(forall|i: int| 0 <= i < items@.len() ==> #[trigger] spec_process_status(item_view(items@[i]@), partition_key@) is Some)
            ==> (r matches Err(CoffeeShopError::AWSDynamoDBMalformedItem(m)) && m@ == malformed_item_message()),
{
    let n = items.len();
    let mut out: Vec<(String, bool)> = Vec::new();
    let mut i: usize = 0;
    while i < n
        invariant
            n == items@.len(),
            i <= n,
            out@.len() == i,
            forall|j: int| 0 <= j < i ==> #[trigger] spec_process_status(item_view(items@[j]@), partition_key@) is Some,
            forall|j: int| 0 <= j < i ==> spec_process_status(item_view(items@[j]@), partition_key@) == Some((#[trigger] out@[j].0@, out@[j].1)),
        decreases n - i,
    {
        match to_process_status(&items[i], partition_key) {
            Ok(p) => {
                out.push(p);
            },
            Err(e) => {
                return Err(e);
            },
        }
        i = i + 1;
    }
    Ok(out)
}

/// Whether a read result is what the stored result reads as (see
/// [`spec_process_result`]).
pub open spec fn reads_as(out: (String, StoredResult), m: Map<Seq<char>, AttrView>, partition_key: Seq<char>) -> bool {
    match spec_process_result(m, partition_key) {
        Some((t, ok, s, b, e)) => out.0@ == t && (if ok {
            out.1 matches StoredResult::Output { status, output } && status@ == s && output@ == b
        } else {
            out.1 matches StoredResult::Failure { status, error } && status@ == s && error@ == e
        }),
        None => false,
    }
}

/// Reads every fetched result; any malformed item fails the whole read.
#[verifier::loop_isolation(false)]
pub fn read_process_results(items: Vec<DynamoDBItem>, partition_key: &str) -> (r: Result<Vec<(String, StoredResult)>, CoffeeShopError>)
    ensures
        (forall|i: int| 0 <= i < items@.len() ==> #[trigger] spec_process_result(item_view(items@[i]@), partition_key@) is Some)
            ==> (r matches Ok(v) && v@.len() == items@.len() && forall|i: int| 0 <= i < v@.len() ==> reads_as(
            #[trigger] v@[i],
            item_view(items@[i]@),
            partition_key@,
        )),
        !(forall|i: int| 0 <= i < items@.len() ==> #[trigger] spec_process_result(item_view(items@[i]@), partition_key@) is Some)
            ==> (r matches Err(CoffeeShopError::AWSDynamoDBMalformedItem(m)) && m@ == malformed_item_message()),
{
    let ghost all = items@;
    let n = items.len();
    let mut out: Vec<(String, StoredResult)> = Vec::new();
    let mut rest = items;
    let mut i: usize = 0;
    while i < n
        invariant
            n == all.len(),
            i <= n,
            rest@ == all.subrange(i as int, n as int),
            out@.len() == i,
            forall|j: int| 0 <= j < i ==> #[trigger] spec_process_result(item_view(all[j]@), partition_key@) is Some,
            forall|j: int| 0 <= j < i ==> reads_as(#[trigger] out@[j], item_view(all[j]@), partition_key@),
        decreases n - i,
    {
        let item = rest.remove(0);
        assert(item == all[i as int]);
        let ghost sp = spec_process_result(item_view(all[i as int]@), partition_key@);
        match to_process_result(item, partition_key) {
            Ok(p) => {
                out.push(p);
            },
            Err(e) => {
                assert(sp is None);
                return Err(e);
            },
        }
        i = i + 1;
        assert(rest@ =~= all.subrange(i as int, n as int));
    }
    Ok(out)
}

} // verus!
