//! The exported error schema, the form in which errors travel between workers
//! and reach clients.
use vstd::prelude::*;
use crate::json::{Json, JsonModel, json_model, members_model, keys_sorted, object_insert, key_less, lemma_object_model, member};
use crate::text::{decimal, push_decimal, push_str};

verus! {

/// An HTTP status code, between 100 and 999.
#[derive(Clone, Copy, Debug, PartialEq, Eq, Structural)]
pub struct StatusCode {
    code: u16,
}

impl View for StatusCode {
    type V = u16;

    closed spec fn view(&self) -> u16 {
        self.code
    }
}

/// The reason phrase that the `http` crate gives for a status code, if it has
/// one.
pub uninterp spec fn canonical_reason_text(code: u16) -> Option<Seq<char>>;

/// Calls `http::StatusCode::canonical_reason` for `code`; the contract names
/// its result (a table of standard reason phrases) without spelling it out.
#[verifier::external_body]
fn canonical_reason(code: u16) -> (r: Option<&'static str>)
    ensures
        r matches Some(t) ==> canonical_reason_text(code) == Some(t@),
        r is None ==> canonical_reason_text(code) is None,
{
    match axum::http::StatusCode::from_u16(code) {
        Ok(c) => c.canonical_reason(),
        Err(_) => None,
    }
}

/// Appends a status's reason phrase, or its code in decimal where it has none.
pub fn push_reason_text(s: &mut String, reason: Option<&str>, code: u16)
    ensures
        final(s)@ == old(s)@ + match reason {
            Some(t) => t@,
            None => decimal(code as nat),
        },
{
    match reason {
        Some(t) => push_str(s, t),
        None => push_decimal(s, code as u64),
    }
}

impl StatusCode {
    #[verifier::type_invariant]
    spec fn in_range(self) -> bool {
        100 <= self.code <= 999
    }

    /// The status with this code, if it lies between 100 and 999.
    pub fn from_u16(code: u16) -> (r: Option<StatusCode>)
        ensures
            r matches Some(s) ==> s@ == code,
            r is Some <==> 100 <= code <= 999,
    {
        if 100 <= code && code <= 999 {
            Some(StatusCode { code })
        } else {
            None
        }
    }

    /// The numeric code.
    pub fn as_u16(&self) -> (r: u16)
        ensures
            r == self@,
            100 <= r <= 999,
    {
        proof {
            use_type_invariant(self);
        }
        self.code
    }

    pub fn ok() -> (r: StatusCode)
        ensures r@ == 200,
    { StatusCode { code: 200 } }

    pub fn accepted() -> (r: StatusCode)
        ensures r@ == 202,
    { StatusCode { code: 202 } }

    pub fn bad_request() -> (r: StatusCode)
        ensures r@ == 400,
    { StatusCode { code: 400 } }

    pub fn unauthorized() -> (r: StatusCode)
        ensures r@ == 401,
    { StatusCode { code: 401 } }

    pub fn forbidden() -> (r: StatusCode)
        ensures r@ == 403,
    { StatusCode { code: 403 } }

    pub fn not_found() -> (r: StatusCode)
        ensures r@ == 404,
    { StatusCode { code: 404 } }

    pub fn not_acceptable() -> (r: StatusCode)
        ensures r@ == 406,
    { StatusCode { code: 406 } }

    pub fn request_timeout() -> (r: StatusCode)
        ensures r@ == 408,
    { StatusCode { code: 408 } }

    pub fn payload_too_large() -> (r: StatusCode)
        ensures r@ == 413,
    { StatusCode { code: 413 } }

    pub fn unprocessable_entity() -> (r: StatusCode)
        ensures r@ == 422,
    { StatusCode { code: 422 } }

    pub fn too_many_requests() -> (r: StatusCode)
        ensures r@ == 429,
    { StatusCode { code: 429 } }

    pub fn internal_server_error() -> (r: StatusCode)
        ensures r@ == 500,
    { StatusCode { code: 500 } }

    pub fn bad_gateway() -> (r: StatusCode)
        ensures r@ == 502,
    { StatusCode { code: 502 } }

    /// The reason phrase of the status, or its code in decimal when it has
    /// none.
    pub open spec fn reason_or_code(self) -> Seq<char> {
        match canonical_reason_text(self@) {
            Some(t) => t,
            None => decimal(self@ as nat),
        }
    }

    /// Appends the reason phrase of the status, or its code in decimal.
    pub fn push_reason_or_code(&self, s: &mut String)
        ensures
            final(s)@ == old(s)@ + self.reason_or_code(),
    {
        let code = self.as_u16();
        push_reason_text(s, canonical_reason(code), code);
    }
}

/// The error type that every error of the shop can be exported as: since
/// workers store errors for waiters to pick up, errors need one standard,
/// serializable form.
#[derive(Debug)]
pub struct ErrorSchema {
    /// The HTTP status code to send to the client in the response.
    pub status_code: StatusCode,
    /// An identifier for the type of error that occurred, in PascalCase, such
    /// as `InvalidConfiguration`.
    pub error: String,
    /// Additional details, returned to the client as they are.
    pub details: Option<Json>,
}

/// The content of an [`ErrorSchema`].
pub struct ErrorSchemaView {
    pub status_code: u16,
    pub error: Seq<char>,
    pub details: Option<JsonModel>,
}

impl View for ErrorSchema {
    type V = ErrorSchemaView;

    open spec fn view(&self) -> ErrorSchemaView {
        ErrorSchemaView {
            status_code: self.status_code@,
            error: self.error@,
            details: match self.details {
                Some(d) => Some(d@),
                None => None,
            },
        }
    }
}

/// The error type for the coffee machine that downstream implementers supply.
pub type CoffeeMachineError = ErrorSchema;

/// The JSON form of an error schema: an object with its `details` (or null),
/// its `error` and its numeric `status_code`.
pub open spec fn schema_json(s: ErrorSchemaView) -> JsonModel {
    JsonModel::Object(seq![
        (seq!['d', 'e', 't', 'a', 'i', 'l', 's'], match s.details { Some(d) => d, None => JsonModel::Null }),
        (seq!['e', 'r', 'r', 'o', 'r'], JsonModel::Str(s.error)),
        (seq!['s', 't', 'a', 't', 'u', 's', '_', 'c', 'o', 'd', 'e'], JsonModel::Number(decimal(s.status_code as nat))),
    ])
}

/// `{reason}: {error}`, the display text of a schema; the reason is the
/// status's reason phrase, or its code when it has none.
pub open spec fn schema_display(s: ErrorSchemaView) -> Seq<char> {
    (match canonical_reason_text(s.status_code) {
        Some(t) => t,
        None => decimal(s.status_code as nat),
    }) + seq![':', ' '] + s.error
}

fn key_from_chars(c: &[char]) -> (r: String)
    ensures
        r@ == c@,
{
    let mut s = String::new();
    let mut i: usize = 0;
    while i < c.len()
        invariant
            i <= c@.len(),
            s@ == c@.subrange(0, i as int),
        decreases c@.len() - i,
    {
        crate::text::push_char(&mut s, c[i]);
        assert(c@.subrange(0, i + 1) =~= c@.subrange(0, i as int).push(c@[i as int]));
        i = i + 1;
    }
    assert(c@.subrange(0, c@.len() as int) =~= c@);
    s
}

impl ErrorSchema {
    /// A new schema.
    pub fn new(status_code: StatusCode, error: String, details: Option<Json>) -> (r: ErrorSchema)
        ensures
            r.status_code == status_code,
            r.error@ == error@,
            r@.details == (match details { Some(d) => Some(d@), None => None }),
    {
        ErrorSchema { status_code, error, details }
    }

    /// A copy of this schema.
    pub fn duplicate(&self) -> (r: ErrorSchema)
        ensures
            r@ == self@,
    {
        let details = match &self.details {
            Some(d) => Some(d.duplicate()),
            None => None,
        };
        ErrorSchema { status_code: self.status_code, error: self.error.clone(), details }
    }

    /// The display text, `{reason}: {error}`.
    pub fn to_string(&self) -> (r: String)
        ensures
            r@ == schema_display(self@),
    {
        let mut s = String::new();
        self.status_code.push_reason_or_code(&mut s);
        push_str(&mut s, ": ");
        push_str(&mut s, self.error.as_str());
        proof {
            reveal_strlit(": ");
        }
        assert(s@ =~= schema_display(self@));
        s
    }

    /// The JSON form of the schema, as it is serialized.
    pub fn to_json(&self) -> (r: Json)
        ensures
            r@ == schema_json(self@),
    {
        let details = match &self.details {
            Some(d) => d.duplicate(),
            None => Json::Null,
        };
        let mut members: Vec<(String, Json)> = Vec::new();
        members.push((key_from_chars(&['d', 'e', 't', 'a', 'i', 'l', 's']), details));
        members.push((key_from_chars(&['e', 'r', 'r', 'o', 'r']), Json::Str(self.error.clone())));
        let mut code = String::new();
        push_decimal(&mut code, self.status_code.as_u16() as u64);
        members.push((key_from_chars(&['s', 't', 'a', 't', 'u', 's', '_', 'c', 'o', 'd', 'e']), Json::Number(code)));
        proof {
            lemma_object_model(members);
            let m = members_model(members@);
            assert(m =~= match schema_json(self@) { JsonModel::Object(x) => x, _ => Seq::empty() });
        }
        Json::Object(members)
    }
}

} // verus!

verus! {

impl ErrorSchema {
    /// Appends the `Debug` text of the schema, as the derived formatting
    /// writes it.
    pub fn push_debug(&self, s: &mut String)
        ensures
            final(s)@ == old(s)@ + crate::errors::shop_error::schema_debug(self@),
    {
        push_str(s, "ErrorSchema { status_code: ");
        push_decimal(s, self.status_code.as_u16() as u64);
        push_str(s, ", error: ");
        crate::json::push_str_debug(s, self.error.as_str());
        push_str(s, ", details: ");
        match &self.details {
            Some(d) => {
                push_str(s, "Some(");
                d.push_debug(s);
                push_str(s, ")");
            },
            None => {
                push_str(s, "None");
            },
        }
        push_str(s, " }");
        assert(final(s)@ =~= old(s)@ + crate::errors::shop_error::schema_debug(self@));
    }
}

impl PartialEq for ErrorSchema {
    fn eq(&self, other: &Self) -> (r: bool) {
        let details = match (&self.details, &other.details) {
            (Some(a), Some(b)) => a.equals(b),
            (None, None) => true,
            _ => false,
        };
        let r = self.status_code == other.status_code && self.error == other.error && details;
        r
    }
}

impl vstd::std_specs::cmp::PartialEqSpecImpl for ErrorSchema {
    open spec fn obeys_eq_spec() -> bool {
        true
    }

    open spec fn eq_spec(&self, other: &ErrorSchema) -> bool {
        self@ == other@
    }
}

} // verus!

verus! {

/// The JSON form of a schema is an object with sorted keys that reads back
/// what the schema holds: its details (or null) under `details`, its
/// identifier under `error` and its numeric code under `status_code`.
pub proof fn law_schema_json_reads_back(s: ErrorSchemaView)
    ensures
        schema_json(s) matches JsonModel::Object(m) && keys_sorted(m) && m.len() == 3
            && member(m, seq!['d', 'e', 't', 'a', 'i', 'l', 's']) == Some(
            match s.details {
                Some(d) => d,
                None => JsonModel::Null,
            },
        ) && member(m, seq!['e', 'r', 'r', 'o', 'r']) == Some(JsonModel::Str(s.error)) && member(
            m,
            seq!['s', 't', 'a', 't', 'u', 's', '_', 'c', 'o', 'd', 'e'],
        ) == Some(JsonModel::Number(decimal(s.status_code as nat))),
{
    if let JsonModel::Object(m) = schema_json(s) {
        let k0 = seq!['d', 'e', 't', 'a', 'i', 'l', 's'];
        let k1 = seq!['e', 'r', 'r', 'o', 'r'];
        let k2 = seq!['s', 't', 'a', 't', 'u', 's', '_', 'c', 'o', 'd', 'e'];
        assert(key_less(k0, k1));
        assert(key_less(k1, k2));
        assert(key_less(k0, k2));
        assert(k1 != k0 && k2 != k0 && k2 != k1) by {
            assert(k1[0] != k0[0]);
            assert(k2[0] != k0[0]);
            assert(k2[0] != k1[0]);
        }
        assert(m[0].0 == k0 && m[1].0 == k1 && m[2].0 == k2);
        assert(keys_sorted(m));
        reveal_with_fuel(member, 4);
        assert(m.drop_first()[0].0 == k1);
        assert(m.drop_first().drop_first()[0].0 == k2);
        assert(member(m, k0) == Some(m[0].1));
        assert(member(m, k1) == Some(m[1].1));
        assert(member(m, k2) == Some(m[2].1));
    }
}

} // verus!
