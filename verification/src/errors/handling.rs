//! Conversion of request rejections into shop errors, which are answered as
//! JSON responses.
use vstd::prelude::*;
use crate::errors::shop_error::CoffeeShopError;
use crate::json::{push_str_debug, str_debug_text};
use crate::text::push_str;

verus! {

/// A rejection of a request's query string, with the text of its body.
#[derive(Debug)]
pub enum QueryRejection {
    FailedToDeserializeQueryString(String),
    Other(String),
}

/// A rejection of a request's JSON body, with the text of its body.
#[derive(Debug)]
pub enum JsonRejection {
    BytesRejection(String),
    JsonDataError(String),
    JsonSyntaxError(String),
    MissingJsonContentType(String),
    Other(String),
}

/// Conversion of an error into a [`CoffeeShopError`].
pub trait IntoCoffeeShopError: Sized {
    /// Converts the error into a [`CoffeeShopError`].
    fn into_coffeeshop_error(self) -> CoffeeShopError;
}

impl IntoCoffeeShopError for CoffeeShopError {
    /// A shop error converts into itself.
    fn into_coffeeshop_error(self) -> (r: CoffeeShopError)
        ensures
            r == self,
    {
        self
    }
}

impl IntoCoffeeShopError for QueryRejection {
    /// A query string that cannot be deserialized is reported with the
    /// rejection's text; any other rejection as unknown, with its text quoted.
    fn into_coffeeshop_error(self) -> (r: CoffeeShopError)
        ensures
            self matches QueryRejection::FailedToDeserializeQueryString(t) ==> (
                r matches CoffeeShopError::InvalidQueryOptions(m) && m@ == t@),
            self matches QueryRejection::Other(t) ==> (r matches CoffeeShopError::InvalidQueryOptions(m)
                && m@ == "Unknown query rejection: "@ + str_debug_text(t@)),
    {
        match self {
            QueryRejection::FailedToDeserializeQueryString(t) => CoffeeShopError::InvalidQueryOptions(t),
            QueryRejection::Other(t) => {
                let mut m = String::new();
                push_str(&mut m, "Unknown query rejection: ");
                push_str_debug(&mut m, t.as_str());
                CoffeeShopError::InvalidQueryOptions(m)
            },
        }
    }
}

impl IntoCoffeeShopError for JsonRejection {
    /// A body that cannot be buffered or that does not fit the expected data
    /// is an invalid payload; invalid JSON syntax a malformed payload; a
    /// missing JSON content type an unacceptable `content-type` header; any
    /// other rejection an unknown invalid payload.
    fn into_coffeeshop_error(self) -> (r: CoffeeShopError)
        ensures
            self matches JsonRejection::BytesRejection(t) ==> (r matches CoffeeShopError::InvalidPayload {
                kind,
                message,
            } && kind@ == "BytesRejection"@ && message@ == "Failed to buffer body: "@ + t@),
            self matches JsonRejection::JsonDataError(t) ==> (r matches CoffeeShopError::InvalidPayload {
                kind,
                message,
            } && kind@ == "JsonDataError"@ && message@ == t@),
            self matches JsonRejection::JsonSyntaxError(t) ==> (r matches CoffeeShopError::MalformedJsonPayload(m)
                && m@ == "Invalid JSON syntax: "@ + t@),
            self matches JsonRejection::MissingJsonContentType(t) ==> (r matches CoffeeShopError::InvalidHeader {
                key,
                message,
            } && key@ == "content-type"@ && message@ == "This endpoint only accepts JSON payload; "@ + t@
                + ". Please check your headers."@),
            self matches JsonRejection::Other(t) ==> (r matches CoffeeShopError::InvalidPayload { kind, message }
                && kind@ == "UnknownJsonRejection"@ && message@ == "Unknown JSON rejection: "@ + str_debug_text(
                t@,
            )),
    {
        match self {
            JsonRejection::BytesRejection(t) => {
                let mut m = String::new();
                push_str(&mut m, "Failed to buffer body: ");
                push_str(&mut m, t.as_str());
                CoffeeShopError::InvalidPayload { kind: String::from_str("BytesRejection"), message: m }
            },
            JsonRejection::JsonDataError(t) => CoffeeShopError::InvalidPayload {
                kind: String::from_str("JsonDataError"),
                message: t,
            },
            JsonRejection::JsonSyntaxError(t) => {
                let mut m = String::new();
                push_str(&mut m, "Invalid JSON syntax: ");
                push_str(&mut m, t.as_str());
                CoffeeShopError::MalformedJsonPayload(m)
            },
            JsonRejection::MissingJsonContentType(t) => {
                let mut m = String::new();
                push_str(&mut m, "This endpoint only accepts JSON payload; ");
                push_str(&mut m, t.as_str());
                push_str(&mut m, ". Please check your headers.");
                CoffeeShopError::InvalidHeader { key: String::from_str("content-type"), message: m }
            },
            JsonRejection::Other(t) => {
                let mut m = String::new();
                push_str(&mut m, "Unknown JSON rejection: ");
                push_str_debug(&mut m, t.as_str());
                CoffeeShopError::InvalidPayload { kind: String::from_str("UnknownJsonRejection"), message: m }
            },
        }
    }
}

} // verus!
