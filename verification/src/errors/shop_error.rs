//! The error type of the shop.
use vstd::prelude::*;
use crate::errors::schema::{ErrorSchema, ErrorSchemaView, StatusCode, schema_json};
use crate::json::{Json, JsonModel, debug_text, str_debug_text, lemma_object_model, members_model};
use crate::net::{IpAddr, SocketAddr, ip_text, socket_addr_text, push_ip, push_socket_addr};
use crate::text::{decimal, push_decimal, push_str};
use crate::time::{Duration, duration_debug_text};

verus! {

/// What the shop keeps of an I/O error: the name of its kind (such as
/// `AlreadyExists`), the kind's description (such as `entity already
/// exists`) and the error's own message.
#[derive(Debug)]
pub struct IoError {
    pub kind_name: String,
    pub kind_text: String,
    pub message: String,
}

/// The error type of the shop.
#[derive(Debug)]
pub enum CoffeeShopError {
    InvalidConfiguration { field: String, message: String },
    InvalidMulticastAddress(IpAddr),
    InvalidMulticastMessage { data: Vec<u8>, addr: String, error: String },
    InvalidHeader { key: String, message: String },
    InvalidRoute(String),
    InvalidQueryOptions(String),
    MalformedJsonPayload(String),
    InvalidPayload { kind: String, message: String },
    HTTPServerError(IoError),
    ListenerCreationFailure(String, SocketAddr),
    ResultBinaryConversionError(String),
    ResultBinaryCompressionError(String),
    TempDirCreationFailure(String),
    TempFileAccessFailure { path: String, reason: String },
    NonUniqueTemporaryFile,
    Base64DecodingError(String),
    Base64EncodingOversize(usize),
    IOError(IoError),
    MulticastIOError(IoError),
    RetrieveTimeout(Duration),
    AWSCredentialsError(String),
    AWSConfigIncomplete(String),
    AWSDynamoDBTableDoesNotExist(String),
    AWSDynamoDBMalformedItem(String),
    AWSDynamoDBRateLimitExceeded,
    AWSQueueDoesNotExist(String),
    AWSSQSInvalidMessage(String),
    AWSSQSQueueEmpty(Duration),
    AWSSQSSendMessageError(String),
    AWSSQSReceiveMessageError(String),
    AWSSQSStagedReceiptAlreadyCompleted(String),
    UnexpectedAWSResponse(String),
    AWSSdkError(String),
    ProcessingError(ErrorSchema),
    ResultAlreadySet,
    ResultNotFound(String),
    TicketNotFound(String),
    ErrorSchema(ErrorSchema),
}

/// The `Debug` text of an error schema, as the derived formatting writes it.
pub open spec fn schema_debug(s: ErrorSchemaView) -> Seq<char> {
    "ErrorSchema { status_code: "@ + decimal(s.status_code as nat) + ", error: "@ + str_debug_text(s.error)
        + ", details: "@ + (match s.details {
        Some(d) => "Some("@ + debug_text(d) + ")"@,
        None => "None"@,
    }) + " }"@
}

/// The details of an error: an object whose `message` is the given text.
pub open spec fn message_details(text: Seq<char>) -> JsonModel {
    JsonModel::Object(seq![("message"@, JsonModel::Str(text))])
}

/// The details of an unacceptable header: its name and reason under
/// `headers`, and a fixed `message`.
pub open spec fn header_details(key: Seq<char>, message: Seq<char>) -> JsonModel {
    JsonModel::Object(seq![
        ("headers"@, JsonModel::Object(seq![(key, JsonModel::Str(message))])),
        ("message"@, JsonModel::Str("Unacceptable headers provided; please check the following headers."@)),
    ])
}

impl CoffeeShopError {
    /// The position of the variant in the declaration; variants have distinct
    /// names, so two errors have the same kind exactly when these agree.
    pub open spec fn spec_kind_index(&self) -> nat {
        match self {
            CoffeeShopError::InvalidConfiguration { .. } => 0,
            CoffeeShopError::InvalidMulticastAddress(..) => 1,
            CoffeeShopError::InvalidMulticastMessage { .. } => 2,
            CoffeeShopError::InvalidHeader { .. } => 3,
            CoffeeShopError::InvalidRoute(..) => 4,
            CoffeeShopError::InvalidQueryOptions(..) => 5,
            CoffeeShopError::MalformedJsonPayload(..) => 6,
            CoffeeShopError::InvalidPayload { .. } => 7,
            CoffeeShopError::HTTPServerError(..) => 8,
            CoffeeShopError::ListenerCreationFailure(..) => 9,
            CoffeeShopError::ResultBinaryConversionError(..) => 10,
            CoffeeShopError::ResultBinaryCompressionError(..) => 11,
            CoffeeShopError::TempDirCreationFailure(..) => 12,
            CoffeeShopError::TempFileAccessFailure { .. } => 13,
            CoffeeShopError::NonUniqueTemporaryFile => 14,
            CoffeeShopError::Base64DecodingError(..) => 15,
            CoffeeShopError::Base64EncodingOversize(..) => 16,
            CoffeeShopError::IOError(..) => 17,
            CoffeeShopError::MulticastIOError(..) => 18,
            CoffeeShopError::RetrieveTimeout(..) => 19,
            CoffeeShopError::AWSCredentialsError(..) => 20,
            CoffeeShopError::AWSConfigIncomplete(..) => 21,
            CoffeeShopError::AWSDynamoDBTableDoesNotExist(..) => 22,
            CoffeeShopError::AWSDynamoDBMalformedItem(..) => 23,
            CoffeeShopError::AWSDynamoDBRateLimitExceeded => 24,
            CoffeeShopError::AWSQueueDoesNotExist(..) => 25,
            CoffeeShopError::AWSSQSInvalidMessage(..) => 26,
            CoffeeShopError::AWSSQSQueueEmpty(..) => 27,
            CoffeeShopError::AWSSQSSendMessageError(..) => 28,
            CoffeeShopError::AWSSQSReceiveMessageError(..) => 29,
            CoffeeShopError::AWSSQSStagedReceiptAlreadyCompleted(..) => 30,
            CoffeeShopError::UnexpectedAWSResponse(..) => 31,
            CoffeeShopError::AWSSdkError(..) => 32,
            CoffeeShopError::ProcessingError(..) => 33,
            CoffeeShopError::ResultAlreadySet => 34,
            CoffeeShopError::ResultNotFound(..) => 35,
            CoffeeShopError::TicketNotFound(..) => 36,
            CoffeeShopError::ErrorSchema(..) => 37,
        }
    }

    /// The kind of the error: the name of its variant.
    pub open spec fn spec_kind(&self) -> &'static str {
        match self {
            CoffeeShopError::InvalidConfiguration { .. } => "InvalidConfiguration",
            CoffeeShopError::InvalidMulticastAddress(..) => "InvalidMulticastAddress",
            CoffeeShopError::InvalidMulticastMessage { .. } => "InvalidMulticastMessage",
            CoffeeShopError::InvalidHeader { .. } => "InvalidHeader",
            CoffeeShopError::InvalidRoute(..) => "InvalidRoute",
            CoffeeShopError::InvalidQueryOptions(..) => "InvalidQueryOptions",
            CoffeeShopError::MalformedJsonPayload(..) => "MalformedJsonPayload",
            CoffeeShopError::InvalidPayload { .. } => "InvalidPayload",
            CoffeeShopError::HTTPServerError(..) => "HTTPServerError",
            CoffeeShopError::ListenerCreationFailure(..) => "ListenerCreationFailure",
            CoffeeShopError::ResultBinaryConversionError(..) => "ResultBinaryConversionError",
            CoffeeShopError::ResultBinaryCompressionError(..) => "ResultBinaryCompressionError",
            CoffeeShopError::TempDirCreationFailure(..) => "TempDirCreationFailure",
            CoffeeShopError::TempFileAccessFailure { .. } => "TempFileAccessFailure",
            CoffeeShopError::NonUniqueTemporaryFile => "NonUniqueTemporaryFile",
            CoffeeShopError::Base64DecodingError(..) => "Base64DecodingError",
            CoffeeShopError::Base64EncodingOversize(..) => "Base64EncodingOversize",
            CoffeeShopError::IOError(..) => "IOError",
            CoffeeShopError::MulticastIOError(..) => "MulticastIOError",
            CoffeeShopError::RetrieveTimeout(..) => "RetrieveTimeout",
            CoffeeShopError::AWSCredentialsError(..) => "AWSCredentialsError",
            CoffeeShopError::AWSConfigIncomplete(..) => "AWSConfigIncomplete",
            CoffeeShopError::AWSDynamoDBTableDoesNotExist(..) => "AWSDynamoDBTableDoesNotExist",
            CoffeeShopError::AWSDynamoDBMalformedItem(..) => "AWSDynamoDBMalformedItem",
            CoffeeShopError::AWSDynamoDBRateLimitExceeded => "AWSDynamoDBRateLimitExceeded",
            CoffeeShopError::AWSQueueDoesNotExist(..) => "AWSQueueDoesNotExist",
            CoffeeShopError::AWSSQSInvalidMessage(..) => "AWSSQSInvalidMessage",
            CoffeeShopError::AWSSQSQueueEmpty(..) => "AWSSQSQueueEmpty",
            CoffeeShopError::AWSSQSSendMessageError(..) => "AWSSQSSendMessageError",
            CoffeeShopError::AWSSQSReceiveMessageError(..) => "AWSSQSReceiveMessageError",
            CoffeeShopError::AWSSQSStagedReceiptAlreadyCompleted(..) => "AWSSQSStagedReceiptAlreadyCompleted",
            CoffeeShopError::UnexpectedAWSResponse(..) => "UnexpectedAWSResponse",
            CoffeeShopError::AWSSdkError(..) => "AWSSdkError",
            CoffeeShopError::ProcessingError(..) => "ProcessingError",
            CoffeeShopError::ResultAlreadySet => "ResultAlreadySet",
            CoffeeShopError::ResultNotFound(..) => "ResultNotFound",
            CoffeeShopError::TicketNotFound(..) => "TicketNotFound",
            CoffeeShopError::ErrorSchema(..) => "ErrorSchema",
        }
    }

    /// The HTTP status code that the error is answered with.
    pub open spec fn spec_status_code(&self) -> u16 {
        match self {
            CoffeeShopError::AWSConfigIncomplete(..) => 401,
            CoffeeShopError::AWSQueueDoesNotExist(..) => 502,
            CoffeeShopError::InvalidConfiguration { .. } => 500,
            CoffeeShopError::InvalidHeader { .. } => 406,
            CoffeeShopError::InvalidMulticastAddress(..) => 400,
            CoffeeShopError::InvalidMulticastMessage { .. } => 400,
            CoffeeShopError::InvalidRoute(..) => 404,
            CoffeeShopError::InvalidQueryOptions(..) => 400,
            CoffeeShopError::InvalidPayload { .. } => 422,
            CoffeeShopError::MalformedJsonPayload(..) => 400,
            CoffeeShopError::RetrieveTimeout(..) => 408,
            CoffeeShopError::Base64EncodingOversize(..) => 413,
            CoffeeShopError::ProcessingError(s) => s.status_code@,
            CoffeeShopError::ErrorSchema(s) => s.status_code@,
            CoffeeShopError::AWSDynamoDBMalformedItem(..) => 502,
            _ => 500,
        }
    }

    /// The display text of the error.
    pub open spec fn spec_to_string(&self) -> Seq<char> {
        match self {
            CoffeeShopError::InvalidConfiguration { field, message } =>
                "Invalid configuration for "@ + field@ + ": "@ + message@,
            CoffeeShopError::InvalidMulticastAddress(ip) => ip_text(*ip) + " is not a valid multicast address."@,
            CoffeeShopError::InvalidMulticastMessage { addr, .. } =>
                "Received an invalid MulticastMessage from "@ + addr@ + "."@,
            CoffeeShopError::InvalidHeader { key, message } => "Header "@ + key@ + " is not acceptable: "@ + message@,
            CoffeeShopError::InvalidRoute(uri) =>
                "Endpoint "@ + uri@ + " is not found on this server. Please consult the API documentation."@,
            CoffeeShopError::InvalidQueryOptions(m) => "Invalid URL query options: "@ + m@,
            CoffeeShopError::MalformedJsonPayload(m) => "Malformed JSON payload; could not be parsed: "@ + m@,
            CoffeeShopError::InvalidPayload { kind, message } =>
                "Failed to parse the payload due to "@ + kind@ + ": "@ + message@,
            CoffeeShopError::HTTPServerError(e) => "HTTP Host failed: "@ + e.kind_text@,
            CoffeeShopError::ListenerCreationFailure(m, a) =>
                "Failed to bind listener to socket address "@ + socket_addr_text(*a) + ": "@ + m@,
            CoffeeShopError::ResultBinaryConversionError(m) => "Could not serialize the payload: "@ + m@,
            CoffeeShopError::ResultBinaryCompressionError(m) => "Could not compress/decompress the payload: "@ + m@,
            CoffeeShopError::TempDirCreationFailure(m) => "Temporary directory could not be created: "@ + m@,
            CoffeeShopError::TempFileAccessFailure { path, reason } =>
                "Temporary file access failure at "@ + path@ + ": "@ + reason@,
            CoffeeShopError::NonUniqueTemporaryFile =>
                "The path for a temporary file is non-uniquely generated; this is improbable unless cleanup is not working. Please verify."@,
            CoffeeShopError::Base64DecodingError(m) => "Failed to decode from Base64: "@ + m@,
            CoffeeShopError::Base64EncodingOversize(n) =>
                "The requested payload is "@ + decimal(*n as nat)
                    + " bytes in size, exceeding the limit; try chunking the payload and retry the request."@,
            CoffeeShopError::IOError(e) => "An IOError::"@ + e.kind_text@ + " had occurred: "@ + e.message@,
            CoffeeShopError::MulticastIOError(e) =>
                "An IOError::"@ + e.kind_text@ + " had occurred during multicast operations: "@ + e.message@,
            CoffeeShopError::RetrieveTimeout(d) =>
                "Timed out awaiting results after "@ + duration_debug_text(d@.0, d@.1) + " seconds"@,
            CoffeeShopError::AWSCredentialsError(m) => "An error relating to AWS IAM credentials occurred: "@ + m@,
            CoffeeShopError::AWSConfigIncomplete(m) => "AWS Configuration incomplete: "@ + m@,
            CoffeeShopError::AWSDynamoDBTableDoesNotExist(m) =>
                "The specified AWS DynamoDB Table does not exists. Please verify the table: "@ + m@,
            CoffeeShopError::AWSDynamoDBMalformedItem(m) => "DynamoDB item is found malformed: "@ + m@,
            CoffeeShopError::AWSDynamoDBRateLimitExceeded => "AWS DynamoDB Provisioned Throughput Exceeded."@,
            CoffeeShopError::AWSQueueDoesNotExist(m) =>
                "The specified AWS SQS queue URL does not exists. Please verify the URL: "@ + m@,
            CoffeeShopError::AWSSQSInvalidMessage(m) =>
                "AWS SQS Rejected the message: "@ + m@ + "; please verify the payload and try again."@,
            CoffeeShopError::AWSSQSQueueEmpty(d) =>
                "AWS SQS Queue is empty after waiting for "@ + duration_debug_text(d@.0, d@.1) + "."@,
            CoffeeShopError::AWSSQSSendMessageError(m) => "Unexpected AWS SQS Send Message Error: "@ + m@,
            CoffeeShopError::AWSSQSReceiveMessageError(m) => "Unexpected AWS SQS Receive Message Error: "@ + m@,
            CoffeeShopError::AWSSQSStagedReceiptAlreadyCompleted(m) =>
                "Message from AWS SQS had already been completed, and cannot be "@ + m@ + " again."@,
            CoffeeShopError::UnexpectedAWSResponse(m) => "AWS responded with unexpected data: "@ + m@,
            CoffeeShopError::AWSSdkError(m) => "AWS SDK Error: "@ + m@,
            CoffeeShopError::ProcessingError(s) => "Error during processing: "@ + crate::errors::schema::schema_display(s@),
            CoffeeShopError::ResultAlreadySet => "Result is already set, cannot set again."@,
            CoffeeShopError::ResultNotFound(t) =>
                "The ticket "@ + t@ + " does not have a result. It could have been purged, or the ticket is invalid."@,
            CoffeeShopError::TicketNotFound(t) => "The ticket "@ + t@ + " was not found."@,
            CoffeeShopError::ErrorSchema(s) => "Upstream worker reported an error: "@ + schema_debug(s@),
        }
    }

    /// The exported form of the error: processing errors and upstream errors
    /// are their own schema; an unacceptable header is reported with its name
    /// and reason; any other error with its display text as `message`. The
    /// status is that of [`Self::spec_status_code`], the `error` its kind.
    pub open spec fn spec_error_schema(&self) -> ErrorSchemaView {
        match self {
            CoffeeShopError::ProcessingError(s) => s@,
            CoffeeShopError::ErrorSchema(s) => s@,
            CoffeeShopError::InvalidHeader { key, message } => ErrorSchemaView {
                status_code: self.spec_status_code(),
                error: self.spec_kind()@,
                details: Some(header_details(key@, message@)),
            },
            _ => ErrorSchemaView {
                status_code: self.spec_status_code(),
                error: self.spec_kind()@,
                details: Some(message_details(self.spec_to_string())),
            },
        }
    }

    /// The JSON form of the error: that of its exported schema.
    pub open spec fn spec_as_json(&self) -> JsonModel {
        schema_json(self.spec_error_schema())
    }

    /// Two errors are equal when they have the same kind, or either is an
    /// upstream error (an error that travelled as a schema has lost its kind),
    /// and their JSON forms agree.
    pub open spec fn spec_eq(&self, other: &CoffeeShopError) -> bool {
        (self.spec_kind_index() == other.spec_kind_index() || self is ErrorSchema || other is ErrorSchema)
            && self.spec_as_json() == other.spec_as_json()
    }
}

} // verus!

verus! {

impl CoffeeShopError {
    /// The position of the variant, as [`Self::spec_kind_index`] gives it.
    pub fn kind_index(&self) -> (r: u8)
        ensures
            r == self.spec_kind_index(),
    {
        match self {
            CoffeeShopError::InvalidConfiguration { .. } => 0,
            CoffeeShopError::InvalidMulticastAddress(..) => 1,
            CoffeeShopError::InvalidMulticastMessage { .. } => 2,
            CoffeeShopError::InvalidHeader { .. } => 3,
            CoffeeShopError::InvalidRoute(..) => 4,
            CoffeeShopError::InvalidQueryOptions(..) => 5,
            CoffeeShopError::MalformedJsonPayload(..) => 6,
            CoffeeShopError::InvalidPayload { .. } => 7,
            CoffeeShopError::HTTPServerError(..) => 8,
            CoffeeShopError::ListenerCreationFailure(..) => 9,
            CoffeeShopError::ResultBinaryConversionError(..) => 10,
            CoffeeShopError::ResultBinaryCompressionError(..) => 11,
            CoffeeShopError::TempDirCreationFailure(..) => 12,
            CoffeeShopError::TempFileAccessFailure { .. } => 13,
            CoffeeShopError::NonUniqueTemporaryFile => 14,
            CoffeeShopError::Base64DecodingError(..) => 15,
            CoffeeShopError::Base64EncodingOversize(..) => 16,
            CoffeeShopError::IOError(..) => 17,
            CoffeeShopError::MulticastIOError(..) => 18,
            CoffeeShopError::RetrieveTimeout(..) => 19,
            CoffeeShopError::AWSCredentialsError(..) => 20,
            CoffeeShopError::AWSConfigIncomplete(..) => 21,
            CoffeeShopError::AWSDynamoDBTableDoesNotExist(..) => 22,
            CoffeeShopError::AWSDynamoDBMalformedItem(..) => 23,
            CoffeeShopError::AWSDynamoDBRateLimitExceeded => 24,
            CoffeeShopError::AWSQueueDoesNotExist(..) => 25,
            CoffeeShopError::AWSSQSInvalidMessage(..) => 26,
            CoffeeShopError::AWSSQSQueueEmpty(..) => 27,
            CoffeeShopError::AWSSQSSendMessageError(..) => 28,
            CoffeeShopError::AWSSQSReceiveMessageError(..) => 29,
            CoffeeShopError::AWSSQSStagedReceiptAlreadyCompleted(..) => 30,
            CoffeeShopError::UnexpectedAWSResponse(..) => 31,
            CoffeeShopError::AWSSdkError(..) => 32,
            CoffeeShopError::ProcessingError(..) => 33,
            CoffeeShopError::ResultAlreadySet => 34,
            CoffeeShopError::ResultNotFound(..) => 35,
            CoffeeShopError::TicketNotFound(..) => 36,
            CoffeeShopError::ErrorSchema(..) => 37,
        }
    }

    /// The kind of the error as a string: the name of its variant.
    pub fn kind(&self) -> (r: &'static str)
        ensures
            r == self.spec_kind(),
    {
        match self {
            CoffeeShopError::InvalidConfiguration { .. } => "InvalidConfiguration",
            CoffeeShopError::InvalidMulticastAddress(..) => "InvalidMulticastAddress",
            CoffeeShopError::InvalidMulticastMessage { .. } => "InvalidMulticastMessage",
            CoffeeShopError::InvalidHeader { .. } => "InvalidHeader",
            CoffeeShopError::InvalidRoute(..) => "InvalidRoute",
            CoffeeShopError::InvalidQueryOptions(..) => "InvalidQueryOptions",
            CoffeeShopError::MalformedJsonPayload(..) => "MalformedJsonPayload",
            CoffeeShopError::InvalidPayload { .. } => "InvalidPayload",
            CoffeeShopError::HTTPServerError(..) => "HTTPServerError",
            CoffeeShopError::ListenerCreationFailure(..) => "ListenerCreationFailure",
            CoffeeShopError::ResultBinaryConversionError(..) => "ResultBinaryConversionError",
            CoffeeShopError::ResultBinaryCompressionError(..) => "ResultBinaryCompressionError",
            CoffeeShopError::TempDirCreationFailure(..) => "TempDirCreationFailure",
            CoffeeShopError::TempFileAccessFailure { .. } => "TempFileAccessFailure",
            CoffeeShopError::NonUniqueTemporaryFile => "NonUniqueTemporaryFile",
            CoffeeShopError::Base64DecodingError(..) => "Base64DecodingError",
            CoffeeShopError::Base64EncodingOversize(..) => "Base64EncodingOversize",
            CoffeeShopError::IOError(..) => "IOError",
            CoffeeShopError::MulticastIOError(..) => "MulticastIOError",
            CoffeeShopError::RetrieveTimeout(..) => "RetrieveTimeout",
            CoffeeShopError::AWSCredentialsError(..) => "AWSCredentialsError",
            CoffeeShopError::AWSConfigIncomplete(..) => "AWSConfigIncomplete",
            CoffeeShopError::AWSDynamoDBTableDoesNotExist(..) => "AWSDynamoDBTableDoesNotExist",
            CoffeeShopError::AWSDynamoDBMalformedItem(..) => "AWSDynamoDBMalformedItem",
            CoffeeShopError::AWSDynamoDBRateLimitExceeded => "AWSDynamoDBRateLimitExceeded",
            CoffeeShopError::AWSQueueDoesNotExist(..) => "AWSQueueDoesNotExist",
            CoffeeShopError::AWSSQSInvalidMessage(..) => "AWSSQSInvalidMessage",
            CoffeeShopError::AWSSQSQueueEmpty(..) => "AWSSQSQueueEmpty",
            CoffeeShopError::AWSSQSSendMessageError(..) => "AWSSQSSendMessageError",
            CoffeeShopError::AWSSQSReceiveMessageError(..) => "AWSSQSReceiveMessageError",
            CoffeeShopError::AWSSQSStagedReceiptAlreadyCompleted(..) => "AWSSQSStagedReceiptAlreadyCompleted",
            CoffeeShopError::UnexpectedAWSResponse(..) => "UnexpectedAWSResponse",
            CoffeeShopError::AWSSdkError(..) => "AWSSdkError",
            CoffeeShopError::ProcessingError(..) => "ProcessingError",
            CoffeeShopError::ResultAlreadySet => "ResultAlreadySet",
            CoffeeShopError::ResultNotFound(..) => "ResultNotFound",
            CoffeeShopError::TicketNotFound(..) => "TicketNotFound",
            CoffeeShopError::ErrorSchema(..) => "ErrorSchema",
        }
    }
}

} // verus!

verus! {

impl CoffeeShopError {
    /// The HTTP status code that the error is answered with; errors that do
    /// not come from a request are answered with 500.
    pub fn status_code(&self) -> (r: StatusCode)
        ensures
            r@ == self.spec_status_code(),
    {
        match self {
            CoffeeShopError::AWSConfigIncomplete(..) => StatusCode::unauthorized(),
            CoffeeShopError::AWSQueueDoesNotExist(..) => StatusCode::bad_gateway(),
            CoffeeShopError::InvalidConfiguration { .. } => StatusCode::internal_server_error(),
            CoffeeShopError::InvalidHeader { .. } => StatusCode::not_acceptable(),
            CoffeeShopError::InvalidMulticastAddress(..) => StatusCode::bad_request(),
            CoffeeShopError::InvalidMulticastMessage { .. } => StatusCode::bad_request(),
            CoffeeShopError::InvalidRoute(..) => StatusCode::not_found(),
            CoffeeShopError::InvalidQueryOptions(..) => StatusCode::bad_request(),
            CoffeeShopError::InvalidPayload { .. } => StatusCode::unprocessable_entity(),
            CoffeeShopError::MalformedJsonPayload(..) => StatusCode::bad_request(),
            CoffeeShopError::RetrieveTimeout(..) => StatusCode::request_timeout(),
            CoffeeShopError::Base64EncodingOversize(..) => StatusCode::payload_too_large(),
            CoffeeShopError::ProcessingError(s) => s.status_code,
            CoffeeShopError::ErrorSchema(s) => s.status_code,
            CoffeeShopError::AWSDynamoDBMalformedItem(..) => StatusCode::bad_gateway(),
            _ => StatusCode::internal_server_error(),
        }
    }

    /// The display text of the error.
    pub fn to_string(&self) -> (r: String)
        ensures
            r@ == self.spec_to_string(),
    {
        let mut s = String::new();
        match self {
            CoffeeShopError::InvalidConfiguration { field, message } => {
                push_str(&mut s, "Invalid configuration for ");
                push_str(&mut s, field.as_str());
                push_str(&mut s, ": ");
                push_str(&mut s, message.as_str());
            },
            CoffeeShopError::InvalidMulticastAddress(ip) => {
                push_ip(&mut s, ip);
                push_str(&mut s, " is not a valid multicast address.");
            },
            CoffeeShopError::InvalidMulticastMessage { addr, .. } => {
                push_str(&mut s, "Received an invalid MulticastMessage from ");
                push_str(&mut s, addr.as_str());
                push_str(&mut s, ".");
            },
            CoffeeShopError::InvalidHeader { key, message } => {
                push_str(&mut s, "Header ");
                push_str(&mut s, key.as_str());
                push_str(&mut s, " is not acceptable: ");
                push_str(&mut s, message.as_str());
            },
            CoffeeShopError::InvalidRoute(uri) => {
                push_str(&mut s, "Endpoint ");
                push_str(&mut s, uri.as_str());
                push_str(&mut s, " is not found on this server. Please consult the API documentation.");
            },
            CoffeeShopError::InvalidQueryOptions(m) => {
                push_str(&mut s, "Invalid URL query options: ");
                push_str(&mut s, m.as_str());
            },
            CoffeeShopError::MalformedJsonPayload(m) => {
                push_str(&mut s, "Malformed JSON payload; could not be parsed: ");
                push_str(&mut s, m.as_str());
            },
            CoffeeShopError::InvalidPayload { kind, message } => {
                push_str(&mut s, "Failed to parse the payload due to ");
                push_str(&mut s, kind.as_str());
                push_str(&mut s, ": ");
                push_str(&mut s, message.as_str());
            },
            CoffeeShopError::HTTPServerError(e) => {
                push_str(&mut s, "HTTP Host failed: ");
                push_str(&mut s, e.kind_text.as_str());
            },
            CoffeeShopError::ListenerCreationFailure(m, a) => {
                push_str(&mut s, "Failed to bind listener to socket address ");
                push_socket_addr(&mut s, a);
                push_str(&mut s, ": ");
                push_str(&mut s, m.as_str());
            },
            CoffeeShopError::ResultBinaryConversionError(m) => {
                push_str(&mut s, "Could not serialize the payload: ");
                push_str(&mut s, m.as_str());
            },
            CoffeeShopError::ResultBinaryCompressionError(m) => {
                push_str(&mut s, "Could not compress/decompress the payload: ");
                push_str(&mut s, m.as_str());
            },
            CoffeeShopError::TempDirCreationFailure(m) => {
                push_str(&mut s, "Temporary directory could not be created: ");
                push_str(&mut s, m.as_str());
            },
            CoffeeShopError::TempFileAccessFailure { path, reason } => {
                push_str(&mut s, "Temporary file access failure at ");
                push_str(&mut s, path.as_str());
                push_str(&mut s, ": ");
                push_str(&mut s, reason.as_str());
            },
            CoffeeShopError::NonUniqueTemporaryFile => {
                push_str(&mut s, "The path for a temporary file is non-uniquely generated; this is improbable unless cleanup is not working. Please verify.");
            },
            CoffeeShopError::Base64DecodingError(m) => {
                push_str(&mut s, "Failed to decode from Base64: ");
                push_str(&mut s, m.as_str());
            },
            CoffeeShopError::Base64EncodingOversize(n) => {
                push_str(&mut s, "The requested payload is ");
                push_decimal(&mut s, *n as u64);
                push_str(&mut s, " bytes in size, exceeding the limit; try chunking the payload and retry the request.");
            },
            CoffeeShopError::IOError(e) => {
                push_str(&mut s, "An IOError::");
                push_str(&mut s, e.kind_text.as_str());
                push_str(&mut s, " had occurred: ");
                push_str(&mut s, e.message.as_str());
            },
            CoffeeShopError::MulticastIOError(e) => {
                push_str(&mut s, "An IOError::");
                push_str(&mut s, e.kind_text.as_str());
                push_str(&mut s, " had occurred during multicast operations: ");
                push_str(&mut s, e.message.as_str());
            },
            CoffeeShopError::RetrieveTimeout(d) => {
                push_str(&mut s, "Timed out awaiting results after ");
                let t = d.debug_text();
                push_str(&mut s, t.as_str());
                push_str(&mut s, " seconds");
            },
            CoffeeShopError::AWSCredentialsError(m) => {
                push_str(&mut s, "An error relating to AWS IAM credentials occurred: ");
                push_str(&mut s, m.as_str());
            },
            CoffeeShopError::AWSConfigIncomplete(m) => {
                push_str(&mut s, "AWS Configuration incomplete: ");
                push_str(&mut s, m.as_str());
            },
            CoffeeShopError::AWSDynamoDBTableDoesNotExist(m) => {
                push_str(&mut s, "The specified AWS DynamoDB Table does not exists. Please verify the table: ");
                push_str(&mut s, m.as_str());
            },
            CoffeeShopError::AWSDynamoDBMalformedItem(m) => {
                push_str(&mut s, "DynamoDB item is found malformed: ");
                push_str(&mut s, m.as_str());
            },
            CoffeeShopError::AWSDynamoDBRateLimitExceeded => {
                push_str(&mut s, "AWS DynamoDB Provisioned Throughput Exceeded.");
            },
            CoffeeShopError::AWSQueueDoesNotExist(m) => {
                push_str(&mut s, "The specified AWS SQS queue URL does not exists. Please verify the URL: ");
                push_str(&mut s, m.as_str());
            },
            CoffeeShopError::AWSSQSInvalidMessage(m) => {
                push_str(&mut s, "AWS SQS Rejected the message: ");
                push_str(&mut s, m.as_str());
                push_str(&mut s, "; please verify the payload and try again.");
            },
            CoffeeShopError::AWSSQSQueueEmpty(d) => {
                push_str(&mut s, "AWS SQS Queue is empty after waiting for ");
                let t = d.debug_text();
                push_str(&mut s, t.as_str());
                push_str(&mut s, ".");
            },
            CoffeeShopError::AWSSQSSendMessageError(m) => {
                push_str(&mut s, "Unexpected AWS SQS Send Message Error: ");
                push_str(&mut s, m.as_str());
            },
            CoffeeShopError::AWSSQSReceiveMessageError(m) => {
                push_str(&mut s, "Unexpected AWS SQS Receive Message Error: ");
                push_str(&mut s, m.as_str());
            },
            CoffeeShopError::AWSSQSStagedReceiptAlreadyCompleted(m) => {
                push_str(&mut s, "Message from AWS SQS had already been completed, and cannot be ");
                push_str(&mut s, m.as_str());
                push_str(&mut s, " again.");
            },
            CoffeeShopError::UnexpectedAWSResponse(m) => {
                push_str(&mut s, "AWS responded with unexpected data: ");
                push_str(&mut s, m.as_str());
            },
            CoffeeShopError::AWSSdkError(m) => {
                push_str(&mut s, "AWS SDK Error: ");
                push_str(&mut s, m.as_str());
            },
            CoffeeShopError::ProcessingError(e) => {
                push_str(&mut s, "Error during processing: ");
                let t = e.to_string();
                push_str(&mut s, t.as_str());
            },
            CoffeeShopError::ResultAlreadySet => {
                push_str(&mut s, "Result is already set, cannot set again.");
            },
            CoffeeShopError::ResultNotFound(t) => {
                push_str(&mut s, "The ticket ");
                push_str(&mut s, t.as_str());
                push_str(&mut s, " does not have a result. It could have been purged, or the ticket is invalid.");
            },
            CoffeeShopError::TicketNotFound(t) => {
                push_str(&mut s, "The ticket ");
                push_str(&mut s, t.as_str());
                push_str(&mut s, " was not found.");
            },
            CoffeeShopError::ErrorSchema(e) => {
                push_str(&mut s, "Upstream worker reported an error: ");
                e.push_debug(&mut s);
            },
        }
        assert(s@ =~= self.spec_to_string());
        s
    }
}

} // verus!

verus! {

/// An object whose only member is `message`, holding `text`.
pub fn message_object(text: String) -> (r: Json)
    ensures
        r@ == message_details(text@),
{
    let mut members: Vec<(String, Json)> = Vec::new();
    members.push((String::from_str("message"), Json::Str(text)));
    proof {
        lemma_object_model(members);
        if let JsonModel::Object(m) = message_details(text@) {
            assert(members_model(members@) =~= m);
        }
    }
    Json::Object(members)
}

fn header_object(key: String, message: String) -> (r: Json)
    ensures
        r@ == header_details(key@, message@),
{
    let mut inner: Vec<(String, Json)> = Vec::new();
    inner.push((key, Json::Str(message)));
    let mut members: Vec<(String, Json)> = Vec::new();
    members.push((String::from_str("headers"), Json::Object(inner)));
    members.push((
        String::from_str("message"),
        Json::Str(String::from_str("Unacceptable headers provided; please check the following headers.")),
    ));
    proof {
        lemma_object_model(inner);
        lemma_object_model(members);
        if let JsonModel::Object(m) = header_details(key@, message@) {
            if let JsonModel::Object(h) = m[0].1 {
                assert(members_model(inner@) =~= h);
            }
            assert(members_model(members@) =~= m);
        }
    }
    Json::Object(members)
}

impl CoffeeShopError {
    /// The exported form of the error (see [`Self::spec_error_schema`]).
    pub fn as_error_schema(&self) -> (r: ErrorSchema)
        ensures
            r@ == self.spec_error_schema(),
    {
        match self {
            CoffeeShopError::ProcessingError(e) => e.duplicate(),
            CoffeeShopError::ErrorSchema(e) => e.duplicate(),
            CoffeeShopError::InvalidHeader { key, message } => ErrorSchema::new(
                self.status_code(),
                String::from_str(self.kind()),
                Some(header_object(key.clone(), message.clone())),
            ),
            _ => ErrorSchema::new(
                self.status_code(),
                String::from_str(self.kind()),
                Some(message_object(self.to_string())),
            ),
        }
    }

    /// The error as a JSON object: that of its exported schema.
    pub fn as_json(&self) -> (r: Json)
        ensures
            r@ == self.spec_as_json(),
    {
        self.as_error_schema().to_json()
    }

    /// An upstream error carrying the exported form of `error`: what a
    /// waiter gets back of an error that a worker stored.
    pub fn from_error_schema(schema: ErrorSchema) -> (r: CoffeeShopError)
        ensures
            r matches CoffeeShopError::ErrorSchema(s) && s@ == schema@,
    {
        CoffeeShopError::ErrorSchema(schema)
    }

    /// Maps an I/O error: a file that already exists means that a temporary
    /// file name was not unique; any other error is kept as an I/O error.
    pub fn from_io_error(error: IoError) -> (r: CoffeeShopError)
        ensures
            error.kind_name@ == "AlreadyExists"@ ==> r is NonUniqueTemporaryFile,
            error.kind_name@ != "AlreadyExists"@ ==> (r matches CoffeeShopError::IOError(e) && e == error),
    {
        if error.kind_name == String::from_str("AlreadyExists") {
            CoffeeShopError::NonUniqueTemporaryFile
        } else {
            CoffeeShopError::IOError(error)
        }
    }

    /// Maps an I/O error of multicast operations.
    pub fn from_multicast_io_error(error: IoError) -> (r: CoffeeShopError)
        ensures
            r matches CoffeeShopError::MulticastIOError(e) && e == error,
    {
        CoffeeShopError::MulticastIOError(error)
    }

    /// Maps an I/O error of the HTTP server.
    pub fn from_server_io_error(error: IoError) -> (r: CoffeeShopError)
        ensures
            r matches CoffeeShopError::HTTPServerError(e) && e == error,
    {
        CoffeeShopError::HTTPServerError(error)
    }

    /// Maps an error of the HTTP framework's middleware, given by its display
    /// text, into an upstream error that is always answered with a JSON body:
    /// status 500, error `BoxError`, and the text as `message`.
    pub fn from_axum_box_error(message: String) -> (r: CoffeeShopError)
        ensures
            r matches CoffeeShopError::ErrorSchema(s) && s@ == (ErrorSchemaView {
                status_code: 500,
                error: "BoxError"@,
                details: Some(message_details(message@)),
            }),
    {
        CoffeeShopError::ErrorSchema(ErrorSchema::new(
            StatusCode::internal_server_error(),
            String::from_str("BoxError"),
            Some(message_object(message)),
        ))
    }
}

impl PartialEq for CoffeeShopError {
    fn eq(&self, other: &Self) -> (r: bool) {
        let same_kind = self.kind_index() == other.kind_index() || self.kind_index() == 37
            || other.kind_index() == 37;
        same_kind && self.as_json().equals(&other.as_json())
    }
}

impl vstd::std_specs::cmp::PartialEqSpecImpl for CoffeeShopError {
    open spec fn obeys_eq_spec() -> bool {
        true
    }

    open spec fn eq_spec(&self, other: &CoffeeShopError) -> bool {
        self.spec_eq(other)
    }
}

} // verus!
