//! Classification of the errors that the queue and table services report.
use vstd::prelude::*;
use crate::errors::shop_error::CoffeeShopError;
use crate::text::push_str;

verus! {

/// The message shown when a service error carries none.
pub open spec fn default_error_message() -> Seq<char> {
    "(No details provided)"@
}

fn message_or_default(m: Option<String>) -> (r: String)
    ensures
        m matches Some(t) ==> r@ == t@,
        m is None ==> r@ == default_error_message(),
{
    match m {
        Some(t) => t,
        None => String::from_str("(No details provided)"),
    }
}

/// An error of receiving a message from the queue, as far as the shop tells
/// errors apart; the messages are those the service gave, and `Other` keeps
/// the `Debug` text of any other error.
#[derive(Debug)]
pub enum ReceiveMessageFailure {
    QueueDoesNotExist,
    InvalidAddress(Option<String>),
    KmsAccessDenied(Option<String>),
    Other(String),
}

/// An error of sending a message to the queue; see [`ReceiveMessageFailure`].
#[derive(Debug)]
pub enum SendMessageFailure {
    QueueDoesNotExist,
    InvalidMessageContents(Option<String>),
    InvalidAddress(Option<String>),
    KmsAccessDenied(Option<String>),
    Other(String),
}

/// An error of putting an item into the table. A failed conditional check
/// keeps the `Debug` text of its item and the pretty `Debug` text of its
/// message; `Other` the `Debug` text of any other error.
#[derive(Debug)]
pub enum PutItemFailure {
    ResourceNotFound,
    InvalidEndpoint,
    ProvisionedThroughputExceeded,
    ConditionalCheckFailed { item: String, message: String },
    Other(String),
}

impl CoffeeShopError {
    /// Maps an error of receiving from the queue at `sqs_queue_url`.
    pub fn from_aws_sqs_receive_message_error(error: ReceiveMessageFailure, sqs_queue_url: &str) -> (r: CoffeeShopError)
        ensures
            error is QueueDoesNotExist ==> (r matches CoffeeShopError::AWSQueueDoesNotExist(u) && u@ == sqs_queue_url@),
            error matches ReceiveMessageFailure::InvalidAddress(m) ==> (r matches CoffeeShopError::InvalidConfiguration {
                field,
                message,
            } && field@ == "sqs_queue"@ && message@ == (match m {
                Some(t) => t@,
                None => default_error_message(),
            })),
            error matches ReceiveMessageFailure::KmsAccessDenied(m) ==> (r matches CoffeeShopError::AWSCredentialsError(
                message,
            ) && message@ == (match m {
                Some(t) => t@,
                None => default_error_message(),
            })),
            error matches ReceiveMessageFailure::Other(d) ==> (r matches CoffeeShopError::AWSSQSReceiveMessageError(t)
                && t@ == d@),
    {
        match error {
            ReceiveMessageFailure::QueueDoesNotExist => CoffeeShopError::AWSQueueDoesNotExist(
                String::from_str(sqs_queue_url),
            ),
            ReceiveMessageFailure::InvalidAddress(m) => CoffeeShopError::InvalidConfiguration {
                field: String::from_str("sqs_queue"),
                message: message_or_default(m),
            },
            ReceiveMessageFailure::KmsAccessDenied(m) => CoffeeShopError::AWSCredentialsError(message_or_default(m)),
            ReceiveMessageFailure::Other(d) => CoffeeShopError::AWSSQSReceiveMessageError(d),
        }
    }

    /// Maps an error of sending to the queue at `sqs_queue_url`.
    pub fn from_aws_sqs_send_message_error(error: SendMessageFailure, sqs_queue_url: &str) -> (r: CoffeeShopError)
        ensures
            error is QueueDoesNotExist ==> (r matches CoffeeShopError::AWSQueueDoesNotExist(u) && u@ == sqs_queue_url@),
            error matches SendMessageFailure::InvalidMessageContents(m) ==> (
                r matches CoffeeShopError::AWSSQSInvalidMessage(message) && message@ == (match m {
                Some(t) => t@,
                None => default_error_message(),
            })),
            error matches SendMessageFailure::InvalidAddress(m) ==> (r matches CoffeeShopError::InvalidConfiguration {
                field,
                message,
            } && field@ == "sqs_queue"@ && message@ == (match m {
                Some(t) => t@,
                None => default_error_message(),
            })),
            error matches SendMessageFailure::KmsAccessDenied(m) ==> (r matches CoffeeShopError::AWSCredentialsError(
                message,
            ) && message@ == (match m {
                Some(t) => t@,
                None => default_error_message(),
            })),
            error matches SendMessageFailure::Other(d) ==> (r matches CoffeeShopError::AWSSQSSendMessageError(t)
                && t@ == d@),
    {
        match error {
            SendMessageFailure::QueueDoesNotExist => CoffeeShopError::AWSQueueDoesNotExist(
                String::from_str(sqs_queue_url),
            ),
            SendMessageFailure::InvalidMessageContents(m) => CoffeeShopError::AWSSQSInvalidMessage(
                message_or_default(m),
            ),
            SendMessageFailure::InvalidAddress(m) => CoffeeShopError::InvalidConfiguration {
                field: String::from_str("sqs_queue"),
                message: message_or_default(m),
            },
            SendMessageFailure::KmsAccessDenied(m) => CoffeeShopError::AWSCredentialsError(message_or_default(m)),
            SendMessageFailure::Other(d) => CoffeeShopError::AWSSQSSendMessageError(d),
        }
    }

    /// Maps an error of putting an item into the table `dynamodb_table`.
    pub fn from_aws_dynamodb_put_item_error(error: PutItemFailure, dynamodb_table: &str) -> (r: CoffeeShopError)
        ensures
            error is ResourceNotFound ==> (r matches CoffeeShopError::AWSDynamoDBTableDoesNotExist(t) && t@
                == dynamodb_table@),
            error is InvalidEndpoint ==> (r matches CoffeeShopError::InvalidConfiguration { field, message }
                && field@ == "dynamodb_table"@ && message@ == "Invalid endpoint for DynamoDB; please verify the table: "@
                + dynamodb_table@),
            error is ProvisionedThroughputExceeded ==> r is AWSDynamoDBRateLimitExceeded,
            error matches PutItemFailure::ConditionalCheckFailed { item, message } ==> (
                r matches CoffeeShopError::AWSDynamoDBMalformedItem(m) && m@ == "Conditional check failed for "@
                + item@ + ": "@ + message@),
            error matches PutItemFailure::Other(d) ==> (r matches CoffeeShopError::AWSSdkError(t) && t@ == d@),
    {
        match error {
            PutItemFailure::ResourceNotFound => CoffeeShopError::AWSDynamoDBTableDoesNotExist(
                String::from_str(dynamodb_table),
            ),
            PutItemFailure::InvalidEndpoint => {
                let mut m = String::new();
                push_str(&mut m, "Invalid endpoint for DynamoDB; please verify the table: ");
                push_str(&mut m, dynamodb_table);
                CoffeeShopError::InvalidConfiguration { field: String::from_str("dynamodb_table"), message: m }
            },
            PutItemFailure::ProvisionedThroughputExceeded => CoffeeShopError::AWSDynamoDBRateLimitExceeded,
            PutItemFailure::ConditionalCheckFailed { item, message } => {
                let mut m = String::new();
                push_str(&mut m, "Conditional check failed for ");
                push_str(&mut m, item.as_str());
                push_str(&mut m, ": ");
                push_str(&mut m, message.as_str());
                CoffeeShopError::AWSDynamoDBMalformedItem(m)
            },
            PutItemFailure::Other(d) => CoffeeShopError::AWSSdkError(d),
        }
    }
}

} // verus!
