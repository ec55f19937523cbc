//! What holds of every error of the shop.
use vstd::prelude::*;
use crate::errors::schema::{ErrorSchema, ErrorSchemaView, schema_json};
use crate::errors::shop_error::{CoffeeShopError, message_details};

verus! {

/// The exported schema of an error carries the status code that the error is
/// answered with.
pub proof fn law_schema_status_is_status_code(e: CoffeeShopError)
    ensures
        e.spec_error_schema().status_code == e.spec_status_code(),
{
}

/// An error that is not itself a schema is exported under its kind.
pub proof fn law_schema_error_is_kind(e: CoffeeShopError)
    requires
        !(e is ProcessingError),
        !(e is ErrorSchema),
    ensures
        e.spec_error_schema().error == e.spec_kind()@,
{
}

/// Every error is equal to itself.
pub proof fn law_eq_reflexive(e: CoffeeShopError)
    ensures
        e.spec_eq(&e),
{
}

/// Equality of errors is symmetric.
pub proof fn law_eq_symmetric(a: CoffeeShopError, b: CoffeeShopError)
    requires
        a.spec_eq(&b),
    ensures
        b.spec_eq(&a),
{
}

/// An error that travelled as its exported schema (an upstream error, as a
/// waiter reads it back) is equal to the error it was exported from, either
/// way round.
pub proof fn law_exported_error_equals_original(e: CoffeeShopError, s: ErrorSchema)
    requires
        s@ == e.spec_error_schema(),
    ensures
        CoffeeShopError::ErrorSchema(s).spec_eq(&e),
        e.spec_eq(&CoffeeShopError::ErrorSchema(s)),
{
}

/// Errors of different kinds are never equal, unless one of them is an
/// upstream error.
pub proof fn law_different_kinds_unequal(a: CoffeeShopError, b: CoffeeShopError)
    requires
        a.spec_kind_index() != b.spec_kind_index(),
        !(a is ErrorSchema),
        !(b is ErrorSchema),
    ensures
        !a.spec_eq(&b),
{
}

/// The status codes that errors are answered with: a request that is
/// malformed or names a bad multicast address or message is a bad request
/// (400); a missing route 404; an unacceptable header 406; a timeout 408; an
/// oversized payload 413; an unparsable payload 422; incomplete AWS
/// configuration 401; a missing queue or a malformed table item a bad
/// gateway (502); an error carrying a schema answers with that schema's
/// code; everything else is an internal server error (500).
pub proof fn law_status_codes(e: CoffeeShopError)
    ensures
        e is MalformedJsonPayload || e is InvalidQueryOptions || e is InvalidMulticastMessage
            || e is InvalidMulticastAddress ==> e.spec_status_code() == 400,
        e is InvalidRoute ==> e.spec_status_code() == 404,
        e is InvalidHeader ==> e.spec_status_code() == 406,
        e is RetrieveTimeout ==> e.spec_status_code() == 408,
        e is Base64EncodingOversize ==> e.spec_status_code() == 413,
        e is InvalidPayload ==> e.spec_status_code() == 422,
        e is AWSConfigIncomplete ==> e.spec_status_code() == 401,
        e is AWSQueueDoesNotExist || e is AWSDynamoDBMalformedItem ==> e.spec_status_code() == 502,
        e matches CoffeeShopError::ProcessingError(s) ==> e.spec_status_code() == s.status_code@,
        e matches CoffeeShopError::ErrorSchema(s) ==> e.spec_status_code() == s.status_code@,
        !(e is MalformedJsonPayload || e is InvalidQueryOptions || e is InvalidMulticastMessage
            || e is InvalidMulticastAddress || e is InvalidRoute || e is InvalidHeader || e is RetrieveTimeout
            || e is Base64EncodingOversize || e is InvalidPayload || e is AWSConfigIncomplete
            || e is AWSQueueDoesNotExist || e is AWSDynamoDBMalformedItem || e is ProcessingError
            || e is ErrorSchema) ==> e.spec_status_code() == 500,
{
}

/// An error that carries a schema (a processing error that the coffee
/// machine reported, or an upstream error) is exported as that very schema,
/// and its JSON is that of the schema: the machine's identifier and details
/// reach the client unchanged.
pub proof fn law_carried_schema_is_exported_unchanged(s: ErrorSchema)
    ensures
        CoffeeShopError::ProcessingError(s).spec_error_schema() == s@,
        CoffeeShopError::ErrorSchema(s).spec_error_schema() == s@,
        CoffeeShopError::ProcessingError(s).spec_as_json() == schema_json(s@),
        CoffeeShopError::ErrorSchema(s).spec_as_json() == schema_json(s@),
{
}

/// Any other error but an unacceptable header is exported with its status
/// code, its kind as `error`, and its display text as the `message` of its
/// details.
pub proof fn law_other_errors_export_their_message(e: CoffeeShopError)
    requires
        !(e is ProcessingError),
        !(e is ErrorSchema),
        !(e is InvalidHeader),
    ensures
        e.spec_error_schema() == (ErrorSchemaView {
            status_code: e.spec_status_code(),
            error: e.spec_kind()@,
            details: Some(message_details(e.spec_to_string())),
        }),
{
}

} // verus!
