//! PSA status codes, the errors that the Parsec client reports, and the
//! PSA status that the driver reports for each of those errors.
use vstd::prelude::*;

verus! {

/// PSA status: the operation completed.
pub const PSA_SUCCESS: i32 = 0;
/// PSA status: an error that no other code describes.
pub const PSA_ERROR_GENERIC_ERROR: i32 = -132;
/// PSA status: the caller may not perform the operation.
pub const PSA_ERROR_NOT_PERMITTED: i32 = -133;
/// PSA status: the operation or a parameter is not supported.
pub const PSA_ERROR_NOT_SUPPORTED: i32 = -134;
/// PSA status: a parameter is invalid.
pub const PSA_ERROR_INVALID_ARGUMENT: i32 = -135;
/// PSA status: the key handle is not valid.
pub const PSA_ERROR_INVALID_HANDLE: i32 = -136;
/// PSA status: the operation is not allowed in the current state.
pub const PSA_ERROR_BAD_STATE: i32 = -137;
/// PSA status: an output buffer is too small.
pub const PSA_ERROR_BUFFER_TOO_SMALL: i32 = -138;
/// PSA status: the key already exists.
pub const PSA_ERROR_ALREADY_EXISTS: i32 = -139;
/// PSA status: the key does not exist.
pub const PSA_ERROR_DOES_NOT_EXIST: i32 = -140;
/// PSA status: there is not enough memory.
pub const PSA_ERROR_INSUFFICIENT_MEMORY: i32 = -141;
/// PSA status: there is not enough persistent storage.
pub const PSA_ERROR_INSUFFICIENT_STORAGE: i32 = -142;
/// PSA status: a data source returned too little data.
pub const PSA_ERROR_INSUFFICIENT_DATA: i32 = -143;
/// PSA status: communication with the hardware or the service failed.
pub const PSA_ERROR_COMMUNICATION_FAILURE: i32 = -145;
/// PSA status: the storage failed.
pub const PSA_ERROR_STORAGE_FAILURE: i32 = -146;
/// PSA status: the hardware failed.
pub const PSA_ERROR_HARDWARE_FAILURE: i32 = -147;
/// PSA status: there is not enough entropy.
pub const PSA_ERROR_INSUFFICIENT_ENTROPY: i32 = -148;
/// PSA status: the signature is not valid.
pub const PSA_ERROR_INVALID_SIGNATURE: i32 = -149;
/// PSA status: the decrypted padding is not valid.
pub const PSA_ERROR_INVALID_PADDING: i32 = -150;

/// Parsec response status `Success`, as carried on the wire.
pub const RESPONSE_SUCCESS: u16 = 0;
/// The smallest wire code of a Parsec response status that carries a PSA error.
pub const RESPONSE_PSA_ERROR_FIRST: u16 = 1132;
/// The largest wire code of a Parsec response status that the driver forwards
/// as the PSA error with the same number.
pub const RESPONSE_PSA_ERROR_LAST_FORWARDED: u16 = 1150;
/// The wire codes of Parsec's PSA errors are the PSA error codes, negated and
/// moved up by this offset.
pub const RESPONSE_PSA_OFFSET: i32 = 1000;

/// An error reported by the Parsec client.
///
/// `Service` carries the wire code of the response status that the Parsec
/// service returned; `Client` stands for every error that arose in the client
/// itself (IPC, missing provider, malformed response, ...).
#[derive(Clone, Copy, Debug, PartialEq, Eq, Structural)]
pub enum ClientError {
    Service(u16),
    Client,
}

/// The Parsec response statuses that the driver hands back as the PSA error
/// with the same number: every PSA error between -132 and -150, except -144,
/// for which Parsec defines no response status.
pub open spec fn is_forwarded_psa_error(code: u16) -> bool {
    &&& RESPONSE_PSA_ERROR_FIRST <= code <= RESPONSE_PSA_ERROR_LAST_FORWARDED
    &&& code != 1144
}

/// The PSA status that the driver reports for a Parsec response status:
/// success for success, the matching PSA error for a forwarded PSA error,
/// and the generic error for everything else.
pub open spec fn service_status(code: u16) -> i32 {
    if code == RESPONSE_SUCCESS {
        PSA_SUCCESS
    } else if is_forwarded_psa_error(code) {
        (RESPONSE_PSA_OFFSET - code) as i32
    } else {
        PSA_ERROR_GENERIC_ERROR
    }
}

/// The PSA status that the driver reports for an error of the Parsec client.
pub open spec fn client_error_status(error: ClientError) -> i32 {
    match error {
        ClientError::Service(code) => service_status(code),
        ClientError::Client => PSA_ERROR_GENERIC_ERROR,
    }
}

/// The PSA status that the driver returns to the PSA Crypto implementation
/// for an error of the Parsec client.
pub fn client_error_to_psa_status(error: ClientError) -> (status: i32)
    ensures
        status == client_error_status(error),
        error == ClientError::Service(RESPONSE_SUCCESS) ==> status == PSA_SUCCESS,
        error is Service && is_forwarded_psa_error(error->0) ==> status == RESPONSE_PSA_OFFSET
            - error->0,
        error == ClientError::Client ==> status == PSA_ERROR_GENERIC_ERROR,
        error is Service && error->0 != RESPONSE_SUCCESS && !is_forwarded_psa_error(error->0)
            ==> status == PSA_ERROR_GENERIC_ERROR,
{
    match error {
        ClientError::Service(code) => match code {
            0 => PSA_SUCCESS,
            1132 => PSA_ERROR_GENERIC_ERROR,
            1134 => PSA_ERROR_NOT_SUPPORTED,
            1133 => PSA_ERROR_NOT_PERMITTED,
            1138 => PSA_ERROR_BUFFER_TOO_SMALL,
            1139 => PSA_ERROR_ALREADY_EXISTS,
            1140 => PSA_ERROR_DOES_NOT_EXIST,
            1137 => PSA_ERROR_BAD_STATE,
            1135 => PSA_ERROR_INVALID_ARGUMENT,
            1141 => PSA_ERROR_INSUFFICIENT_MEMORY,
            1142 => PSA_ERROR_INSUFFICIENT_STORAGE,
            1145 => PSA_ERROR_COMMUNICATION_FAILURE,
            1146 => PSA_ERROR_STORAGE_FAILURE,
            1147 => PSA_ERROR_HARDWARE_FAILURE,
            1148 => PSA_ERROR_INSUFFICIENT_ENTROPY,
            1149 => PSA_ERROR_INVALID_SIGNATURE,
            1150 => PSA_ERROR_INVALID_PADDING,
            1143 => PSA_ERROR_INSUFFICIENT_DATA,
            1136 => PSA_ERROR_INVALID_HANDLE,
            _ => PSA_ERROR_GENERIC_ERROR,
        },
        ClientError::Client => PSA_ERROR_GENERIC_ERROR,
    }
}

/// The PSA status of a Parsec request that returns nothing on success.
pub open spec fn operation_status_of(result: Result<(), ClientError>) -> i32 {
    match result {
        Ok(()) => PSA_SUCCESS,
        Err(e) => client_error_status(e),
    }
}

/// The status that a driver entry point returns once its Parsec request has
/// answered with nothing to hand back: success, or the status of the error.
pub fn operation_status(result: Result<(), ClientError>) -> (status: i32)
    ensures
        status == operation_status_of(result),
        result is Ok ==> status == PSA_SUCCESS,
        result matches Err(e) ==> status == client_error_status(e),
{
    match result {
        Ok(()) => PSA_SUCCESS,
        Err(e) => client_error_to_psa_status(e),
    }
}

/// Hands back the data of a Parsec request that returns data (a signature,
/// an exported public key), or the PSA status to return in its place.
pub fn returned_data(result: Result<Vec<u8>, ClientError>) -> (out: Result<Vec<u8>, i32>)
    ensures
        match result {
            Ok(data) => out matches Ok(d) && d@ == data@,
            Err(e) => out == Err::<Vec<u8>, i32>(client_error_status(e)),
        },
{
    match result {
        Ok(data) => Ok(data),
        Err(e) => Err(client_error_to_psa_status(e)),
    }
}

/// Every response status that Parsec derives from a PSA error comes back as
/// that PSA error: the status is the wire code, negated and moved down by the
/// offset.
pub proof fn lemma_forwarded_errors_keep_their_number(code: u16)
    requires
        is_forwarded_psa_error(code),
    ensures
        client_error_status(ClientError::Service(code)) == RESPONSE_PSA_OFFSET - code,
        client_error_status(ClientError::Service(code)) < PSA_SUCCESS,
{
}

/// The driver reports success for an error only where the service itself
/// answered with the success status.
pub proof fn lemma_success_only_from_service_success(error: ClientError)
    ensures
        client_error_status(error) == PSA_SUCCESS <==> error == ClientError::Service(RESPONSE_SUCCESS),
{
}

/// Every status that the driver reports for an error is success or one of the PSA
/// error codes between the generic error and the invalid padding error.
pub proof fn lemma_status_is_a_psa_code(error: ClientError)
    ensures
        client_error_status(error) == PSA_SUCCESS || (PSA_ERROR_INVALID_PADDING
            <= client_error_status(error) <= PSA_ERROR_GENERIC_ERROR),
{
}

/// Errors that arise in the client, and response statuses that carry no PSA
/// error, all come back as the generic error.
pub proof fn lemma_other_errors_are_generic(error: ClientError)
    requires
        match error {
            ClientError::Service(code) => code != RESPONSE_SUCCESS && !is_forwarded_psa_error(code),
            ClientError::Client => true,
        },
    ensures
        client_error_status(error) == PSA_ERROR_GENERIC_ERROR,
{
}

/// A request that fails is reported with the status of its error: a PSA
/// error that the service forwards keeps its number, and every other error is
/// the generic error.
pub proof fn lemma_failed_operation_reports_its_error(error: ClientError)
    ensures
        operation_status_of(Err(error)) == client_error_status(error),
        error is Service && is_forwarded_psa_error(error->0) ==> operation_status_of(Err(error))
            == RESPONSE_PSA_OFFSET - error->0,
        error == ClientError::Client ==> operation_status_of(Err(error)) == PSA_ERROR_GENERIC_ERROR,
{
}

/// A request that answers without an error is reported as a success, and one
/// that fails is reported as success only where the service said success.
pub proof fn lemma_operation_success(result: Result<(), ClientError>)
    ensures
        operation_status_of(result) == PSA_SUCCESS <==> (result is Ok || result == Err::<
            (),
            ClientError,
        >(ClientError::Service(RESPONSE_SUCCESS))),
{
}

} // verus!
