use vstd::prelude::*;

verus! {

/// Code of a remote error that carries the failed simulation of a transaction.
pub const SEND_TRANSACTION_PREFLIGHT_FAILURE: i64 = -32002;

/// Code of a remote error that carries how far a node is behind.
pub const NODE_UNHEALTHY: i64 = -32005;

/// The extra data of a remote error, decoded as its code asks.
#[derive(Clone, Debug, PartialEq, Eq)]
pub enum ErrorData {
    Empty,
    /// The simulation result, as the node sent it.
    SendTransactionPreflightFailure { details: String },
    NodeUnhealthy { num_slots_behind: Option<u64> },
}

/// Which decoding a remote error's extra data gets.
#[derive(Clone, Copy, Debug, PartialEq, Eq, Structural)]
pub enum PayloadKind {
    SimulationResult,
    NodeHealth,
    Ignored,
}

/// What came of decoding a remote error's extra data.
#[derive(Clone, Debug, PartialEq, Eq)]
pub enum DecodedPayload {
    Undecodable,
    SimulationResult { details: String },
    NodeHealth { num_slots_behind: Option<u64> },
}

/// Every way a call or a crawl can fail.
#[derive(Clone, Debug, PartialEq, Eq)]
pub enum RpcError {
    /// The owner address is not an address.
    AddressValidation,
    /// The request did not reach the node or its answer did not come back.
    Network,
    /// A failing HTTP status, rate limiting included once the retries are spent.
    HttpStatus { status: u16 },
    /// The node's error object is not of the expected shape.
    RpcProtocol,
    /// The node reported an error.
    RpcRemote { code: i64, message: String, data: ErrorData },
    /// Handing the blocking call to a worker, or joining it, failed.
    InternalDispatch,
}

pub open spec fn payload_kind_spec(code: i64) -> PayloadKind {
    if code == SEND_TRANSACTION_PREFLIGHT_FAILURE {
        PayloadKind::SimulationResult
    } else if code == NODE_UNHEALTHY {
        PayloadKind::NodeHealth
    } else {
        PayloadKind::Ignored
    }
}

/// The registry of error codes whose extra data is decoded.
pub fn payload_kind(code: i64) -> (r: PayloadKind)
    ensures
        r == payload_kind_spec(code),
{
    if code == SEND_TRANSACTION_PREFLIGHT_FAILURE {
        PayloadKind::SimulationResult
    } else if code == NODE_UNHEALTHY {
        PayloadKind::NodeHealth
    } else {
        PayloadKind::Ignored
    }
}

/// The remote error for a node's error object: the data decoded as its code
/// asks, or empty when the code asks for none or the decoding failed.
pub fn remote_error(code: i64, message: String, payload: DecodedPayload) -> (r: RpcError)
    ensures
        r matches RpcError::RpcRemote { code: c, message: m, data } && c == code && m@ == message@
            && data == (match (payload_kind_spec(code), payload) {
                (PayloadKind::SimulationResult, DecodedPayload::SimulationResult { details }) =>
                    ErrorData::SendTransactionPreflightFailure { details },
                (PayloadKind::NodeHealth, DecodedPayload::NodeHealth { num_slots_behind }) =>
                    ErrorData::NodeUnhealthy { num_slots_behind },
                _ => ErrorData::Empty,
            }),
{
    let data = match (payload_kind(code), payload) {
        (PayloadKind::SimulationResult, DecodedPayload::SimulationResult { details }) =>
            ErrorData::SendTransactionPreflightFailure { details },
        (PayloadKind::NodeHealth, DecodedPayload::NodeHealth { num_slots_behind }) =>
            ErrorData::NodeUnhealthy { num_slots_behind },
        _ => ErrorData::Empty,
    };
    RpcError::RpcRemote { code, message, data }
}

/// A node's error object, in the shape that is expected of it.
#[derive(Clone, Debug, PartialEq, Eq)]
pub struct RpcErrorObject {
    pub code: i64,
    pub message: String,
}

/// The error for an answer whose body holds an error object: a protocol
/// error when the object is not of the expected shape, else the node's error.
pub fn error_response(object: Option<RpcErrorObject>, payload: DecodedPayload) -> (r: RpcError)
    ensures
        object is None ==> r == RpcError::RpcProtocol,
        object is Some ==> r is RpcRemote && r->RpcRemote_code == object->0.code
            && r->RpcRemote_message@ == object->0.message@
            && r->RpcRemote_data == (match (payload_kind_spec(object->0.code), payload) {
                (PayloadKind::SimulationResult, DecodedPayload::SimulationResult { details }) =>
                    ErrorData::SendTransactionPreflightFailure { details },
                (PayloadKind::NodeHealth, DecodedPayload::NodeHealth { num_slots_behind }) =>
                    ErrorData::NodeUnhealthy { num_slots_behind },
                _ => ErrorData::Empty,
            }),
{
    match object {
        None => RpcError::RpcProtocol,
        Some(o) => remote_error(o.code, o.message, payload),
    }
}

} // verus!
