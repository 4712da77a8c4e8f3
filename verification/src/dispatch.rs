use vstd::prelude::*;

verus! {

/// The single error taxonomy every daemon failure is normalized into,
/// whichever dialect produced it. The boundary that performs the network
/// call classifies its outcome into one of these three shapes.
pub enum RpcFailure {
    /// The request never completed: connection refused, timeout, handshake
    /// failure. Carries the transport layer's human-readable message.
    Transport { message: String },
    /// The daemon answered with a structured error object: a numeric code
    /// and the daemon-supplied message text.
    Protocol { code: i64, message: String },
    /// Anything else: a serialization failure or an unexpected shape,
    /// carried as a generic diagnostic string.
    Other { detail: String },
}

/// Mathematical model of a classified failure.
pub enum FailureModel {
    Transport { message: Seq<char> },
    Protocol { code: int, message: Seq<char> },
    Other { detail: Seq<char> },
}

impl View for RpcFailure {
    type V = FailureModel;

    open spec fn view(&self) -> FailureModel {
        match self {
            RpcFailure::Transport { message } => FailureModel::Transport { message: message@ },
            RpcFailure::Protocol { code, message } => FailureModel::Protocol {
                code: *code as int,
                message: message@,
            },
            RpcFailure::Other { detail } => FailureModel::Other { detail: detail@ },
        }
    }
}

/// The one string the control surface sees for a failure: the transport
/// message for a transport error, the daemon-supplied message text for a
/// protocol error (the numeric code is discarded), the diagnostic string
/// otherwise.
pub open spec fn rendered(f: FailureModel) -> Seq<char> {
    match f {
        FailureModel::Transport { message } => message,
        FailureModel::Protocol { code, message } => message,
        FailureModel::Other { detail } => detail,
    }
}

/// Renders a classified failure into the normalized error string.
pub fn render_failure(f: RpcFailure) -> (r: String)
    ensures
        r@ == rendered(f@),
{
    match f {
        RpcFailure::Transport { message } => message,
        RpcFailure::Protocol { code: _, message } => message,
        RpcFailure::Other { detail } => detail,
    }
}

/// Settles one dispatch round trip: a successful response is passed through
/// untouched, a failure becomes the normalized error string. Total over
/// every outcome, so a bad call is always converted to a value and never
/// terminates the process.
pub fn settle_dispatch<T>(outcome: Result<T, RpcFailure>) -> (r: Result<T, String>)
    ensures
        r is Ok <==> outcome is Ok,
        outcome is Ok ==> r->Ok_0 == outcome->Ok_0,
        outcome is Err ==> r->Err_0@ == rendered(outcome->Err_0@),
{
    match outcome {
        Ok(value) => Ok(value),
        Err(failure) => Err(render_failure(failure)),
    }
}

} // verus!
