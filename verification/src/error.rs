//! The failure-classification layer: raw asynchronous transport faults and
//! local dispatch faults are turned into a small closed taxonomy that upstream
//! retry/reconnect logic keys on.

use vstd::prelude::*;
use vstd::string::StringExecFns;

verus! {

/// Declares `tungstenite`'s error type, re-exported by `async_tungstenite`,
/// so that raw websocket faults can be carried through signatures; the type is
/// opaque here, read only through the trusted functions below.
#[verifier::external_type_specification]
#[verifier::external_body]
pub struct ExWsError(async_tungstenite::tungstenite::error::Error);

/// Declares `futures`' channel-send error type so that raw dispatch faults can
/// be carried through signatures; opaque here, read only through the trusted
/// functions below.
#[verifier::external_type_specification]
#[verifier::external_body]
pub struct ExSendError(futures::channel::mpsc::SendError);

/// A websocket transport fault, reduced to what classification reads of it:
/// the two recoverable connection-state cases an upstream reconnect policy
/// keys on, and every other fault as its textual representation.
#[derive(Debug, PartialEq)]
pub enum WsFault {
    /// The connection was already closed when it was used.
    AlreadyClosed,
    /// The connection closed normally.
    ConnectionClosed,
    /// Any other transport fault, carried as its textual representation.
    Other(String),
}

/// Ghost model of a [`WsFault`].
pub ghost enum WsFaultModel {
    AlreadyClosed,
    ConnectionClosed,
    Other(Seq<char>),
}

impl View for WsFault {
    type V = WsFaultModel;

    open spec fn view(&self) -> WsFaultModel {
        match self {
            WsFault::AlreadyClosed => WsFaultModel::AlreadyClosed,
            WsFault::ConnectionClosed => WsFaultModel::ConnectionClosed,
            WsFault::Other(msg) => WsFaultModel::Other(msg@),
        }
    }
}

impl Clone for WsFault {
    fn clone(&self) -> (r: Self)
        ensures
            r == *self,
    {
        match self {
            WsFault::AlreadyClosed => WsFault::AlreadyClosed,
            WsFault::ConnectionClosed => WsFault::ConnectionClosed,
            WsFault::Other(msg) => WsFault::Other(msg.clone()),
        }
    }
}

/// A failed attempt to hand a request to the internal outbound channel,
/// reduced to the two flags the channel fault exposes.
#[derive(Clone, Copy, Debug, PartialEq, Eq, Structural)]
pub struct SendFault {
    /// The receiving side of the channel has terminated: the owning
    /// connection's writer task has exited, which is fatal for that logical
    /// connection.
    pub disconnected: bool,
    /// The channel was full when the request was enqueued.
    pub full: bool,
}

/// The closed error taxonomy this core produces. No other variants exist:
/// fine-grained handling of another transport fault kind requires widening
/// this classification, not working around it downstream.
#[derive(Debug, PartialEq)]
pub enum GremlinError {
    /// A transport fault surfaced as such; the recoverable connection-state
    /// cases are preserved unchanged so that upstream logic can decide whether
    /// to recycle or re-establish the connection.
    WebSocketAsync(WsFault),
    /// An opaque fault carrying a human-readable message, surfaced for
    /// diagnostics only, with no recovery guidance implied.
    Generic(String),
    /// A local dispatch failure: the outbound channel refused the request.
    ChannelSend(SendFault),
    /// A value-conversion failure, kept distinct from transport failures.
    Cast(String),
}

/// Ghost model of a [`GremlinError`].
pub ghost enum GremlinErrorModel {
    WebSocketAsync(WsFaultModel),
    Generic(Seq<char>),
    ChannelSend(SendFault),
    Cast(Seq<char>),
}

impl View for GremlinError {
    type V = GremlinErrorModel;

    open spec fn view(&self) -> GremlinErrorModel {
        match self {
            GremlinError::WebSocketAsync(f) => GremlinErrorModel::WebSocketAsync(f@),
            GremlinError::Generic(msg) => GremlinErrorModel::Generic(msg@),
            GremlinError::ChannelSend(f) => GremlinErrorModel::ChannelSend(*f),
            GremlinError::Cast(msg) => GremlinErrorModel::Cast(msg@),
        }
    }
}

impl Clone for GremlinError {
    fn clone(&self) -> (r: Self)
        ensures
            r@ == self@,
    {
        match self {
            GremlinError::WebSocketAsync(f) => GremlinError::WebSocketAsync(f.clone()),
            GremlinError::Generic(msg) => GremlinError::Generic(msg.clone()),
            GremlinError::ChannelSend(f) => GremlinError::ChannelSend(*f),
            GremlinError::Cast(msg) => GremlinError::Cast(msg.clone()),
        }
    }
}

/// Either a value or a classified failure.
pub type GremlinResult<T> = Result<T, GremlinError>;

/// What classifying a transport fault yields: the two recoverable
/// connection-state cases are preserved unchanged inside the domain error;
/// every other fault collapses, deliberately and lossily, to the opaque case
/// whose message is the fault's textual representation behind a fixed prefix.
pub open spec fn classify_ws_fault_spec(f: WsFaultModel) -> GremlinErrorModel {
    match f {
        WsFaultModel::AlreadyClosed => GremlinErrorModel::WebSocketAsync(
            WsFaultModel::AlreadyClosed,
        ),
        WsFaultModel::ConnectionClosed => GremlinErrorModel::WebSocketAsync(
            WsFaultModel::ConnectionClosed,
        ),
        WsFaultModel::Other(msg) => GremlinErrorModel::Generic("Error from ws "@ + msg),
    }
}

impl GremlinError {
    /// Classifies a transport fault, exactly as [`classify_ws_fault_spec`]
    /// says: total, side-effect-free, and a pure function of the fault.
    pub fn classify_ws_fault(fault: &WsFault) -> (r: GremlinError)
        ensures
            r@ == classify_ws_fault_spec(fault@),
    {
        match fault {
            WsFault::AlreadyClosed => GremlinError::WebSocketAsync(WsFault::AlreadyClosed),
            WsFault::ConnectionClosed => GremlinError::WebSocketAsync(WsFault::ConnectionClosed),
            WsFault::Other(msg) => GremlinError::Generic(
                String::from_str("Error from ws ").concat(msg.as_str()),
            ),
        }
    }

    /// Wraps a transport fault unchanged into the transport case.
    pub fn from_ws_fault(fault: WsFault) -> (r: GremlinError)
        ensures
            r@ == GremlinErrorModel::WebSocketAsync(fault@),
    {
        GremlinError::WebSocketAsync(fault)
    }

    /// Wraps a local dispatch fault unchanged into the local-dispatch-failure
    /// case. This case is effectively fatal for the logical connection and
    /// must not be treated as a transient per-request fault.
    pub fn from_send_fault(fault: SendFault) -> (r: GremlinError)
        ensures
            r@ == GremlinErrorModel::ChannelSend(fault),
    {
        GremlinError::ChannelSend(fault)
    }
}

/// Classification is pure: equal faults classify to equal results, so
/// classifying the same fault twice yields the same error and the layer is
/// safe to invoke concurrently with no shared state.
pub proof fn lemma_classification_pure(f1: WsFaultModel, f2: WsFaultModel)
    requires
        f1 == f2,
    ensures
        classify_ws_fault_spec(f1) == classify_ws_fault_spec(f2),
{
}

/// Relies on `tungstenite::error::Error`: a `matches!` test of the
/// `AlreadyClosed` variant.
#[verifier::external_body]
fn ws_error_is_already_closed(e: &async_tungstenite::tungstenite::error::Error) -> bool {
    matches!(e, async_tungstenite::tungstenite::error::Error::AlreadyClosed)
}

/// Relies on `tungstenite::error::Error`: a `matches!` test of the
/// `ConnectionClosed` variant.
#[verifier::external_body]
fn ws_error_is_connection_closed(e: &async_tungstenite::tungstenite::error::Error) -> bool {
    matches!(e, async_tungstenite::tungstenite::error::Error::ConnectionClosed)
}

/// Relies on the `Display` implementation of `tungstenite::error::Error` for
/// the fault's textual representation.
#[verifier::external_body]
fn ws_error_text(e: &async_tungstenite::tungstenite::error::Error) -> String {
    format!("{}", e)
}

/// Reads of a raw websocket fault exactly what classification needs: which of
/// the two connection-state cases it is, or otherwise its textual
/// representation.
pub fn ws_fault_of(e: &async_tungstenite::tungstenite::error::Error) -> WsFault {
    if ws_error_is_already_closed(e) {
        WsFault::AlreadyClosed
    } else if ws_error_is_connection_closed(e) {
        WsFault::ConnectionClosed
    } else {
        WsFault::Other(ws_error_text(e))
    }
}

/// Classifies a raw websocket fault. Which case comes back depends on the raw
/// fault, which this library does not model; whatever it is, the result is in
/// the image of [`classify_ws_fault_spec`], so it is never a dispatch or a
/// conversion failure.
pub fn classify_ws_error(e: &async_tungstenite::tungstenite::error::Error) -> (r: GremlinError)
    ensures
        exists|f: WsFaultModel| r@ == classify_ws_fault_spec(f),
{
    let fault = ws_fault_of(e);
    let r = GremlinError::classify_ws_fault(&fault);
    proof {
        assert(r@ == classify_ws_fault_spec(fault@));
    }
    r
}

/// Wraps a raw websocket fault unchanged into the transport case, reduced to
/// what this library models of it.
pub fn wrap_ws_error(e: async_tungstenite::tungstenite::error::Error) -> (r: GremlinError)
    ensures
        r@ is WebSocketAsync,
{
    GremlinError::from_ws_fault(ws_fault_of(&e))
}

/// Relies on `futures::channel::mpsc::SendError::is_disconnected`.
#[verifier::external_body]
fn send_error_is_disconnected(e: &futures::channel::mpsc::SendError) -> bool {
    e.is_disconnected()
}

/// Relies on `futures::channel::mpsc::SendError::is_full`.
#[verifier::external_body]
fn send_error_is_full(e: &futures::channel::mpsc::SendError) -> bool {
    e.is_full()
}

/// Reads of a raw channel-send fault the two flags it exposes.
pub fn send_fault_of(e: &futures::channel::mpsc::SendError) -> SendFault {
    SendFault { disconnected: send_error_is_disconnected(e), full: send_error_is_full(e) }
}

/// Wraps a raw channel-send fault unchanged into the local-dispatch-failure
/// case, reduced to what this library models of it.
pub fn classify_send_error(e: &futures::channel::mpsc::SendError) -> (r: GremlinError)
    ensures
        r@ is ChannelSend,
{
    GremlinError::from_send_fault(send_fault_of(e))
}

} // verus!
