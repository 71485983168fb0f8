//! Error taxonomy: channel-level faults versus per-frame decode failures,
//! and the classification of raw websocket errors into the former.

use vstd::prelude::*;
use vstd::utf8::decode_utf8;
use vstd::utf8::valid_utf8;

verus! {

/// The external codec's decode error, carried through unread.
#[verifier::external_type_specification]
#[verifier::external_body]
pub struct ExTypedTransactionError(ethers::types::transaction::eip2718::TypedTransactionError);

/// The raw websocket error type of the underlying channel, opaque to the
/// library until classified.
#[verifier::external_type_specification]
#[verifier::external_body]
pub struct ExWsError(tokio_tungstenite::tungstenite::Error);

/// A channel-level fault, reduced to the plain values the error taxonomy
/// reads: an HTTP-level handshake rejection with its optional response body,
/// or any other transport fault with its description.
#[derive(Debug)]
pub enum ChannelError {
    HandshakeRejected(Option<Vec<u8>>),
    Transport(String),
}

/// Per-item error of the transaction stream.
///
/// `Connection` is a handshake or transport-level failure carrying a
/// human-readable diagnostic; `Decode` means a single frame's payload did not
/// parse as a valid transaction encoding, and never terminates the stream by
/// itself.
#[derive(Debug)]
pub enum TxnStreamError {
    Connection(String),
    Decode(ethers::types::transaction::eip2718::TypedTransactionError),
}

/// The diagnostic message a channel-level fault maps to: the UTF-8 reading of
/// a handshake rejection's body where one is present and readable, a fixed
/// placeholder otherwise; a transport fault keeps its own description.
pub open spec fn spec_connection_msg(e: ChannelError) -> Seq<char> {
    match e {
        ChannelError::HandshakeRejected(body) => match body {
            Some(bytes) => if valid_utf8(bytes@) {
                decode_utf8(bytes@)
            } else {
                "empty response"@
            },
            None => "empty response"@,
        },
        ChannelError::Transport(msg) => msg@,
    }
}

/// Relies on `String::from_utf8` of std: returns the string whose UTF-8
/// encoding is exactly the given bytes, or nothing where the bytes are not
/// valid UTF-8.
#[verifier::external_body]
fn utf8_string(bytes: &Vec<u8>) -> (r: Option<String>)
    ensures
        r is Some <==> valid_utf8(bytes@),
        r matches Some(s) ==> s@ == decode_utf8(bytes@),
{
    String::from_utf8(bytes.clone()).ok()
}

/// Relies on tungstenite's `Error`: `Error::Http` carries the handshake
/// response (`http::Response::body` hands out its body), and every variant
/// describes itself through its `Display` implementation.
#[verifier::external_body]
fn classify_ws_error(e: tokio_tungstenite::tungstenite::Error) -> (r: ChannelError) {
    match e {
        tokio_tungstenite::tungstenite::Error::Http(response) => {
            ChannelError::HandshakeRejected(response.body().clone())
        },
        other => ChannelError::Transport(other.to_string()),
    }
}

impl TxnStreamError {
    /// Turns a classified channel-level fault into the `Connection` error that
    /// the stream surfaces, with the diagnostic that
    /// [`spec_connection_msg`] states.
    pub fn from_channel_error(e: &ChannelError) -> (r: TxnStreamError)
        ensures
            r matches TxnStreamError::Connection(msg) && msg@ == spec_connection_msg(*e),
    {
        match e {
            ChannelError::HandshakeRejected(body) => match body {
                Some(bytes) => match utf8_string(bytes) {
                    Some(msg) => TxnStreamError::Connection(msg),
                    None => TxnStreamError::Connection("empty response".to_owned()),
                },
                None => TxnStreamError::Connection("empty response".to_owned()),
            },
            ChannelError::Transport(msg) => TxnStreamError::Connection(msg.clone()),
        }
    }
}

impl From<tokio_tungstenite::tungstenite::Error> for TxnStreamError {
    /// Classifies a raw websocket error and surfaces it as a `Connection`
    /// error; the exact diagnostic is stated on [`TxnStreamError::from_channel_error`].
    fn from(e: tokio_tungstenite::tungstenite::Error) -> (r: TxnStreamError)
        ensures
            r is Connection,
    {
        TxnStreamError::from_channel_error(&classify_ws_error(e))
    }
}

impl vstd::std_specs::convert::FromSpecImpl<tokio_tungstenite::tungstenite::Error> for TxnStreamError {
    open spec fn obeys_from_spec() -> bool {
        false
    }

    open spec fn from_spec(e: tokio_tungstenite::tungstenite::Error) -> TxnStreamError {
        vstd::pervasive::arbitrary()
    }
}

} // verus!
