//! Client-side adapter that turns a continuous binary websocket feed into a
//! typed sequence of decoded blockchain transactions.
//!
//! The crate is organised around three pieces:
//! - a connection builder that assembles the endpoint address from an access
//!   key, a chain selector and a base url ([`ConnectionBuilder`]);
//! - a frame decoder that classifies each raw frame from the channel into a
//!   per-frame outcome, never closing the stream on a single bad frame
//!   ([`FrameDecoder`]);
//! - an error taxonomy distinguishing channel-level faults from per-frame
//!   decode failures ([`TxnStreamError`]).

use vstd::prelude::*;

mod builder;
mod error;
mod numfmt;
mod stream;

pub use builder::BuilderConfig;
pub use builder::ChainId;
pub use builder::ChainName;
pub use builder::ConnectionBuilder;
pub use builder::spec_endpoint_url;
pub use error::ChannelError;
pub use error::TxnStreamError;
pub use error::spec_connection_msg;
pub use numfmt::dec_chars;
pub use numfmt::dec_digit;
pub use numfmt::push_dec_u64;
pub use numfmt::u64_to_dec_string;
pub use stream::FrameDecoder;
pub use stream::OutcomeKind;
pub use stream::StreamEvent;
pub use stream::Transaction;
pub use stream::lemma_empty_channel_emits_nothing;
pub use stream::lemma_fault_terminates;
pub use stream::lemma_one_outcome_per_frame;
pub use stream::run_events;
pub use stream::spec_decodes;
pub use stream::spec_emitted;
pub use stream::spec_kind_of;

verus! {

/// Well-known service address that the builder points at by default.
pub const BASE_URL: &'static str = "wss://txs.merkle.io/ws";

} // verus!
