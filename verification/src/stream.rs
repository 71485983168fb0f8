//! The stream-adaptation core: classifying each resolved channel event into a
//! per-frame outcome, without ever terminating on a single bad frame.
//!
//! The decoder here is a concrete state machine behind a one-event-at-a-time
//! interface. The surrounding polling loop (the part that waits on the
//! channel) only resolves each poll into a [`StreamEvent`] and hands it to
//! [`FrameDecoder::on_event`]; every decision about what to emit and when the
//! sequence ends is made, and verified, here.
//!
//! Policy: every delivered frame yields exactly one outcome — a decoded
//! transaction or a decode failure. There is no separate "frame carried no
//! transaction" outcome; a frame the codec does not accept is a decode
//! failure, and decode failures are data, never termination.

use vstd::prelude::*;

use ethers::types::transaction::eip2718::TypedTransaction;

use crate::error::spec_connection_msg;
use crate::error::ChannelError;
use crate::error::TxnStreamError;

verus! {

/// The external codec's structured transaction, carried through unread.
#[verifier::external_type_specification]
#[verifier::external_body]
pub struct ExTypedTransaction(TypedTransaction);

/// The external codec's signature type, carried through unread.
#[verifier::external_type_specification]
#[verifier::external_body]
pub struct ExSignature(ethers::types::Signature);

/// The external codec's byte-buffer type, as `rlp_signed` returns it.
#[verifier::external_type_specification]
#[verifier::external_body]
pub struct ExBytes(ethers::types::Bytes);

/// Wrapper struct for an external codec transaction plus its signature.
#[derive(Debug)]
pub struct Transaction {
    /// The inner transaction.
    pub inner: TypedTransaction,
    /// Inner transaction signature.
    pub signature: ethers::types::Signature,
}

impl Transaction {
    /// Returns the RLP bytes representation of the transaction — a signed
    /// encoding that can be relayed to the network — or nothing where the
    /// encoding is not defined for this signature.
    ///
    /// Relies on ethers' `TypedTransaction::rlp_signed`; the result depends on
    /// the transaction and signature alone, both of which are opaque here.
    /// For the typed (non-legacy) variants ethers folds `v` back to a parity
    /// by computing `v - 2*chain_id - 35` whenever `v > 1`; for a `v` below
    /// that bound (or a chain id whose doubling overflows) the subtraction
    /// underflows, so those inputs — which a decoded frame can carry, since
    /// `v` is read unconstrained — are answered with `None` here rather than
    /// reaching the panic.
    #[verifier::external_body]
    pub fn rlp_signed(&self) -> Option<ethers::types::Bytes> {
        let chain_id = match &self.inner {
            TypedTransaction::Legacy(_) => None,
            TypedTransaction::Eip2930(t) => Some(t.tx.chain_id.map_or(1, |c| c.as_u64())),
            TypedTransaction::Eip1559(t) => Some(t.chain_id.map_or(1, |c| c.as_u64())),
        };
        let defined = chain_id.map_or(true, |c| {
            let min = c.checked_mul(2).and_then(|m| m.checked_add(35));
            self.signature.v <= 1 || min.map_or(false, |m| self.signature.v >= m)
        });
        if defined { Some(self.inner.rlp_signed(&self.signature)) } else { None }
    }
}

/// Whether a byte sequence is a well-formed signed transaction encoding: the
/// external codec's acceptance condition, named but not restated.
pub uninterp spec fn spec_decodes(bytes: Seq<u8>) -> bool;

/// Relies on ethers' `TypedTransaction::decode_signed` over rlp's `Rlp` view
/// of the raw bytes: parses a length-prefixed signed transaction encoding, and
/// whether it succeeds depends on the bytes alone ([`spec_decodes`]).
#[verifier::external_body]
fn decode_signed_frame(bytes: &Vec<u8>) -> (r: Result<
    Transaction,
    ethers::types::transaction::eip2718::TypedTransactionError,
>)
    ensures
        r is Ok <==> spec_decodes(bytes@),
{
    match TypedTransaction::decode_signed(&rlp::Rlp::new(&bytes[..])) {
        Ok((tx, signature)) => Ok(Transaction { inner: tx, signature }),
        Err(e) => Err(e),
    }
}

/// One resolved poll of the underlying channel: a delivered binary frame, a
/// channel-level fault, or clean closure. A "not yet ready" poll resolves to
/// no event at all and never reaches the decoder.
#[derive(Debug)]
pub enum StreamEvent {
    Frame(Vec<u8>),
    Fault(ChannelError),
    Closed,
}

/// The tag of a per-frame outcome, used by the specifications to classify
/// emitted items without reading the opaque transaction inside.
pub enum OutcomeKind {
    Decoded,
    DecodeFailed,
    ChannelFailed,
}

/// The tag of one emitted stream item.
pub open spec fn spec_kind_of(item: Result<Transaction, TxnStreamError>) -> OutcomeKind {
    match item {
        Ok(_) => OutcomeKind::Decoded,
        Err(TxnStreamError::Decode(_)) => OutcomeKind::DecodeFailed,
        Err(TxnStreamError::Connection(_)) => OutcomeKind::ChannelFailed,
    }
}

/// The outcome tags an open decoder emits over a sequence of channel events:
/// one per frame (decode failures are data, not termination), one for a fault
/// after which the sequence ends, none for closure, which only ends it.
pub open spec fn spec_emitted(events: Seq<StreamEvent>) -> Seq<OutcomeKind>
    decreases events.len(),
{
    if events.len() == 0 {
        Seq::empty()
    } else {
        match events[0] {
            StreamEvent::Frame(bytes) => seq![
                if spec_decodes(bytes@) {
                    OutcomeKind::Decoded
                } else {
                    OutcomeKind::DecodeFailed
                },
            ] + spec_emitted(events.drop_first()),
            StreamEvent::Fault(_) => seq![OutcomeKind::ChannelFailed],
            StreamEvent::Closed => Seq::empty(),
        }
    }
}

/// The frame-decoding state machine behind the transaction stream: it
/// consumes one resolved channel event at a time and decides what the stream
/// emits. It stays open across decode failures and closes only on channel
/// closure or after surfacing a channel-level fault.
pub struct FrameDecoder {
    open: bool,
}

impl FrameDecoder {
    /// Whether the decoder still accepts events; once closed it emits nothing
    /// further, ever.
    pub closed spec fn is_open(&self) -> bool {
        self.open
    }

    /// A fresh, open decoder.
    pub fn new() -> (r: Self)
        ensures
            r.is_open(),
    {
        FrameDecoder { open: true }
    }

    /// Whether the decoder still accepts events.
    pub fn is_active(&self) -> (r: bool)
        ensures
            r == self.is_open(),
    {
        self.open
    }

    /// Consumes one resolved channel event and returns what the stream emits
    /// for it: a decoded transaction or a decode failure for a frame (the
    /// decoder stays open either way), a connection error for a channel fault
    /// (the decoder then closes), and nothing for closure or once closed.
    pub fn on_event(&mut self, event: &StreamEvent) -> (r: Option<
        Result<Transaction, TxnStreamError>,
    >)
        ensures
            !old(self).is_open() ==> r is None && !final(self).is_open(),
            old(self).is_open() ==> match event {
                StreamEvent::Frame(bytes) => {
                    &&& final(self).is_open()
                    &&& r matches Some(item)
                    &&& item is Ok <==> spec_decodes(bytes@)
                    &&& item matches Err(e) ==> e is Decode
                },
                StreamEvent::Fault(e) => {
                    &&& !final(self).is_open()
                    &&& r matches Some(Err(TxnStreamError::Connection(msg))) && msg@
                        == spec_connection_msg(*e)
                },
                StreamEvent::Closed => r is None && !final(self).is_open(),
            },
    {
        if !self.open {
            return None;
        }
        match event {
            StreamEvent::Frame(bytes) => match decode_signed_frame(bytes) {
                Ok(tx) => Some(Ok(tx)),
                Err(e) => Some(Err(TxnStreamError::Decode(e))),
            },
            StreamEvent::Fault(e) => {
                self.open = false;
                Some(Err(TxnStreamError::from_channel_error(e)))
            },
            StreamEvent::Closed => {
                self.open = false;
                None
            },
        }
    }
}

/// Drives a fresh decoder over a whole sequence of resolved channel events and
/// collects everything the stream emits, in arrival order: the finite-feed
/// form of the consumer loop. Outcome `i` answers event `i`; the run ends at
/// the first fault (which still emits its connection error) or closure.
pub fn run_events(events: &Vec<StreamEvent>) -> (outcomes: Vec<
    Result<Transaction, TxnStreamError>,
>)
    ensures
        outcomes@.len() == spec_emitted(events@).len(),
        forall|i: int|
            0 <= i < outcomes@.len() ==> spec_kind_of(#[trigger] outcomes@[i]) == spec_emitted(
                events@,
            )[i],
        forall|i: int|
            0 <= i < outcomes@.len() ==> match events@[i] {
                StreamEvent::Frame(bytes) => (#[trigger] outcomes@[i]) is Ok <==> spec_decodes(
                    bytes@,
                ),
                StreamEvent::Fault(e) => outcomes@[i] matches Err(
                    TxnStreamError::Connection(msg),
                ) && msg@ == spec_connection_msg(e),
                StreamEvent::Closed => false,
            },
{
    let mut decoder = FrameDecoder::new();
    let mut outcomes: Vec<Result<Transaction, TxnStreamError>> = Vec::new();
    let mut i: usize = 0;
    proof {
        assert(events@.subrange(0, events@.len() as int) =~= events@);
        assert(Seq::new(0nat, |j: int| spec_kind_of(outcomes@[j]))
            =~= Seq::<OutcomeKind>::empty());
        assert(spec_emitted(events@) =~= Seq::new(0nat, |j: int| spec_kind_of(outcomes@[j]))
            + spec_emitted(events@.subrange(0, events@.len() as int)));
    }
    while i < events.len()
        invariant_except_break
            0 <= i <= events@.len(),
            decoder.is_open(),
            outcomes@.len() == i,
            spec_emitted(events@) =~= Seq::new(i as nat, |j: int| spec_kind_of(outcomes@[j]))
                + spec_emitted(events@.subrange(i as int, events@.len() as int)),
            forall|j: int|
                0 <= j < i ==> match events@[j] {
                    StreamEvent::Frame(bytes) => (#[trigger] outcomes@[j]) is Ok <==> spec_decodes(
                        bytes@,
                    ),
                    StreamEvent::Fault(e) => outcomes@[j] matches Err(
                        TxnStreamError::Connection(msg),
                    ) && msg@ == spec_connection_msg(e),
                    StreamEvent::Closed => false,
                },
        ensures
            outcomes@.len() == spec_emitted(events@).len(),
            forall|j: int|
                0 <= j < outcomes@.len() ==> spec_kind_of(#[trigger] outcomes@[j]) == spec_emitted(
                    events@,
                )[j],
            forall|j: int|
                0 <= j < outcomes@.len() ==> match events@[j] {
                    StreamEvent::Frame(bytes) => (#[trigger] outcomes@[j]) is Ok <==> spec_decodes(
                        bytes@,
                    ),
                    StreamEvent::Fault(e) => outcomes@[j] matches Err(
                        TxnStreamError::Connection(msg),
                    ) && msg@ == spec_connection_msg(e),
                    StreamEvent::Closed => false,
                },
        decreases events@.len() - i,
    {
        let ghost rest = events@.subrange(i as int, events@.len() as int);
        proof {
            assert(rest[0] == events@[i as int]);
            assert(rest.drop_first() =~= events@.subrange(i as int + 1, events@.len() as int));
        }
        let event = &events[i];
        let emitted = decoder.on_event(event);
        match emitted {
            Some(item) => {
                outcomes.push(item);
                i = i + 1;
                if !decoder.is_active() {
                    // A channel fault was surfaced: the stream ends here.
                    proof {
                        assert(spec_emitted(events@) =~= Seq::new(
                            i as nat,
                            |j: int| spec_kind_of(outcomes@[j]),
                        ));
                        assert(forall|j: int|
                            0 <= j < outcomes@.len() ==> spec_kind_of(#[trigger] outcomes@[j])
                                == spec_emitted(events@)[j]);
                    }
                    break ;
                }
                proof {
                    assert(spec_emitted(events@) =~= Seq::new(
                        i as nat,
                        |j: int| spec_kind_of(outcomes@[j]),
                    ) + spec_emitted(events@.subrange(i as int, events@.len() as int)));
                }
            },
            None => {
                // Clean closure: no outcome, the stream ends here.
                proof {
                    assert(spec_emitted(events@) =~= Seq::new(
                        i as nat,
                        |j: int| spec_kind_of(outcomes@[j]),
                    ));
                    assert(forall|j: int|
                        0 <= j < outcomes@.len() ==> spec_kind_of(#[trigger] outcomes@[j])
                            == spec_emitted(events@)[j]);
                }
                break ;
            },
        }
    }
    outcomes
}

/// Law: over a feed of delivered frames the decoder emits exactly one outcome
/// per frame — no drops, no merges — and a trailing channel closure emits no
/// outcome of its own.
pub proof fn lemma_one_outcome_per_frame(events: Seq<StreamEvent>)
    requires
        forall|i: int| 0 <= i < events.len() ==> events[i] is Frame,
    ensures
        spec_emitted(events).len() == events.len(),
        spec_emitted(events.push(StreamEvent::Closed)).len() == events.len(),
    decreases events.len(),
{
    if events.len() == 0 {
        assert(events.push(StreamEvent::Closed)[0] is Closed);
    } else {
        assert(events[0] is Frame);
        lemma_one_outcome_per_frame(events.drop_first());
        assert(events.push(StreamEvent::Closed).drop_first() =~= events.drop_first().push(
            StreamEvent::Closed,
        ));
    }
}

/// Law: a channel-level fault is followed by stream termination on the next
/// poll — the fault's own connection error is the last outcome emitted, and
/// nothing follows it, whatever events the channel would still deliver.
pub proof fn lemma_fault_terminates(events: Seq<StreamEvent>, i: int)
    requires
        0 <= i < events.len(),
        events[i] is Fault,
        forall|j: int| 0 <= j < i ==> events[j] is Frame,
    ensures
        spec_emitted(events).len() == i + 1,
        spec_emitted(events)[i] == OutcomeKind::ChannelFailed,
    decreases i,
{
    if i == 0 {
        assert(events[0] is Fault);
    } else {
        assert(events[0] is Frame);
        lemma_fault_terminates(events.drop_first(), i - 1);
    }
}

/// Law: an empty channel — zero frames, immediate closure — yields an empty
/// outcome sequence.
pub proof fn lemma_empty_channel_emits_nothing()
    ensures
        spec_emitted(Seq::<StreamEvent>::empty()).len() == 0,
        spec_emitted(seq![StreamEvent::Closed]).len() == 0,
{
    assert(seq![StreamEvent::Closed][0] is Closed);
}

} // verus!
