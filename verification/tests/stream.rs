use merkle_sdk_transactions::ChannelError;
use merkle_sdk_transactions::FrameDecoder;
use merkle_sdk_transactions::StreamEvent;
use merkle_sdk_transactions::TxnStreamError;
use merkle_sdk_transactions::run_events;

fn valid_rlp_txn() -> Vec<u8> {
    vec![
        2, 248, 107, 1, 4, 132, 1, 241, 4, 152, 133, 4, 197, 251, 94, 222, 130, 82, 8, 148, 42,
        143, 43, 0, 153, 133, 79, 69, 45, 148, 13, 174, 94, 96, 129, 220, 154, 24, 12, 228, 128,
        128, 192, 128, 160, 32, 251, 220, 146, 202, 250, 137, 95, 31, 70, 37, 187, 189, 168, 76,
        151, 225, 168, 234, 183, 111, 97, 191, 191, 177, 35, 110, 20, 240, 49, 144, 119, 160, 74,
        114, 74, 164, 66, 217, 218, 199, 137, 224, 234, 84, 63, 255, 26, 106, 48, 77, 205, 70, 42,
        248, 159, 53, 29, 31, 154, 42, 178, 143, 112, 234,
    ]
}

#[test]
fn stream_can_decode_txns() {
    let mut decoder = FrameDecoder::new();
    match decoder.on_event(&StreamEvent::Frame(valid_rlp_txn())) {
        Some(Ok(_tx)) => assert!(true),
        _ => unreachable!(),
    }
}

#[test]
fn stream_can_handle_connection_errors() {
    let raw = tokio_tungstenite::tungstenite::Error::ConnectionClosed;
    let fault = StreamEvent::Fault(ChannelError::Transport(raw.to_string()));
    let mut decoder = FrameDecoder::new();
    match decoder.on_event(&fault) {
        Some(Err(TxnStreamError::Connection(_))) => assert!(true),
        _ => unreachable!(),
    }
}

#[test]
fn stream_can_handle_decoding_errors() {
    let wrong_rlp: Vec<u8> = vec![1, 23, 43, 5, 6];
    let mut decoder = FrameDecoder::new();
    match decoder.on_event(&StreamEvent::Frame(wrong_rlp)) {
        Some(Err(TxnStreamError::Decode(_))) => assert!(true),
        _ => unreachable!(),
    }
}

#[test]
fn stream_can_handle_last_message() {
    let mut decoder = FrameDecoder::new();
    match decoder.on_event(&StreamEvent::Closed) {
        None => assert!(true),
        _ => unreachable!(),
    }
}

#[test]
fn decode_failure_keeps_stream_open() {
    let mut decoder = FrameDecoder::new();
    let first = decoder.on_event(&StreamEvent::Frame(vec![1, 23, 43, 5, 6]));
    assert!(matches!(first, Some(Err(TxnStreamError::Decode(_)))));
    assert!(decoder.is_active());
    let second = decoder.on_event(&StreamEvent::Frame(valid_rlp_txn()));
    assert!(matches!(second, Some(Ok(_))));
}

#[test]
fn channel_fault_terminates_stream() {
    let mut decoder = FrameDecoder::new();
    let fault = StreamEvent::Fault(ChannelError::Transport("reset".to_string()));
    let first = decoder.on_event(&fault);
    assert!(matches!(first, Some(Err(TxnStreamError::Connection(_)))));
    assert!(!decoder.is_active());
    let after = decoder.on_event(&StreamEvent::Frame(valid_rlp_txn()));
    assert!(after.is_none());
}

#[test]
fn valid_then_garbage_frames() {
    let events = vec![
        StreamEvent::Frame(valid_rlp_txn()),
        StreamEvent::Frame(vec![1, 23, 43, 5, 6]),
        StreamEvent::Closed,
    ];
    let outcomes = run_events(&events);
    assert_eq!(outcomes.len(), 2);
    assert!(matches!(outcomes[0], Ok(_)));
    assert!(matches!(outcomes[1], Err(TxnStreamError::Decode(_))));
}

#[test]
fn empty_channel_yields_no_outcomes() {
    let events = vec![StreamEvent::Closed];
    let outcomes = run_events(&events);
    assert_eq!(outcomes.len(), 0);
    let no_events: Vec<StreamEvent> = vec![];
    assert_eq!(run_events(&no_events).len(), 0);
}

#[test]
fn fault_is_last_outcome_of_run() {
    let events = vec![
        StreamEvent::Frame(valid_rlp_txn()),
        StreamEvent::Fault(ChannelError::Transport("reset".to_string())),
        StreamEvent::Frame(valid_rlp_txn()),
    ];
    let outcomes = run_events(&events);
    assert_eq!(outcomes.len(), 2);
    assert!(matches!(outcomes[0], Ok(_)));
    assert!(matches!(outcomes[1], Err(TxnStreamError::Connection(_))));
}

#[test]
fn decoded_txn_round_trips_to_original_bytes() {
    let bytes = valid_rlp_txn();
    let mut decoder = FrameDecoder::new();
    match decoder.on_event(&StreamEvent::Frame(bytes.clone())) {
        Some(Ok(tx)) => {
            let encoded = tx.rlp_signed().expect("encodable signature");
            assert_eq!(encoded.as_ref(), &bytes[..]);
        }
        _ => unreachable!(),
    }
}

#[test]
fn undefined_v_encoding_is_refused_not_panicking() {
    // Rewrite the fixture's `v` (the byte after the empty access list, RLP
    // `0x80` for zero) to the bare value 27: the frame still decodes, but the
    // typed-transaction encoding folds `v - 2*chain_id - 35`, which is not
    // defined for 27, so re-encoding must answer `None`.
    let mut bytes = valid_rlp_txn();
    let pos = bytes
        .windows(3)
        .position(|w| w == [192, 128, 160])
        .expect("fixture has empty access list before v");
    bytes[pos + 1] = 27;
    let mut decoder = FrameDecoder::new();
    match decoder.on_event(&StreamEvent::Frame(bytes)) {
        Some(Ok(tx)) => assert!(tx.rlp_signed().is_none()),
        _ => unreachable!(),
    }
}
