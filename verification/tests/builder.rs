use merkle_sdk_transactions::ChainId;
use merkle_sdk_transactions::ChainName;
use merkle_sdk_transactions::ConnectionBuilder;
use merkle_sdk_transactions::u64_to_dec_string;

#[test]
fn chain_name_identifiers() {
    assert_eq!(ChainName::Mainnet.as_u64(), 1);
    assert_eq!(ChainName::Polygon.as_u64(), 137);
    assert_eq!(ChainName::Bsc.as_u64(), 56);
}

#[test]
fn chain_id_passes_named_and_raw_values() {
    assert_eq!(ChainId::Named(ChainName::Polygon).as_u64(), 137);
    assert_eq!(ChainId::Id(42).as_u64(), 42);
}

#[test]
fn default_endpoint_uses_mainnet_and_base_url() {
    let url = ConnectionBuilder::new("my-key").endpoint_url();
    assert_eq!(url, "wss://txs.merkle.io/ws/my-key/1");
}

#[test]
fn chain_setters_pick_the_fixed_identifiers() {
    assert_eq!(
        ConnectionBuilder::new("k").polygon().endpoint_url(),
        "wss://txs.merkle.io/ws/k/137"
    );
    assert_eq!(
        ConnectionBuilder::new("k").bsc().endpoint_url(),
        "wss://txs.merkle.io/ws/k/56"
    );
    assert_eq!(
        ConnectionBuilder::new("k").bsc().mainnet().endpoint_url(),
        "wss://txs.merkle.io/ws/k/1"
    );
    assert_eq!(
        ConnectionBuilder::new("k").chain(ChainId::Id(8453)).endpoint_url(),
        "wss://txs.merkle.io/ws/k/8453"
    );
}

#[test]
fn base_url_override_is_kept() {
    let url = ConnectionBuilder::new("k")
        .base_url("wss://example.invalid/feed")
        .polygon()
        .endpoint_url();
    assert_eq!(url, "wss://example.invalid/feed/k/137");
}

#[test]
fn decimal_rendering_is_exact() {
    assert_eq!(u64_to_dec_string(0), "0");
    assert_eq!(u64_to_dec_string(7), "7");
    assert_eq!(u64_to_dec_string(10), "10");
    assert_eq!(u64_to_dec_string(137), "137");
    assert_eq!(u64_to_dec_string(u64::MAX), "18446744073709551615");
}
