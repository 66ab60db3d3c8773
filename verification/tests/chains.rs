use titan_core::enum_matrix::ChainId;

#[test]
fn test_chain_id_conversion() {
    assert_eq!(ChainId::from_u64(1), Some(ChainId::Ethereum));
    assert_eq!(ChainId::from_u64(137), Some(ChainId::Polygon));
    assert_eq!(ChainId::from_u64(999999), None);
}

#[test]
fn test_chain_names() {
    assert_eq!(ChainId::Ethereum.name(), "ethereum");
    assert_eq!(ChainId::Polygon.name(), "polygon");
    assert_eq!(ChainId::Arbitrum.name(), "arbitrum");
}

#[test]
fn test_all_chains() {
    let chains = ChainId::all();
    assert_eq!(chains.len(), 14);
    assert!(chains.contains(&ChainId::Ethereum));
    assert!(chains.contains(&ChainId::Polygon));
}

#[test]
fn chain_ids_round_trip() {
    for c in ChainId::all() {
        assert_eq!(ChainId::from_u64(c.as_u64()), Some(c));
    }
    assert_eq!(ChainId::Scroll.as_u64(), 534352);
    assert_eq!(ChainId::OpBnb.name(), "opbnb");
}
