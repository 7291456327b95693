use beaug::config::{
    build_hd_path, chain_gas_description, chain_supports_eip1559, find_network_by_chain_id,
    find_network_index, get_address_explorer_url, get_block_explorer_url, get_slip44_coin_type,
    get_tx_explorer_url, is_builtin_chain_id, networks, DerivationMode, DEFAULT_COIN_TYPE,
};

#[test]
fn test_find_network_by_chain_id_ethereum() {
    let network = find_network_by_chain_id(1);
    assert!(network.is_some());
    let network = network.unwrap();
    assert_eq!(network.label, "Ethereum");
    assert_eq!(network.native_token, "ETH");
}

#[test]
fn test_find_network_by_chain_id_sepolia() {
    let network = find_network_by_chain_id(11155111);
    assert!(network.is_some());
    assert_eq!(network.unwrap().label, "Sepolia");
}

#[test]
fn test_find_network_by_chain_id_not_found() {
    let network = find_network_by_chain_id(999999);
    assert!(network.is_none());
}

#[test]
fn test_find_network_index_ethereum() {
    let index = find_network_index(1);
    assert!(index.is_some());
    assert_eq!(index.unwrap(), 0);
}

#[test]
fn test_find_network_index_not_found() {
    let index = find_network_index(999999);
    assert!(index.is_none());
}

#[test]
fn test_is_builtin_chain_id_true() {
    assert!(is_builtin_chain_id(1));
    assert!(is_builtin_chain_id(137));
    assert!(is_builtin_chain_id(100));
}

#[test]
fn test_is_builtin_chain_id_false() {
    assert!(!is_builtin_chain_id(999999));
    assert!(!is_builtin_chain_id(31337));
}

#[test]
fn test_get_slip44_coin_type_ethereum() {
    assert_eq!(get_slip44_coin_type(1), 60);
}

#[test]
fn test_get_slip44_coin_type_ethereum_classic() {
    assert_eq!(get_slip44_coin_type(61), 61);
}

#[test]
fn test_get_slip44_coin_type_bnb() {
    assert_eq!(get_slip44_coin_type(56), 714);
}

#[test]
fn test_get_slip44_coin_type_polygon() {
    assert_eq!(get_slip44_coin_type(137), 966);
}

#[test]
fn test_get_slip44_coin_type_unknown_defaults_to_60() {
    assert_eq!(get_slip44_coin_type(999999), DEFAULT_COIN_TYPE);
    assert_eq!(get_slip44_coin_type(59144), DEFAULT_COIN_TYPE);
}

#[test]
fn test_chain_supports_eip1559_ethereum_mainnet() {
    assert!(chain_supports_eip1559(1));
}

#[test]
fn test_chain_supports_eip1559_testnets() {
    assert!(chain_supports_eip1559(11155111));
    assert!(chain_supports_eip1559(560048));
}

#[test]
fn test_chain_supports_eip1559_l2s() {
    assert!(chain_supports_eip1559(10));
    assert!(chain_supports_eip1559(8453));
    assert!(chain_supports_eip1559(59144));
    assert!(chain_supports_eip1559(100));
}

#[test]
fn test_chain_supports_eip1559_legacy_chains() {
    assert!(!chain_supports_eip1559(56));
    assert!(!chain_supports_eip1559(61));
    assert!(!chain_supports_eip1559(250));
}

#[test]
fn test_chain_supports_eip1559_unknown_defaults_true() {
    assert!(chain_supports_eip1559(999999));
}

#[test]
fn test_chain_gas_description_ethereum() {
    let desc = chain_gas_description(1);
    assert!(desc.contains("High fees"));
}

#[test]
fn test_chain_gas_description_testnet() {
    let desc = chain_gas_description(11155111);
    assert!(desc.contains("Testnet"));
}

#[test]
fn test_chain_gas_description_unknown() {
    let desc = chain_gas_description(999999);
    assert!(desc.contains("Standard speed"));
}

#[test]
fn test_derivation_mode_account_index() {
    let mode = DerivationMode::AccountIndex;
    let path = mode.get_path(5, 0, 0, 60);
    assert_eq!(path, "m/44'/60'/5'/0/0");
}

#[test]
fn test_derivation_mode_account_index_with_custom_address() {
    let mode = DerivationMode::AccountIndex;
    let path = mode.get_path(3, 0, 2, 60);
    assert_eq!(path, "m/44'/60'/3'/0/2");
}

#[test]
fn test_derivation_mode_address_index() {
    let mode = DerivationMode::AddressIndex;
    let path = mode.get_path(5, 0, 0, 60);
    assert_eq!(path, "m/44'/60'/0'/0/5");
}

#[test]
fn test_derivation_mode_address_index_with_custom_account() {
    let mode = DerivationMode::AddressIndex;
    let path = mode.get_path(7, 2, 0, 60);
    assert_eq!(path, "m/44'/60'/2'/0/7");
}

#[test]
fn test_derivation_mode_different_coin_type() {
    let mode = DerivationMode::AccountIndex;
    let path = mode.get_path(0, 0, 0, 714);
    assert_eq!(path, "m/44'/714'/0'/0/0");
}

#[test]
fn test_derivation_mode_default() {
    assert_eq!(DerivationMode::default(), DerivationMode::AccountIndex);
}

#[test]
fn test_build_hd_path_account_index() {
    let path = build_hd_path(5, DerivationMode::AccountIndex, 0, 0, 60);
    assert_eq!(path, "m/44'/60'/5'/0/0");
}

#[test]
fn test_build_hd_path_address_index() {
    let path = build_hd_path(5, DerivationMode::AddressIndex, 2, 0, 60);
    assert_eq!(path, "m/44'/60'/2'/0/5");
}

#[test]
fn test_build_hd_path_custom_coin_type() {
    let path = build_hd_path(0, DerivationMode::AccountIndex, 0, 0, 714);
    assert_eq!(path, "m/44'/714'/0'/0/0");
}

#[test]
fn network_table_has_thirteen_unique_chains() {
    let table = networks();
    assert_eq!(table.len(), 13);
    for (i, a) in table.iter().enumerate() {
        for b in table.iter().skip(i + 1) {
            assert_ne!(a.chain_id, b.chain_id);
        }
    }
    assert_eq!(table[5].native_token, "POL");
}

#[test]
fn explorer_urls_are_built_from_the_base() {
    assert_eq!(get_block_explorer_url(8453), Some("https://basescan.org"));
    assert_eq!(get_block_explorer_url(31337), None);
    assert_eq!(
        get_tx_explorer_url(1, "0xabc"),
        Some("https://etherscan.io/tx/0xabc".to_string())
    );
    assert_eq!(
        get_address_explorer_url(137, "0xdef"),
        Some("https://polygonscan.com/address/0xdef".to_string())
    );
    assert_eq!(get_tx_explorer_url(999999, "0xabc"), None);
}

#[test]
fn derivation_path_renders_large_indices() {
    let path = DerivationMode::AddressIndex.get_path(4294967295, 10, 0, 9005);
    assert_eq!(path, "m/44'/9005'/10'/0/4294967295");
}
