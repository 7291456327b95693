use beaug::device_errors::LedgerBackend;
use beaug::settings::{
    default_bulk_outputs, default_coin_type, default_custom_networks,
    default_ledger_refresh_interval, default_remaining_balance, default_scan_empty_streak,
    default_scan_start_index, default_split_outputs, default_use_native_ledger, CustomNetwork,
    CustomNetworkFormState, NetworkSelection,
};

#[test]
fn test_custom_network_new() {
    let network = CustomNetwork::new(
        "Test Network".to_string(),
        12345,
        "TEST".to_string(),
        "https://rpc.test.com".to_string(),
    );
    assert_eq!(network.label, "Test Network");
    assert_eq!(network.chain_id, 12345);
    assert_eq!(network.native_token, "TEST");
    assert_eq!(network.rpc_url, "https://rpc.test.com");
}

#[test]
fn test_custom_network_equality() {
    let network1 = CustomNetwork::new("Net".to_string(), 1, "ETH".to_string(), "https://a.com".to_string());
    let network2 = CustomNetwork::new("Net".to_string(), 1, "ETH".to_string(), "https://a.com".to_string());
    assert_eq!(network1, network2);
    let network3 = CustomNetwork::new("Net".to_string(), 2, "ETH".to_string(), "https://a.com".to_string());
    assert!(network1 != network3);
}

#[test]
fn test_backend_from_settings_native() {
    let backend = LedgerBackend::from_settings(default_use_native_ledger());
    assert_eq!(backend, LedgerBackend::Native);
}

#[test]
fn test_backend_from_settings_cast() {
    let backend = LedgerBackend::from_settings(false);
    assert_eq!(backend, LedgerBackend::Cast);
}

#[test]
fn test_backend_display_names() {
    assert_eq!(LedgerBackend::Cast.display_name(), "Foundry Cast");
    assert_eq!(LedgerBackend::Native.display_name(), "Native (ethers-rs)");
}

#[test]
fn settings_defaults() {
    assert!(default_custom_networks().is_empty());
    assert_eq!(default_coin_type(), None);
    assert_eq!(default_split_outputs(), 5);
    assert_eq!(default_bulk_outputs(), 10);
    assert_eq!(default_scan_start_index(), 0);
    assert_eq!(default_scan_empty_streak(), 5);
    assert_eq!(default_ledger_refresh_interval(), 5);
    assert_eq!(default_remaining_balance(), 0);
}

#[test]
fn network_selection_prefers_builtin_then_custom_then_first() {
    let customs = vec![CustomNetwork::new("Local".to_string(), 31337, "ETH".to_string(), "http://localhost:8545".to_string())];
    assert_eq!(NetworkSelection::from_chain_id(137, &customs), NetworkSelection::Builtin(5));
    assert_eq!(NetworkSelection::from_chain_id(31337, &customs), NetworkSelection::Custom(31337));
    assert_eq!(NetworkSelection::from_chain_id(777, &customs), NetworkSelection::Builtin(0));
}

#[test]
fn custom_network_form_fills_and_clears() {
    let mut form = CustomNetworkFormState::default();
    let net = CustomNetwork::new("Local".to_string(), 31337, "ETH".to_string(), "http://localhost:8545".to_string());
    form.error = Some("bad".to_string());
    form.populate_from(&net);
    assert_eq!(form.label, "Local");
    assert_eq!(form.chain_id, "31337");
    assert_eq!(form.native_token, "ETH");
    assert_eq!(form.rpc_url, "http://localhost:8545");
    assert_eq!(form.error, None);
    assert_eq!(form.editing_chain_id, Some(31337));
    form.clear();
    assert!(form.label.is_empty() && form.chain_id.is_empty() && form.rpc_url.is_empty());
    assert_eq!(form.editing_chain_id, None);
}
