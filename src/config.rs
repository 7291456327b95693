//! Static metadata of the supported networks and HD derivation paths.

use vstd::prelude::*;
use vstd::string::*;
use crate::text::{decimal, push_decimal};

verus! {

/// Network category for grouping.
#[derive(Clone, Copy, Debug, PartialEq, Eq, Structural)]
pub enum NetworkCategory {
    EthereumMainnet,
    EthereumTestnet,
    L2Mainnet,
    OtherMainnet,
    L2Testnet,
}

/// A predefined EVM-compatible network.
#[derive(Clone, Copy, Debug)]
pub struct EvmNetwork {
    pub label: &'static str,
    pub chain_id: u64,
    pub native_token: &'static str,
    pub default_rpc: &'static str,
    pub category: NetworkCategory,
}

impl EvmNetwork {
    /// A network entry from its parts.
    pub fn new(
        label: &'static str,
        chain_id: u64,
        native_token: &'static str,
        default_rpc: &'static str,
        category: NetworkCategory,
    ) -> (r: Self)
        ensures
            r == (EvmNetwork { label, chain_id, native_token, default_rpc, category }),
    {
        EvmNetwork { label, chain_id, native_token, default_rpc, category }
    }
}

/// The built-in networks, in display order.
pub open spec fn network_table() -> Seq<EvmNetwork> {
    seq![
        EvmNetwork {
            label: "Ethereum",
            chain_id: 1,
            native_token: "ETH",
            default_rpc: "https://ethereum-rpc.publicnode.com",
            category: NetworkCategory::EthereumMainnet,
        },
        EvmNetwork {
            label: "Sepolia",
            chain_id: 11155111,
            native_token: "ETH",
            default_rpc: "https://ethereum-sepolia-rpc.publicnode.com",
            category: NetworkCategory::EthereumTestnet,
        },
        EvmNetwork {
            label: "Hoodi",
            chain_id: 560048,
            native_token: "ETH",
            default_rpc: "https://rpc.hoodi.ethpandaops.io",
            category: NetworkCategory::EthereumTestnet,
        },
        EvmNetwork {
            label: "Optimism",
            chain_id: 10,
            native_token: "ETH",
            default_rpc: "https://mainnet.optimism.io",
            category: NetworkCategory::L2Mainnet,
        },
        EvmNetwork {
            label: "Base",
            chain_id: 8453,
            native_token: "ETH",
            default_rpc: "https://mainnet.base.org",
            category: NetworkCategory::L2Mainnet,
        },
        EvmNetwork {
            label: "Polygon",
            chain_id: 137,
            native_token: "POL",
            default_rpc: "https://polygon-rpc.com",
            category: NetworkCategory::L2Mainnet,
        },
        EvmNetwork {
            label: "Linea",
            chain_id: 59144,
            native_token: "ETH",
            default_rpc: "https://rpc.linea.build",
            category: NetworkCategory::L2Mainnet,
        },
        EvmNetwork {
            label: "Gnosis Chain",
            chain_id: 100,
            native_token: "xDAI",
            default_rpc: "https://rpc.gnosischain.com",
            category: NetworkCategory::L2Mainnet,
        },
        EvmNetwork {
            label: "BNB Chain",
            chain_id: 56,
            native_token: "BNB",
            default_rpc: "https://bsc-dataseed.binance.org",
            category: NetworkCategory::OtherMainnet,
        },
        EvmNetwork {
            label: "Avalanche C-Chain",
            chain_id: 43114,
            native_token: "AVAX",
            default_rpc: "https://avalanche-c-chain-rpc.publicnode.com",
            category: NetworkCategory::OtherMainnet,
        },
        EvmNetwork {
            label: "Ethereum Classic",
            chain_id: 61,
            native_token: "ETC",
            default_rpc: "https://etc.rivet.link",
            category: NetworkCategory::OtherMainnet,
        },
        EvmNetwork {
            label: "Pulsechain",
            chain_id: 369,
            native_token: "PLS",
            default_rpc: "https://rpc.pulsechain.com",
            category: NetworkCategory::OtherMainnet,
        },
        EvmNetwork {
            label: "Celo",
            chain_id: 42220,
            native_token: "CELO",
            default_rpc: "https://forno.celo.org",
            category: NetworkCategory::OtherMainnet,
        },
    ]
}

/// The built-in networks, in display order.
pub fn networks() -> (r: Vec<EvmNetwork>)
    ensures
        r@ == network_table(),
{
    let mut v: Vec<EvmNetwork> = Vec::new();
    v.push(EvmNetwork::new("Ethereum", 1, "ETH", "https://ethereum-rpc.publicnode.com", NetworkCategory::EthereumMainnet));
    v.push(EvmNetwork::new("Sepolia", 11155111, "ETH", "https://ethereum-sepolia-rpc.publicnode.com", NetworkCategory::EthereumTestnet));
    v.push(EvmNetwork::new("Hoodi", 560048, "ETH", "https://rpc.hoodi.ethpandaops.io", NetworkCategory::EthereumTestnet));
    v.push(EvmNetwork::new("Optimism", 10, "ETH", "https://mainnet.optimism.io", NetworkCategory::L2Mainnet));
    v.push(EvmNetwork::new("Base", 8453, "ETH", "https://mainnet.base.org", NetworkCategory::L2Mainnet));
    v.push(EvmNetwork::new("Polygon", 137, "POL", "https://polygon-rpc.com", NetworkCategory::L2Mainnet));
    v.push(EvmNetwork::new("Linea", 59144, "ETH", "https://rpc.linea.build", NetworkCategory::L2Mainnet));
    v.push(EvmNetwork::new("Gnosis Chain", 100, "xDAI", "https://rpc.gnosischain.com", NetworkCategory::L2Mainnet));
    v.push(EvmNetwork::new("BNB Chain", 56, "BNB", "https://bsc-dataseed.binance.org", NetworkCategory::OtherMainnet));
    v.push(EvmNetwork::new("Avalanche C-Chain", 43114, "AVAX", "https://avalanche-c-chain-rpc.publicnode.com", NetworkCategory::OtherMainnet));
    v.push(EvmNetwork::new("Ethereum Classic", 61, "ETC", "https://etc.rivet.link", NetworkCategory::OtherMainnet));
    v.push(EvmNetwork::new("Pulsechain", 369, "PLS", "https://rpc.pulsechain.com", NetworkCategory::OtherMainnet));
    v.push(EvmNetwork::new("Celo", 42220, "CELO", "https://forno.celo.org", NetworkCategory::OtherMainnet));
    assert(v@ =~= network_table());
    v
}

/// The position of the first built-in network with `chain_id`, if any.
pub fn find_network_index(chain_id: u64) -> (r: Option<usize>)
    ensures
        r matches Some(i) ==> i < network_table().len() && network_table()[i as int].chain_id
            == chain_id && forall|j: int| 0 <= j < i ==> (#[trigger] network_table()[j]).chain_id
            != chain_id,
        r is None ==> forall|j: int|
            0 <= j < network_table().len() ==> (#[trigger] network_table()[j]).chain_id != chain_id,
{
    let table = networks();
    let mut i: usize = 0;
    while i < table.len()
        invariant
            table@ == network_table(),
            i <= table.len(),
            forall|j: int| 0 <= j < i ==> (#[trigger] network_table()[j]).chain_id != chain_id,
        decreases table.len() - i,
    {
        if table[i].chain_id == chain_id {
            return Some(i);
        }
        i = i + 1;
    }
    None
}

/// The first built-in network with `chain_id`, if any.
pub fn find_network_by_chain_id(chain_id: u64) -> (r: Option<EvmNetwork>)
    ensures
        r matches Some(n) ==> exists|i: int|
            0 <= i < network_table().len() && n == network_table()[i] && n.chain_id == chain_id,
        r is None ==> forall|j: int|
            0 <= j < network_table().len() ==> (#[trigger] network_table()[j]).chain_id != chain_id,
{
    match find_network_index(chain_id) {
        Some(i) => {
            let table = networks();
            Some(table[i])
        },
        None => None,
    }
}

/// True when a built-in network uses `chain_id`.
pub fn is_builtin_chain_id(chain_id: u64) -> (r: bool)
    ensures
        r == exists|i: int| 0 <= i < network_table().len() && (#[trigger] network_table()[i]).chain_id == chain_id,
{
    match find_network_index(chain_id) {
        Some(_) => true,
        None => false,
    }
}

/// The block explorer of a chain.
pub open spec fn explorer_of(chain_id: u64) -> Option<&'static str> {
    if chain_id == 1 {
        Some("https://etherscan.io")
    } else if chain_id == 11155111 {
        Some("https://sepolia.etherscan.io")
    } else if chain_id == 560048 {
        Some("https://hoodi.ethpandaops.io")
    } else if chain_id == 10 {
        Some("https://optimistic.etherscan.io")
    } else if chain_id == 8453 {
        Some("https://basescan.org")
    } else if chain_id == 137 {
        Some("https://polygonscan.com")
    } else if chain_id == 59144 {
        Some("https://lineascan.build")
    } else if chain_id == 100 {
        Some("https://gnosisscan.io")
    } else if chain_id == 56 {
        Some("https://bscscan.com")
    } else if chain_id == 43114 {
        Some("https://snowtrace.io")
    } else if chain_id == 61 {
        Some("https://etc.blockscout.com")
    } else if chain_id == 369 {
        Some("https://scan.pulsechain.com")
    } else if chain_id == 42220 {
        Some("https://celoscan.io")
    } else {
        None
    }
}

/// The base URL of the block explorer of a chain, if one is known.
pub fn get_block_explorer_url(chain_id: u64) -> (r: Option<&'static str>)
    ensures
        r == explorer_of(chain_id),
{
    if chain_id == 1 {
        Some("https://etherscan.io")
    } else if chain_id == 11155111 {
        Some("https://sepolia.etherscan.io")
    } else if chain_id == 560048 {
        Some("https://hoodi.ethpandaops.io")
    } else if chain_id == 10 {
        Some("https://optimistic.etherscan.io")
    } else if chain_id == 8453 {
        Some("https://basescan.org")
    } else if chain_id == 137 {
        Some("https://polygonscan.com")
    } else if chain_id == 59144 {
        Some("https://lineascan.build")
    } else if chain_id == 100 {
        Some("https://gnosisscan.io")
    } else if chain_id == 56 {
        Some("https://bscscan.com")
    } else if chain_id == 43114 {
        Some("https://snowtrace.io")
    } else if chain_id == 61 {
        Some("https://etc.blockscout.com")
    } else if chain_id == 369 {
        Some("https://scan.pulsechain.com")
    } else if chain_id == 42220 {
        Some("https://celoscan.io")
    } else {
        None
    }
}

/// The explorer URL of a transaction: the explorer's base, `/tx/`, the hash.
pub fn get_tx_explorer_url(chain_id: u64, tx_hash: &str) -> (r: Option<String>)
    ensures
        explorer_of(chain_id) is None ==> r is None,
        explorer_of(chain_id) matches Some(base) ==> r matches Some(u) && u@ == base@ + "/tx/"@
            + tx_hash@,
{
    match get_block_explorer_url(chain_id) {
        Some(base) => {
            let mut u = String::from_str(base);
            u.append("/tx/");
            u.append(tx_hash);
            Some(u)
        },
        None => None,
    }
}

/// The explorer URL of an address: the explorer's base, `/address/`, the
/// address.
pub fn get_address_explorer_url(chain_id: u64, address: &str) -> (r: Option<String>)
    ensures
        explorer_of(chain_id) is None ==> r is None,
        explorer_of(chain_id) matches Some(base) ==> r matches Some(u) && u@ == base@
            + "/address/"@ + address@,
{
    match get_block_explorer_url(chain_id) {
        Some(base) => {
            let mut u = String::from_str(base);
            u.append("/address/");
            u.append(address);
            Some(u)
        },
        None => None,
    }
}

/// The BIP-44 coin type used for every EVM chain unless told otherwise.
pub const DEFAULT_COIN_TYPE: u32 = 60;

/// The SLIP-44 registered coin type of a chain.
pub open spec fn slip44_of(chain_id: u64) -> u32 {
    if chain_id == 1 {
        60
    } else if chain_id == 61 {
        61
    } else if chain_id == 56 {
        714
    } else if chain_id == 137 {
        966
    } else if chain_id == 43114 {
        9005
    } else if chain_id == 250 {
        1007
    } else {
        DEFAULT_COIN_TYPE
    }
}

/// The SLIP-44 registered coin type of a chain; Ethereum's for the others.
pub fn get_slip44_coin_type(chain_id: u64) -> (r: u32)
    ensures
        r == slip44_of(chain_id),
{
    if chain_id == 1 {
        60
    } else if chain_id == 61 {
        61
    } else if chain_id == 56 {
        714
    } else if chain_id == 137 {
        966
    } else if chain_id == 43114 {
        9005
    } else if chain_id == 250 {
        1007
    } else {
        DEFAULT_COIN_TYPE
    }
}

/// Chains known to lack dynamic-fee (type 2) transactions.
pub open spec fn legacy_gas_chain(chain_id: u64) -> bool {
    chain_id == 56 || chain_id == 61 || chain_id == 250
}

/// True unless the chain is known to lack dynamic-fee transactions.
pub fn chain_supports_eip1559(chain_id: u64) -> (r: bool)
    ensures
        r == !legacy_gas_chain(chain_id),
{
    !(chain_id == 56 || chain_id == 61 || chain_id == 250)
}

/// A description of a chain's gas characteristics.
pub open spec fn gas_description_of(chain_id: u64) -> &'static str {
    if chain_id == 1 {
        "High fees, volatile pricing. Use Standard for normal priority."
    } else if chain_id == 10 {
        "Low fees. Standard speed is usually sufficient."
    } else if chain_id == 8453 {
        "Low fees. Standard speed is usually sufficient."
    } else if chain_id == 59144 {
        "Low fees. Standard speed is usually sufficient."
    } else if chain_id == 100 {
        "Low fees. Standard speed is usually sufficient."
    } else if chain_id == 137 {
        "Very low fees. Can use higher speeds without significant cost."
    } else if chain_id == 56 {
        "Low fixed fees. Speed has minimal impact on cost."
    } else if chain_id == 11155111 {
        "Testnet - gas is free but may need higher speed for inclusion."
    } else if chain_id == 560048 {
        "Testnet - gas is free but may need higher speed for inclusion."
    } else if chain_id == 369 {
        "Low fees similar to Ethereum pre-merge."
    } else {
        "Standard speed (1.0x) recommended for most transactions."
    }
}

/// A description of a chain's gas characteristics.
pub fn chain_gas_description(chain_id: u64) -> (r: &'static str)
    ensures
        r == gas_description_of(chain_id),
{
    if chain_id == 1 {
        "High fees, volatile pricing. Use Standard for normal priority."
    } else if chain_id == 10 {
        "Low fees. Standard speed is usually sufficient."
    } else if chain_id == 8453 {
        "Low fees. Standard speed is usually sufficient."
    } else if chain_id == 59144 {
        "Low fees. Standard speed is usually sufficient."
    } else if chain_id == 100 {
        "Low fees. Standard speed is usually sufficient."
    } else if chain_id == 137 {
        "Very low fees. Can use higher speeds without significant cost."
    } else if chain_id == 56 {
        "Low fixed fees. Speed has minimal impact on cost."
    } else if chain_id == 11155111 {
        "Testnet - gas is free but may need higher speed for inclusion."
    } else if chain_id == 560048 {
        "Testnet - gas is free but may need higher speed for inclusion."
    } else if chain_id == 369 {
        "Low fees similar to Ethereum pre-merge."
    } else {
        "Standard speed (1.0x) recommended for most transactions."
    }
}

/// Which level of the HD path varies with the index.
#[derive(Clone, Copy, Debug, PartialEq, Eq, Structural)]
pub enum DerivationMode {
    /// `m/44'/c'/i'/0/a`: the account varies.
    AccountIndex,
    /// `m/44'/c'/a'/0/i`: the address index varies.
    AddressIndex,
}

impl Default for DerivationMode {
    fn default() -> (r: Self)
        ensures
            r == DerivationMode::AccountIndex,
    {
        DerivationMode::AccountIndex
    }
}

/// The BIP-44 path with the given coin type, account and address index.
pub open spec fn bip44_path(coin_type: u32, account: u32, address_index: u32) -> Seq<char> {
    "m/44'/"@ + decimal(coin_type as nat) + "'/"@ + decimal(account as nat) + "'/0/"@ + decimal(
        address_index as nat,
    )
}

impl DerivationMode {
    /// The derivation path of `index`: it stands for the account in
    /// account-index mode (the address index is then `custom_address_index`)
    /// and for the address index in address-index mode (the account is then
    /// `custom_account`).
    pub fn get_path(&self, index: u32, custom_account: u32, custom_address_index: u32, coin_type: u32) -> (r: String)
        ensures
            *self == DerivationMode::AccountIndex ==> r@ == bip44_path(coin_type, index, custom_address_index),
            *self == DerivationMode::AddressIndex ==> r@ == bip44_path(coin_type, custom_account, index),
    {
        let (account, address_index) = match self {
            DerivationMode::AccountIndex => (index, custom_address_index),
            DerivationMode::AddressIndex => (custom_account, index),
        };
        let mut r = String::from_str("m/44'/");
        push_decimal(&mut r, coin_type as u128);
        r.append("'/");
        push_decimal(&mut r, account as u128);
        r.append("'/0/");
        push_decimal(&mut r, address_index as u128);
        r
    }
}

/// The derivation path of `index` under the given mode and fixed parts.
pub fn build_hd_path(
    index: u32,
    derivation_mode: DerivationMode,
    custom_account: u32,
    custom_address_index: u32,
    coin_type: u32,
) -> (r: String)
    ensures
        derivation_mode == DerivationMode::AccountIndex ==> r@ == bip44_path(coin_type, index, custom_address_index),
        derivation_mode == DerivationMode::AddressIndex ==> r@ == bip44_path(coin_type, custom_account, index),
{
    derivation_mode.get_path(index, custom_account, custom_address_index, coin_type)
}

} // verus!
