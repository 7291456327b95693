//! User-defined networks, the built-in defaults of the user settings, and
//! the selection of a network by chain id.

use vstd::prelude::*;
use vstd::string::*;
use crate::config::{find_network_index, network_table};
use crate::text::{decimal, push_decimal};

verus! {

/// A user-defined EVM network.
#[derive(Debug)]
pub struct CustomNetwork {
    /// Display name.
    pub label: String,
    /// Chain id, unique among the custom networks.
    pub chain_id: u64,
    /// Native token symbol.
    pub native_token: String,
    /// RPC endpoint URL.
    pub rpc_url: String,
}

impl CustomNetwork {
    /// A network from its parts.
    pub fn new(label: String, chain_id: u64, native_token: String, rpc_url: String) -> (r: Self)
        ensures
            r == (CustomNetwork { label, chain_id, native_token, rpc_url }),
    {
        CustomNetwork { label, chain_id, native_token, rpc_url }
    }
}

impl Clone for CustomNetwork {
    fn clone(&self) -> (r: Self)
        ensures
            r == *self,
    {
        CustomNetwork {
            label: self.label.clone(),
            chain_id: self.chain_id,
            native_token: self.native_token.clone(),
            rpc_url: self.rpc_url.clone(),
        }
    }
}

impl PartialEq for CustomNetwork {
    fn eq(&self, other: &CustomNetwork) -> (r: bool)
        ensures
            r == (self.label@ == other.label@ && self.chain_id == other.chain_id
                && self.native_token@ == other.native_token@ && self.rpc_url@ == other.rpc_url@),
    {
        self.label == other.label && self.chain_id == other.chain_id && self.native_token
            == other.native_token && self.rpc_url == other.rpc_url
    }
}

impl vstd::std_specs::cmp::PartialEqSpecImpl for CustomNetwork {
    open spec fn obeys_eq_spec() -> bool {
        true
    }

    open spec fn eq_spec(&self, other: &CustomNetwork) -> bool {
        self.label@ == other.label@ && self.chain_id == other.chain_id && self.native_token@
            == other.native_token@ && self.rpc_url@ == other.rpc_url@
    }
}

/// No custom networks.
pub fn default_custom_networks() -> (r: Vec<CustomNetwork>)
    ensures
        r.len() == 0,
{
    Vec::new()
}

/// No coin type override: the default coin type applies.
pub fn default_coin_type() -> (r: Option<u32>)
    ensures
        r is None,
{
    None
}

/// The native signing backend is the default.
pub fn default_use_native_ledger() -> (r: bool)
    ensures
        r,
{
    true
}

/// Five outputs for a split.
pub fn default_split_outputs() -> (r: u32)
    ensures
        r == 5,
{
    5
}

/// Ten outputs for a bulk operation.
pub fn default_bulk_outputs() -> (r: u32)
    ensures
        r == 10,
{
    10
}

/// Scans start at index zero.
pub fn default_scan_start_index() -> (r: u32)
    ensures
        r == 0,
{
    0
}

/// Scans stop after five empty accounts in a row.
pub fn default_scan_empty_streak() -> (r: u32)
    ensures
        r == 5,
{
    5
}

/// The device status is refreshed every five seconds.
pub fn default_ledger_refresh_interval() -> (r: u64)
    ensures
        r == 5,
{
    5
}

/// Nothing is kept on the source by default.
pub fn default_remaining_balance() -> (r: u64)
    ensures
        r == 0,
{
    0
}

/// A built-in network has this chain id.
pub open spec fn builtin_chain(chain_id: u64) -> bool {
    exists|i: int| 0 <= i < network_table().len() && (#[trigger] network_table()[i]).chain_id == chain_id
}

/// One of `networks` has this chain id.
pub open spec fn custom_chain(networks: Seq<CustomNetwork>, chain_id: u64) -> bool {
    exists|k: int| 0 <= k < networks.len() && (#[trigger] networks[k]).chain_id == chain_id
}

/// A built-in network (by position in the table) or a custom one (by chain id).
#[derive(Clone, Copy, Debug, PartialEq, Eq, Structural)]
pub enum NetworkSelection {
    Builtin(usize),
    Custom(u64),
}

impl NetworkSelection {
    /// The built-in network with `chain_id` if there is one, else the custom
    /// network with it, else the first built-in network.
    pub fn from_chain_id(chain_id: u64, custom_networks: &Vec<CustomNetwork>) -> (r: Self)
        ensures
            builtin_chain(chain_id) ==> (r matches NetworkSelection::Builtin(i)
                && network_table()[i as int].chain_id == chain_id),
            !builtin_chain(chain_id) && custom_chain(custom_networks@, chain_id) ==> r
                == NetworkSelection::Custom(chain_id),
            !builtin_chain(chain_id) && !custom_chain(custom_networks@, chain_id) ==> r
                == NetworkSelection::Builtin(0),
    {
        match find_network_index(chain_id) {
            Some(idx) => NetworkSelection::Builtin(idx),
            None => {
                assert(!builtin_chain(chain_id));
                let mut k: usize = 0;
                while k < custom_networks.len()
                    invariant
                        !builtin_chain(chain_id),
                        k <= custom_networks.len(),
                        forall|j: int| 0 <= j < k ==> (#[trigger] custom_networks@[j]).chain_id != chain_id,
                    decreases custom_networks.len() - k,
                {
                    if custom_networks[k].chain_id == chain_id {
                        return NetworkSelection::Custom(chain_id);
                    }
                    k = k + 1;
                }
                NetworkSelection::Builtin(0)
            },
        }
    }
}

/// The fields of the form that edits a custom network.
pub struct CustomNetworkFormState {
    pub label: String,
    pub chain_id: String,
    pub native_token: String,
    pub rpc_url: String,
    pub error: Option<String>,
    /// The chain id of the network being edited, if any.
    pub editing_chain_id: Option<u64>,
}

impl Default for CustomNetworkFormState {
    fn default() -> (r: Self)
        ensures
            r.label@.len() == 0,
            r.chain_id@.len() == 0,
            r.native_token@.len() == 0,
            r.rpc_url@.len() == 0,
            r.error is None,
            r.editing_chain_id is None,
    {
        CustomNetworkFormState {
            label: String::new(),
            chain_id: String::new(),
            native_token: String::new(),
            rpc_url: String::new(),
            error: None,
            editing_chain_id: None,
        }
    }
}

impl CustomNetworkFormState {
    /// Empties the form.
    pub fn clear(&mut self)
        ensures
            final(self).label@.len() == 0,
            final(self).chain_id@.len() == 0,
            final(self).native_token@.len() == 0,
            final(self).rpc_url@.len() == 0,
            final(self).error is None,
            final(self).editing_chain_id is None,
    {
        self.label = String::new();
        self.chain_id = String::new();
        self.native_token = String::new();
        self.rpc_url = String::new();
        self.error = None;
        self.editing_chain_id = None;
    }

    /// Fills the form from a network to edit it.
    pub fn populate_from(&mut self, network: &CustomNetwork)
        ensures
            final(self).label@ == network.label@,
            final(self).chain_id@ == decimal(network.chain_id as nat),
            final(self).native_token@ == network.native_token@,
            final(self).rpc_url@ == network.rpc_url@,
            final(self).error is None,
            final(self).editing_chain_id == Some(network.chain_id),
    {
        self.label = network.label.clone();
        let mut id = String::new();
        push_decimal(&mut id, network.chain_id as u128);
        proof {
            assert(id@ =~= decimal(network.chain_id as nat));
        }
        self.chain_id = id;
        self.native_token = network.native_token.clone();
        self.rpc_url = network.rpc_url.clone();
        self.error = None;
        self.editing_chain_id = Some(network.chain_id);
    }
}

} // verus!
