//! The Bitcoin networks that a wallet can be installed for, in the order
//! the network picker lists them, with the names it shows.

use vstd::prelude::*;

verus! {

/// A Bitcoin network.
#[derive(Debug, Clone, Copy, PartialEq, Eq, Structural)]
pub enum Network {
    Mainnet,
    Testnet,
    Regtest,
    Signet,
}

/// The name under which the picker shows `n`.
pub open spec fn network_label(n: Network) -> Seq<char> {
    match n {
        Network::Mainnet => "Bitcoin mainnet"@,
        Network::Testnet => "Bitcoin testnet"@,
        Network::Regtest => "Bitcoin regtest"@,
        Network::Signet => "Bitcoin signet"@,
    }
}

/// The networks in the order of the picker.
pub open spec fn spec_networks() -> Seq<Network> {
    seq![Network::Mainnet, Network::Testnet, Network::Signet, Network::Regtest]
}

impl Network {
    /// The name under which the picker shows this network.
    pub fn to_string(&self) -> (s: String)
        ensures
            s@ == network_label(*self),
            *self == Network::Mainnet ==> s@ == "Bitcoin mainnet"@,
            *self == Network::Testnet ==> s@ == "Bitcoin testnet"@,
            *self == Network::Regtest ==> s@ == "Bitcoin regtest"@,
            *self == Network::Signet ==> s@ == "Bitcoin signet"@,
    {
        match self {
            Network::Mainnet => String::from_str("Bitcoin mainnet"),
            Network::Testnet => String::from_str("Bitcoin testnet"),
            Network::Regtest => String::from_str("Bitcoin regtest"),
            Network::Signet => String::from_str("Bitcoin signet"),
        }
    }
}

/// The networks offered by the picker, in its order.
pub fn networks() -> (v: Vec<Network>)
    ensures
        v@ == spec_networks(),
        v@ == seq![Network::Mainnet, Network::Testnet, Network::Signet, Network::Regtest],
{
    let v = vec![Network::Mainnet, Network::Testnet, Network::Signet, Network::Regtest];
    assert(v@ =~= spec_networks());
    v
}

/// The picker offers every network, and each only once.
pub proof fn lemma_networks_complete(n: Network)
    ensures
        spec_networks().contains(n),
        spec_networks().no_duplicates(),
{
    match n {
        Network::Mainnet => assert(spec_networks()[0] == n),
        Network::Testnet => assert(spec_networks()[1] == n),
        Network::Signet => assert(spec_networks()[2] == n),
        Network::Regtest => assert(spec_networks()[3] == n),
    }
}

/// The picker lists the main network first, then testnet, signet and
/// regtest.
pub proof fn lemma_networks_order()
    ensures
        spec_networks().len() == 4,
        spec_networks()[0] == Network::Mainnet,
        spec_networks()[1] == Network::Testnet,
        spec_networks()[2] == Network::Signet,
        spec_networks()[3] == Network::Regtest,
{
}

/// Every network is shown as `Bitcoin ` followed by its lower-case name.
pub proof fn lemma_network_label_texts()
    ensures
        network_label(Network::Mainnet) == "Bitcoin mainnet"@,
        network_label(Network::Testnet) == "Bitcoin testnet"@,
        network_label(Network::Regtest) == "Bitcoin regtest"@,
        network_label(Network::Signet) == "Bitcoin signet"@,
{
}

/// Two different networks are never shown under the same name.
pub proof fn lemma_network_labels_distinct(a: Network, b: Network)
    requires
        a != b,
    ensures
        network_label(a) != network_label(b),
{
    reveal_strlit("Bitcoin mainnet");
    reveal_strlit("Bitcoin testnet");
    reveal_strlit("Bitcoin regtest");
    reveal_strlit("Bitcoin signet");
    assert(network_label(a)[8] != network_label(b)[8] || network_label(a).len() != network_label(
        b,
    ).len());
}

} // verus!
