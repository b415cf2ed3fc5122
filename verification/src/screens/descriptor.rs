//! The screens that define the wallet descriptor: spending paths, keys and
//! the import of an existing descriptor.

use vstd::prelude::*;
use crate::hw::{hw_list_view, spec_hw_list_item, HardwareWallet, HwDisplay, HwListItem};
use crate::network::Network;
use crate::screens::common::{
    copy_optional, filled_and_valid, owned, progress_text, spec_threshold, threshold_choice,
    FormValue, ThresholdChoice,
};
use crate::screens::sequence::{
    blocks_text, defined_sequence, short_parts, DefinedSequenceView,
};
use crate::text::ratio_text;

verus! {

/// The network picker of a screen.
#[derive(Debug)]
pub struct NetworkRow {
    /// The network the picker shows as chosen.
    pub selected: Network,
    /// Whether the picker is marked invalid, with the alert that a data
    /// directory already exists for this network.
    pub warning: bool,
}

/// The screen that defines the spending paths of a new wallet.
#[derive(Debug)]
pub struct DefineDescriptorView {
    pub progress: String,
    pub network: NetworkRow,
    /// The threshold picker of the primary path, if it shows one.
    pub threshold: Option<ThresholdChoice>,
    /// Whether the next button can be pressed.
    pub next_enabled: bool,
    /// The text of the error card, if one shows.
    pub error: Option<String>,
}

/// The screen that defines the spending paths of a new wallet, whose
/// primary path has `n_spending_keys` keys and needs `spending_threshold`
/// of them.
pub fn define_descriptor(
    progress: (usize, usize),
    network: Network,
    network_valid: bool,
    n_spending_keys: usize,
    spending_threshold: usize,
    valid: bool,
    error: Option<&String>,
) -> (v: DefineDescriptorView)
    ensures
        v.progress@ == ratio_text(progress.0 as nat, progress.1 as nat),
        v.network.selected == network,
        v.network.warning == !network_valid,
        v.threshold == spec_threshold(spending_threshold, n_spending_keys),
        n_spending_keys > 1 ==> v.threshold == Some(
            ThresholdChoice { value: spending_threshold, max: n_spending_keys },
        ),
        n_spending_keys <= 1 ==> v.threshold is None,
        v.next_enabled == valid,
        v.error == owned(error),
{
    DefineDescriptorView {
        progress: progress_text(progress),
        network: NetworkRow { selected: network, warning: !network_valid },
        threshold: threshold_choice(spending_threshold, n_spending_keys),
        next_enabled: valid,
        error: copy_optional(error),
    }
}

/// A recovery path: its timelock and its threshold picker.
#[derive(Debug)]
pub struct RecoveryPathView {
    pub sequence: DefinedSequenceView,
    pub threshold: Option<ThresholdChoice>,
}

/// A recovery path that opens after `sequence` blocks and has
/// `n_recovery_keys` keys of which it needs `recovery_threshold`.
pub fn recovery_path_view(
    sequence: u16,
    duplicate_sequence: bool,
    recovery_threshold: usize,
    n_recovery_keys: usize,
) -> (v: RecoveryPathView)
    ensures
        v.sequence.duplicate_warning == duplicate_sequence,
        v.sequence.blocks@ == blocks_text(sequence),
        v.sequence.parts.deep_view() == short_parts(sequence),
        v.threshold == spec_threshold(recovery_threshold, n_recovery_keys),
        n_recovery_keys > 1 ==> v.threshold == Some(
            ThresholdChoice { value: recovery_threshold, max: n_recovery_keys },
        ),
        n_recovery_keys <= 1 ==> v.threshold is None,
{
    RecoveryPathView {
        sequence: defined_sequence(sequence, duplicate_sequence),
        threshold: threshold_choice(recovery_threshold, n_recovery_keys),
    }
}

/// The screen that imports an existing descriptor.
#[derive(Debug)]
pub struct ImportDescriptorView {
    pub progress: String,
    /// The network picker, when the network can still be changed.
    pub network: Option<NetworkRow>,
    /// Whether the next button can be pressed.
    pub next_enabled: bool,
    /// The text of the error card, if one shows.
    pub error: Option<String>,
}

/// The screen that imports the descriptor typed in `imported_descriptor`.
pub fn import_descriptor(
    progress: (usize, usize),
    change_network: bool,
    network: Network,
    network_valid: bool,
    imported_descriptor: &FormValue,
    error: Option<&String>,
) -> (v: ImportDescriptorView)
    ensures
        v.progress@ == ratio_text(progress.0 as nat, progress.1 as nat),
        v.network is Some <==> change_network,
        v.network matches Some(row) ==> row.selected == network && row.warning == !network_valid,
        v.next_enabled == (imported_descriptor.value@.len() > 0),
        v.error == owned(error),
{
    let row = if change_network {
        Some(NetworkRow { selected: network, warning: !network_valid })
    } else {
        None
    };
    ImportDescriptorView {
        progress: progress_text(progress),
        network: row,
        next_enabled: !imported_descriptor.value.as_str().is_empty(),
        error: copy_optional(error),
    }
}

/// The alert under a key, if any: a key for another network, then a key
/// used twice, then a name used twice.
pub open spec fn key_alert(valid: bool, duplicate_key: bool, duplicate_name: bool) -> Option<
    Seq<char>,
> {
    if !valid {
        Some("Key is for a different network"@)
    } else if duplicate_key {
        Some("Duplicate key"@)
    } else if duplicate_name {
        Some("Duplicate name"@)
    } else {
        None
    }
}

/// A key of a spending path, once set.
#[derive(Debug)]
pub struct DefinedKeyView {
    /// The name of the key.
    pub name: String,
    /// The alert under the key; when present the key's card is marked
    /// invalid.
    pub alert: Option<String>,
}

/// The card of a key named `name`.
pub fn defined_descriptor_key(
    name: &str,
    valid: bool,
    duplicate_key: bool,
    duplicate_name: bool,
) -> (v: DefinedKeyView)
    ensures
        v.name@ == name@,
        v.alert is Some <==> key_alert(valid, duplicate_key, duplicate_name) is Some,
        v.alert matches Some(a) ==> a@ == key_alert(valid, duplicate_key, duplicate_name)->0,
        !valid ==> v.alert is Some && v.alert->0@ == "Key is for a different network"@,
        valid && duplicate_key ==> v.alert is Some && v.alert->0@ == "Duplicate key"@,
        valid && !duplicate_key && duplicate_name ==> v.alert is Some && v.alert->0@
            == "Duplicate name"@,
        valid && !duplicate_key && !duplicate_name ==> v.alert is None,
{
    let alert = if !valid {
        Some(String::from_str("Key is for a different network"))
    } else if duplicate_key {
        Some(String::from_str("Duplicate key"))
    } else if duplicate_name {
        Some(String::from_str("Duplicate name"))
    } else {
        None
    };
    DefinedKeyView { name: String::from_str(name), alert }
}

/// What the alias part of the key editor shows.
#[derive(Debug)]
pub enum AliasSection {
    /// Nothing: no valid key has been entered.
    Hidden,
    /// The alias, with a button to edit it.
    Show(String),
    /// The field to type the alias in.
    Edit,
}

/// The warning of the extended key field: keys of the main network are
/// `xpub`, those of the test networks `tpub`.
pub open spec fn xpub_warning_text(network: Network) -> Seq<char> {
    if network == Network::Mainnet {
        "Please enter correct xpub with origin"@
    } else {
        "Please enter correct tpub with origin"@
    }
}

/// Only the main network asks for an `xpub`: the test networks (testnet,
/// signet, regtest) all ask for a `tpub`.
pub proof fn lemma_xpub_only_on_mainnet(network: Network)
    ensures
        network == Network::Mainnet ==> xpub_warning_text(network)
            == "Please enter correct xpub with origin"@,
        network == Network::Testnet || network == Network::Signet || network == Network::Regtest
            ==> xpub_warning_text(network) == "Please enter correct tpub with origin"@,
{
}

/// The entries of the device list of the key editor: a device is marked
/// when it is the chosen one, no request is in progress and a valid key
/// has been entered.
pub open spec fn key_modal_items(
    hws: Seq<HardwareWallet>,
    processing: bool,
    chosen_hw: Option<usize>,
    form_xpub: FormValue,
) -> Seq<HwListItem> {
    Seq::new(
        hws.len(),
        |i: int|
            spec_hw_list_item(
                i as usize,
                hws[i],
                chosen_hw == Some(i as usize),
                processing,
                !processing && chosen_hw == Some(i as usize) && filled_and_valid(form_xpub),
            ),
    )
}

/// The key editor.
#[derive(Debug)]
pub struct EditKeyModalView {
    /// The text of the error card, if one shows.
    pub error: Option<String>,
    /// The devices to take a key from.
    pub hws: Vec<HwListItem>,
    /// Whether the key of this computer is the chosen one.
    pub signer_chosen: bool,
    /// The warning of the extended key field.
    pub xpub_warning: String,
    pub alias: AliasSection,
    /// Whether the apply button can be pressed.
    pub apply_enabled: bool,
}

/// The key editor for `network`, listing `hws`.
pub fn edit_key_modal(
    network: Network,
    hws: &[HardwareWallet],
    error: Option<&String>,
    processing: bool,
    chosen_hw: Option<usize>,
    chosen_signer: bool,
    form_xpub: &FormValue,
    form_name: &FormValue,
    edit_name: bool,
) -> (v: EditKeyModalView)
    ensures
        v.error == owned(error),
        v.hws@ == key_modal_items(hws@, processing, chosen_hw, *form_xpub),
        v.hws@.len() == hws@.len(),
        forall|i: int|
            0 <= i < hws@.len() ==> (#[trigger] v.hws@[i]).index == i && v.hws@[i].selectable
                == (!processing && hws@[i] is Supported),
        forall|i: int|
            0 <= i < hws@.len() && (#[trigger] hws@[i]) is Supported && !processing && chosen_hw
                == Some(i as usize) && form_xpub.valid && form_xpub.value@.len() > 0
                ==> v.hws@[i].display == HwDisplay::Selected,
        forall|i: int|
            0 <= i < hws@.len() && (#[trigger] hws@[i]) is Supported && processing && chosen_hw
                == Some(i as usize) ==> v.hws@[i].display == HwDisplay::Processing,
        forall|i: int|
            0 <= i < hws@.len() && (#[trigger] hws@[i]) is Supported && !(chosen_hw == Some(
                i as usize,
            ) && (processing || (form_xpub.valid && form_xpub.value@.len() > 0)))
                ==> v.hws@[i].display == HwDisplay::Supported,
        forall|i: int|
            0 <= i < hws@.len() && (#[trigger] hws@[i]) is Unsupported ==> v.hws@[i].display
                == HwDisplay::Unsupported,
        v.signer_chosen == chosen_signer,
        v.xpub_warning@ == xpub_warning_text(network),
        network == Network::Mainnet ==> v.xpub_warning@ == "Please enter correct xpub with origin"@,
        network != Network::Mainnet ==> v.xpub_warning@ == "Please enter correct tpub with origin"@,
        match v.alias {
            AliasSection::Show(name) => !edit_name && filled_and_valid(*form_xpub) && name
                == form_name.value,
            AliasSection::Edit => edit_name && filled_and_valid(*form_xpub),
            AliasSection::Hidden => !filled_and_valid(*form_xpub),
        },
        v.apply_enabled == (filled_and_valid(*form_xpub) && form_name.value@.len() > 0),
        v.apply_enabled <==> form_xpub.valid && form_xpub.value@.len() > 0
            && form_name.value@.len() > 0,
{
    let xpub_ok = form_xpub.valid && !form_xpub.value.as_str().is_empty();
    let mut items: Vec<HwListItem> = Vec::new();
    let mut i: usize = 0;
    while i < hws.len()
        invariant
            i <= hws@.len(),
            xpub_ok == filled_and_valid(*form_xpub),
            items@ == key_modal_items(hws@, processing, chosen_hw, *form_xpub).take(i as int),
        decreases hws@.len() - i,
    {
        let chosen = match chosen_hw {
            Some(c) => c == i,
            None => false,
        };
        let item = hw_list_view(i, &hws[i], chosen, processing, !processing && chosen && xpub_ok);
        items.push(item);
        assert(items@ =~= key_modal_items(hws@, processing, chosen_hw, *form_xpub).take(i + 1));
        i += 1;
    }
    assert(items@ =~= key_modal_items(hws@, processing, chosen_hw, *form_xpub));
    let xpub_warning = if network == Network::Mainnet {
        String::from_str("Please enter correct xpub with origin")
    } else {
        String::from_str("Please enter correct tpub with origin")
    };
    let alias = if !edit_name && xpub_ok {
        AliasSection::Show(form_name.value.clone())
    } else if xpub_ok {
        AliasSection::Edit
    } else {
        AliasSection::Hidden
    };
    EditKeyModalView {
        error: copy_optional(error),
        hws: items,
        signer_chosen: chosen_signer,
        xpub_warning,
        alias,
        apply_enabled: xpub_ok && !form_name.value.as_str().is_empty(),
    }
}

} // verus!
