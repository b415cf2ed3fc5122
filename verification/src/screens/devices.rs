//! The screens that gather keys from signing devices and register the
//! descriptor on them.

use vstd::prelude::*;
use std::collections::HashSet;
use crate::hw::{
    hw_list_view, spec_fingerprint, spec_hw_list_item, HardwareWallet, HwDisplay, HwListItem,
};
use crate::network::Network;
use crate::screens::common::{copy_optional, copy_strings, owned, progress_text};
use crate::screens::descriptor::NetworkRow;
use crate::text::ratio_text;

verus! {

broadcast use vstd::std_specs::hash::group_hash_axioms;

/// The card of this computer's own signer, with the public keys it has
/// derived so far.
#[derive(Debug)]
pub struct SignerXpubsView {
    /// The derived keys, each with a button that copies it.
    pub xpubs: Vec<String>,
    /// Whether the list of keys, its separator and the button for one more
    /// key show.
    pub new_key_button: bool,
}

/// The card of this computer's signer with the keys `xpubs` derived so far.
pub fn signer_xpubs(xpubs: &Vec<String>) -> (v: SignerXpubsView)
    ensures
        v.xpubs@ == xpubs@,
        v.new_key_button == (xpubs@.len() > 0),
{
    SignerXpubsView { xpubs: copy_strings(xpubs), new_key_button: xpubs.len() > 0 }
}

/// The card of a signing device, with the public keys taken from it so far.
#[derive(Debug)]
pub struct HardwareWalletXpubsView {
    /// The text of the warning card, if one shows.
    pub warning: Option<String>,
    /// How the device is drawn and whether pressing it selects it.
    pub device: HwListItem,
    /// The keys taken so far, each with a button that copies it.
    pub xpubs: Vec<String>,
    /// Whether the list of keys, its separator and the button for one more
    /// key show.
    pub new_key_button: bool,
    /// Whether the button for one more key can be pressed.
    pub new_key_enabled: bool,
}

/// The card of device `hw`, at position `i`, with the keys `xpubs` taken
/// from it so far: the device is drawn busy while a request is in progress.
pub fn hardware_wallet_xpubs(
    i: usize,
    xpubs: &Vec<String>,
    hw: &HardwareWallet,
    processing: bool,
    error: Option<&String>,
) -> (v: HardwareWalletXpubsView)
    ensures
        v.warning == owned(error),
        v.device == spec_hw_list_item(i, *hw, true, processing, false),
        v.device.index == i,
        v.device.selectable <==> !processing && *hw is Supported,
        *hw is Supported && processing ==> v.device.display == HwDisplay::Processing,
        *hw is Supported && !processing ==> v.device.display == HwDisplay::Supported,
        *hw is Unsupported ==> v.device.display == HwDisplay::Unsupported,
        v.xpubs@ == xpubs@,
        v.new_key_button == (xpubs@.len() > 0),
        v.new_key_enabled == !processing,
{
    HardwareWalletXpubsView {
        warning: copy_optional(error),
        device: hw_list_view(i, hw, true, processing, false),
        xpubs: copy_strings(xpubs),
        new_key_button: xpubs.len() > 0,
        new_key_enabled: !processing,
    }
}

/// The screen on which a participant shares public keys.
#[derive(Debug)]
pub struct ParticipateXpubView {
    pub progress: String,
    pub network: NetworkRow,
    /// Whether the next button can be pressed.
    pub next_enabled: bool,
}

/// The screen on which a participant shares public keys; `shared` tells
/// that the user confirmed having shared them.
pub fn participate_xpub(
    progress: (usize, usize),
    network: Network,
    network_valid: bool,
    shared: bool,
) -> (v: ParticipateXpubView)
    ensures
        v.progress@ == ratio_text(progress.0 as nat, progress.1 as nat),
        v.network.selected == network,
        v.network.warning == !network_valid,
        v.next_enabled == shared,
{
    ParticipateXpubView {
        progress: progress_text(progress),
        network: NetworkRow { selected: network, warning: !network_valid },
        next_enabled: shared,
    }
}

/// Whether the descriptor is known to be registered on `hw`: it is when
/// the device is supported and its fingerprint is among `registered`.
pub open spec fn is_registered(hw: HardwareWallet, registered: Set<u32>) -> bool {
    match spec_fingerprint(hw) {
        Some(fg) => registered.contains(fg),
        None => false,
    }
}

/// The entries of the device list of the registration screen: a device is
/// marked when the descriptor is registered on it.
pub open spec fn register_items(
    hws: Seq<HardwareWallet>,
    registered: Set<u32>,
    processing: bool,
    chosen_hw: Option<usize>,
) -> Seq<HwListItem> {
    Seq::new(
        hws.len(),
        |i: int|
            spec_hw_list_item(
                i as usize,
                hws[i],
                chosen_hw == Some(i as usize),
                processing,
                is_registered(hws[i], registered),
            ),
    )
}

/// A device that has the descriptor is marked as done whichever device is
/// the chosen one, as long as no request is in progress; a supported device
/// without it is drawn plainly unless it is busy.
pub proof fn lemma_registered_devices_marked(
    hws: Seq<HardwareWallet>,
    registered: Set<u32>,
    processing: bool,
    chosen_hw: Option<usize>,
    i: int,
)
    requires
        0 <= i < hws.len(),
    ensures
        register_items(hws, registered, processing, chosen_hw).len() == hws.len(),
        !processing && hws[i] is Supported && registered.contains(hws[i]->fingerprint) ==> register_items(
            hws,
            registered,
            processing,
            chosen_hw,
        )[i].display == HwDisplay::Selected,
        hws[i] is Supported && !registered.contains(hws[i]->fingerprint) && !(processing && chosen_hw == Some(i as usize)) ==> register_items(
            hws,
            registered,
            processing,
            chosen_hw,
        )[i].display == HwDisplay::Supported,
{
}

/// The screen that registers the descriptor on signing devices.
#[derive(Debug)]
pub struct RegisterDescriptorView {
    pub progress: String,
    /// The descriptor, shown with a button that copies it.
    pub descriptor: String,
    /// The text of the error card, if one shows.
    pub error: Option<String>,
    /// The devices to register the descriptor on.
    pub hws: Vec<HwListItem>,
    /// Whether the next button can be pressed.
    pub next_enabled: bool,
}

/// The screen that registers `descriptor` on the devices `hws`, of which
/// those with a fingerprint in `registered` already have it; `done` tells
/// that the user confirmed the registration.
pub fn register_descriptor(
    progress: (usize, usize),
    descriptor: String,
    hws: &[HardwareWallet],
    registered: &HashSet<u32>,
    error: Option<&String>,
    processing: bool,
    chosen_hw: Option<usize>,
    done: bool,
) -> (v: RegisterDescriptorView)
    ensures
        v.progress@ == ratio_text(progress.0 as nat, progress.1 as nat),
        v.descriptor == descriptor,
        v.error == owned(error),
        v.hws@ == register_items(hws@, registered@, processing, chosen_hw),
        v.hws@.len() == hws@.len(),
        forall|i: int|
            0 <= i < hws@.len() ==> (#[trigger] v.hws@[i]).index == i && v.hws@[i].selectable
                == (!processing && hws@[i] is Supported),
        forall|i: int|
            0 <= i < hws@.len() && !processing && (#[trigger] hws@[i]) is Supported
                && registered@.contains(hws@[i]->fingerprint) ==> v.hws@[i].display == HwDisplay::Selected,
        forall|i: int|
            0 <= i < hws@.len() && (#[trigger] hws@[i]) is Supported && !registered@.contains(
                hws@[i]->fingerprint,
            ) && !(processing && chosen_hw == Some(
                i as usize,
            )) ==> v.hws@[i].display == HwDisplay::Supported,
        forall|i: int|
            0 <= i < hws@.len() && (#[trigger] hws@[i]) is Supported && processing && chosen_hw
                == Some(i as usize) ==> v.hws@[i].display == HwDisplay::Processing,
        forall|i: int|
            0 <= i < hws@.len() && (#[trigger] hws@[i]) is Unsupported ==> v.hws@[i].display
                == HwDisplay::Unsupported,
        v.next_enabled == (done && !processing),
{
    let mut items: Vec<HwListItem> = Vec::new();
    let mut i: usize = 0;
    while i < hws.len()
        invariant
            i <= hws@.len(),
            items@ == register_items(hws@, registered@, processing, chosen_hw).take(i as int),
        decreases hws@.len() - i,
    {
        let chosen = match chosen_hw {
            Some(c) => c == i,
            None => false,
        };
        let selected = match hws[i].fingerprint() {
            Some(fg) => registered.contains(&fg),
            None => false,
        };
        let item = hw_list_view(i, &hws[i], chosen, processing, selected);
        items.push(item);
        assert(items@ =~= register_items(hws@, registered@, processing, chosen_hw).take(i + 1));
        i += 1;
    }
    assert(items@ =~= register_items(hws@, registered@, processing, chosen_hw));
    RegisterDescriptorView {
        progress: progress_text(progress),
        descriptor,
        error: copy_optional(error),
        hws: items,
        next_enabled: done && !processing,
    }
}

} // verus!
