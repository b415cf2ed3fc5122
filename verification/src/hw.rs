//! Signing devices as the installer lists them, and how each entry of such
//! a list is shown.

use vstd::prelude::*;

verus! {

/// A signing device found on this computer.
#[derive(Debug, Clone)]
pub enum HardwareWallet {
    /// A device that the wallet cannot work with.
    Unsupported {
        /// The kind of device, as shown to the user.
        kind: String,
        /// The firmware version, where the device reports one.
        version: Option<String>,
    },
    /// A device that the wallet can work with.
    Supported {
        /// The kind of device, as shown to the user.
        kind: String,
        /// The firmware version, where the device reports one.
        version: Option<String>,
        /// The fingerprint of the device's master key, its four bytes read
        /// as a big-endian number.
        fingerprint: u32,
        /// The name the user gave the device, if any.
        alias: Option<String>,
    },
}

impl HardwareWallet {
    /// Whether the wallet can work with this device.
    pub fn is_supported(&self) -> (b: bool)
        ensures
            b == (*self is Supported),
    {
        match self {
            HardwareWallet::Supported { .. } => true,
            HardwareWallet::Unsupported { .. } => false,
        }
    }

    /// The fingerprint of a supported device; `None` for an unsupported one.
    pub fn fingerprint(&self) -> (f: Option<u32>)
        ensures
            f == spec_fingerprint(*self),
            *self is Supported ==> f == Some(self->fingerprint),
            *self is Unsupported ==> f is None,
    {
        match self {
            HardwareWallet::Supported { fingerprint, .. } => Some(*fingerprint),
            HardwareWallet::Unsupported { .. } => None,
        }
    }
}

/// The fingerprint of a supported device; `None` for an unsupported one.
pub open spec fn spec_fingerprint(hw: HardwareWallet) -> Option<u32> {
    match hw {
        HardwareWallet::Supported { fingerprint, .. } => Some(fingerprint),
        HardwareWallet::Unsupported { .. } => None,
    }
}

/// How a device of a list is drawn.
#[derive(Debug, Clone, Copy, PartialEq, Eq, Structural)]
pub enum HwDisplay {
    /// The device is busy with the request the user made.
    Processing,
    /// The device is marked as done for this step.
    Selected,
    /// A supported device, neither busy nor marked.
    Supported,
    /// A device the wallet cannot work with.
    Unsupported,
}

/// One entry of a list of devices: its position, how it is drawn, and
/// whether pressing it selects device `index`.
#[derive(Debug, Clone, Copy, PartialEq, Eq, Structural)]
pub struct HwListItem {
    pub index: usize,
    pub display: HwDisplay,
    pub selectable: bool,
}

/// The entry for device `hw` at position `i`: a supported device is drawn
/// busy when it is the chosen one and a request is in progress, marked when
/// `selected`, plain otherwise; it can be selected only while no request is
/// in progress.
pub open spec fn spec_hw_list_item(
    i: usize,
    hw: HardwareWallet,
    chosen: bool,
    processing: bool,
    selected: bool,
) -> HwListItem {
    HwListItem {
        index: i,
        display: if hw is Supported {
            if chosen && processing {
                HwDisplay::Processing
            } else if selected {
                HwDisplay::Selected
            } else {
                HwDisplay::Supported
            }
        } else {
            HwDisplay::Unsupported
        },
        selectable: !processing && hw is Supported,
    }
}

/// The entry of a device list for device `hw` at position `i`.
pub fn hw_list_view(
    i: usize,
    hw: &HardwareWallet,
    chosen: bool,
    processing: bool,
    selected: bool,
) -> (item: HwListItem)
    ensures
        item == spec_hw_list_item(i, *hw, chosen, processing, selected),
        item.index == i,
        item.selectable <==> !processing && *hw is Supported,
        *hw is Unsupported ==> item.display == HwDisplay::Unsupported,
        *hw is Supported && chosen && processing ==> item.display == HwDisplay::Processing,
        *hw is Supported && !(chosen && processing) && selected ==> item.display
            == HwDisplay::Selected,
        *hw is Supported && !(chosen && processing) && !selected ==> item.display
            == HwDisplay::Supported,
{
    let display = match hw {
        HardwareWallet::Supported { .. } => {
            if chosen && processing {
                HwDisplay::Processing
            } else if selected {
                HwDisplay::Selected
            } else {
                HwDisplay::Supported
            }
        },
        HardwareWallet::Unsupported { .. } => HwDisplay::Unsupported,
    };
    HwListItem { index: i, display, selectable: !processing && hw.is_supported() }
}

/// How an entry is drawn: an unsupported device as unsupported; a supported
/// one as busy when it is the chosen one while a request is in progress,
/// otherwise as marked when `selected`, otherwise plainly. An entry can be
/// selected exactly when the device is supported and no request is in
/// progress.
pub proof fn lemma_hw_list_item_cases(
    i: usize,
    hw: HardwareWallet,
    chosen: bool,
    processing: bool,
    selected: bool,
)
    ensures
        ({
            let item = spec_hw_list_item(i, hw, chosen, processing, selected);
            &&& item.index == i
            &&& item.selectable <==> !processing && hw is Supported
            &&& hw is Unsupported ==> item.display == HwDisplay::Unsupported
            &&& hw is Supported && chosen && processing ==> item.display == HwDisplay::Processing
            &&& hw is Supported && !(chosen && processing) && selected ==> item.display
                == HwDisplay::Selected
            &&& hw is Supported && !(chosen && processing) && !selected ==> item.display
                == HwDisplay::Supported
        }),
{
}

/// An entry can be selected only for a supported device, and never while a
/// request is in progress.
pub proof fn lemma_selectable_only_when_idle(
    i: usize,
    hw: HardwareWallet,
    chosen: bool,
    processing: bool,
    selected: bool,
)
    ensures
        spec_hw_list_item(i, hw, chosen, processing, selected).selectable ==> !processing
            && hw is Supported,
        spec_hw_list_item(i, hw, chosen, processing, selected).display == HwDisplay::Unsupported
            <==> hw is Unsupported,
{
}

} // verus!
