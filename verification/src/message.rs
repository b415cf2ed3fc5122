//! Messages that the wallet application's panels send.

use vstd::prelude::*;

verus! {

/// A panel of the wallet application.
#[derive(Debug, Clone, Copy, PartialEq, Eq, Structural)]
pub enum Menu {
    Home,
    Receive,
    PSBTs,
    Transactions,
    Settings,
    Coins,
    CreateSpendTx,
    Recovery,
}

/// A message from a panel of the wallet application.
#[derive(Debug, Clone)]
pub enum Message {
    Reload,
    Clipboard(String),
    Menu(Menu),
    Close,
    Select(usize),
    Settings(usize, SettingsMessage),
}

/// A message from the settings panel.
#[derive(Debug, Clone)]
pub enum SettingsMessage {
    Edit,
    FieldEdited(&'static str, String),
    CancelEdit,
    ConfirmEdit,
}

} // verus!
