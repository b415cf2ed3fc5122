use std::collections::HashSet;

use liana_gui::hw::{hw_list_view, HardwareWallet, HwDisplay, HwListItem};
use liana_gui::message::{Menu, Message, SettingsMessage};
use liana_gui::network::Network;
use liana_gui::screens::common::{FormValue, ThresholdChoice};
use liana_gui::screens::descriptor::{
    define_descriptor, defined_descriptor_key, edit_key_modal, import_descriptor,
    recovery_path_view, AliasSection,
};
use liana_gui::screens::devices::{
    hardware_wallet_xpubs, participate_xpub, register_descriptor, signer_xpubs,
};
use liana_gui::screens::mnemonic::{backup_mnemonic, recover_mnemonic, RecoverBody};
use liana_gui::screens::sequence::{defined_sequence, edit_sequence_modal};
use liana_gui::screens::steps::{
    backup_descriptor, define_bitcoin, install, BitcoindSettings, ConnectionStatus,
    InstallContext, InstallStep,
};

fn supported(fp: u32) -> HardwareWallet {
    HardwareWallet::Supported {
        kind: "ledger".to_string(),
        version: Some("2.1.0".to_string()),
        fingerprint: fp,
        alias: None,
    }
}

fn unsupported() -> HardwareWallet {
    HardwareWallet::Unsupported { kind: "trezor".to_string(), version: None }
}

fn form(value: &str, valid: bool) -> FormValue {
    FormValue { value: value.to_string(), valid }
}

#[test]
fn hw_entry_states() {
    let hw = supported(1);
    let busy = hw_list_view(0, &hw, true, true, true);
    assert_eq!(busy, HwListItem { index: 0, display: HwDisplay::Processing, selectable: false });
    let marked = hw_list_view(1, &hw, false, true, true);
    assert_eq!(marked.display, HwDisplay::Selected);
    assert!(!marked.selectable);
    let plain = hw_list_view(2, &hw, true, false, false);
    assert_eq!(plain, HwListItem { index: 2, display: HwDisplay::Supported, selectable: true });
    let other = hw_list_view(3, &unsupported(), true, false, true);
    assert_eq!(other, HwListItem { index: 3, display: HwDisplay::Unsupported, selectable: false });
}

#[test]
fn hardware_wallet_helpers() {
    assert!(supported(7).is_supported());
    assert_eq!(supported(7).fingerprint(), Some(7));
    assert!(!unsupported().is_supported());
    assert_eq!(unsupported().fingerprint(), None);
}

#[test]
fn define_descriptor_screen() {
    let err = "bad key".to_string();
    let v = define_descriptor((2, 10), Network::Testnet, false, 3, 2, true, Some(&err));
    assert_eq!(v.progress, "2/10");
    assert_eq!(v.network.selected, Network::Testnet);
    assert!(v.network.warning);
    assert_eq!(v.threshold, Some(ThresholdChoice { value: 2, max: 3 }));
    assert!(v.next_enabled);
    assert_eq!(v.error, Some("bad key".to_string()));

    let single = define_descriptor((1, 10), Network::Mainnet, true, 1, 1, false, None);
    assert_eq!(single.threshold, None);
    assert!(!single.network.warning);
    assert!(!single.next_enabled);
    assert_eq!(single.error, None);
}

#[test]
fn recovery_path_screen() {
    let v = recovery_path_view(144, true, 1, 2);
    assert!(v.sequence.duplicate_warning);
    assert_eq!(v.sequence.blocks, "Available after 144 blocks");
    assert_eq!(v.sequence.parts, vec!["1d".to_string()]);
    assert_eq!(v.threshold, Some(ThresholdChoice { value: 1, max: 2 }));
    assert_eq!(recovery_path_view(144, false, 1, 1).threshold, None);
}

#[test]
fn defined_sequence_texts() {
    let v = defined_sequence(u16::MAX, false);
    assert!(!v.duplicate_warning);
    assert_eq!(v.blocks, "Available after 65535 blocks");
    assert_eq!(v.parts, vec!["1y", "2m", "28d", "23h", "30mn"]);
    assert_eq!(defined_sequence(0, false).parts, Vec::<String>::new());
}

#[test]
fn edit_sequence_texts() {
    let v = edit_sequence_modal(&form("145", true));
    assert!(v.apply_enabled);
    let p = v.preview.expect("a preview");
    assert_eq!(p.slider, 145);
    assert_eq!(p.parts, vec!["1 day", "10 minutes"]);

    let v = edit_sequence_modal(&form("52740", true));
    assert_eq!(v.preview.unwrap().parts, vec!["1 year", "1 day"]);

    let invalid = edit_sequence_modal(&form("145", false));
    assert!(!invalid.apply_enabled);
    assert!(invalid.preview.is_none());

    let unreadable = edit_sequence_modal(&form("70000", true));
    assert!(unreadable.apply_enabled);
    assert!(unreadable.preview.is_none());
}

#[test]
fn import_descriptor_screen() {
    let v = import_descriptor((1, 3), true, Network::Signet, true, &form("wsh(...)", false), None);
    assert_eq!(v.progress, "1/3");
    let row = v.network.expect("a network row");
    assert_eq!(row.selected, Network::Signet);
    assert!(!row.warning);
    assert!(v.next_enabled);

    let err = "invalid".to_string();
    let empty = import_descriptor((1, 3), false, Network::Signet, true, &form("", true), Some(&err));
    assert!(empty.network.is_none());
    assert!(!empty.next_enabled);
    assert_eq!(empty.error, Some(err));
}

#[test]
fn defined_key_alerts() {
    let ok = defined_descriptor_key("alice", true, false, false);
    assert_eq!(ok.name, "alice");
    assert_eq!(ok.alert, None);
    assert_eq!(
        defined_descriptor_key("a", false, true, true).alert,
        Some("Key is for a different network".to_string())
    );
    assert_eq!(defined_descriptor_key("a", true, true, true).alert, Some("Duplicate key".to_string()));
    assert_eq!(defined_descriptor_key("a", true, false, true).alert, Some("Duplicate name".to_string()));
}

#[test]
fn edit_key_modal_states() {
    let hws = vec![supported(1), unsupported(), supported(3)];
    let xpub = form("tpubD6...", true);
    let name = form("alice", true);
    let v = edit_key_modal(Network::Testnet, &hws, None, false, Some(0), false, &xpub, &name, false);
    assert_eq!(v.xpub_warning, "Please enter correct tpub with origin");
    assert_eq!(v.hws.len(), 3);
    assert_eq!(v.hws[0].display, HwDisplay::Selected);
    assert!(v.hws[0].selectable);
    assert_eq!(v.hws[1].display, HwDisplay::Unsupported);
    assert_eq!(v.hws[2].display, HwDisplay::Supported);
    match &v.alias {
        AliasSection::Show(n) => assert_eq!(n, "alice"),
        other => panic!("unexpected alias section {:?}", other),
    }
    assert!(v.apply_enabled);
    assert!(!v.signer_chosen);

    let busy = edit_key_modal(Network::Mainnet, &hws, None, true, Some(0), true, &xpub, &name, true);
    assert_eq!(busy.xpub_warning, "Please enter correct xpub with origin");
    assert_eq!(busy.hws[0].display, HwDisplay::Processing);
    assert!(!busy.hws[0].selectable);
    assert!(matches!(busy.alias, AliasSection::Edit));
    assert!(busy.signer_chosen);

    let empty_name = form("", true);
    let no_key = edit_key_modal(Network::Mainnet, &hws, None, false, None, false, &form("", true), &empty_name, false);
    assert!(matches!(no_key.alias, AliasSection::Hidden));
    assert!(!no_key.apply_enabled);
    assert_eq!(no_key.hws[0].display, HwDisplay::Supported);
}

#[test]
fn signer_card() {
    let empty = signer_xpubs(&vec![]);
    assert!(!empty.new_key_button);
    assert!(empty.xpubs.is_empty());
    let keys = vec!["xpub1".to_string(), "xpub2".to_string()];
    let v = signer_xpubs(&keys);
    assert!(v.new_key_button);
    assert_eq!(v.xpubs, keys);
}

#[test]
fn hardware_wallet_card() {
    let err = "device locked".to_string();
    let keys = vec!["xpubA".to_string()];
    let v = hardware_wallet_xpubs(4, &keys, &supported(9), true, Some(&err));
    assert_eq!(v.warning, Some(err));
    assert_eq!(v.device, HwListItem { index: 4, display: HwDisplay::Processing, selectable: false });
    assert_eq!(v.xpubs, keys);
    assert!(v.new_key_button);
    assert!(!v.new_key_enabled);

    let idle = hardware_wallet_xpubs(0, &vec![], &supported(9), false, None);
    assert_eq!(idle.device.display, HwDisplay::Supported);
    assert!(idle.device.selectable);
    assert!(!idle.new_key_button);
    assert!(idle.new_key_enabled);
}

#[test]
fn participate_screen() {
    let v = participate_xpub((3, 4), Network::Regtest, true, false);
    assert_eq!(v.progress, "3/4");
    assert!(!v.next_enabled);
    assert!(participate_xpub((3, 4), Network::Regtest, false, true).next_enabled);
}

#[test]
fn register_screen() {
    let hws = vec![supported(0xaa), supported(0xbb), unsupported()];
    let mut registered = HashSet::new();
    registered.insert(0xbbu32);
    let v = register_descriptor((5, 8), "wsh(x)".to_string(), &hws, &registered, None, false, Some(0), true);
    assert_eq!(v.descriptor, "wsh(x)");
    assert_eq!(v.hws[0].display, HwDisplay::Supported);
    assert_eq!(v.hws[1].display, HwDisplay::Selected);
    assert_eq!(v.hws[2].display, HwDisplay::Unsupported);
    assert!(v.next_enabled);
    let busy = register_descriptor((5, 8), "d".to_string(), &hws, &registered, None, true, Some(0), true);
    assert_eq!(busy.hws[0].display, HwDisplay::Processing);
    assert!(!busy.next_enabled);
}

#[test]
fn backup_descriptor_screen() {
    let v = backup_descriptor((6, 8), "desc".to_string(), false);
    assert_eq!(v.descriptor, "desc");
    assert!(!v.next_enabled);
    assert!(backup_descriptor((6, 8), "desc".to_string(), true).next_enabled);
}

#[test]
fn bitcoind_screen() {
    let none = define_bitcoin::<String>((7, 8), None);
    assert_eq!(none.connection, ConnectionStatus::Unchecked);
    assert!(!none.next_enabled);
    let ok: Result<(), String> = Ok(());
    let checked = define_bitcoin((7, 8), Some(&ok));
    assert_eq!(checked.connection, ConnectionStatus::Checked);
    assert!(checked.next_enabled);
    let failed: Result<(), String> = Err("refused".to_string());
    let f = define_bitcoin((7, 8), Some(&failed));
    assert_eq!(f.connection, ConnectionStatus::Failed);
    assert!(!f.next_enabled);
}

fn context(hws: Vec<(String, u32)>, signer: Option<u32>) -> InstallContext {
    InstallContext {
        hws,
        signer,
        bitcoind: Some(BitcoindSettings {
            cookie_path: "/home/u/.bitcoin/.cookie".to_string(),
            address: "127.0.0.1:8332".to_string(),
        }),
    }
}

#[test]
fn install_screen() {
    let ctx = context(vec![("ledger".to_string(), 0x0102_0304)], Some(0xdead_beef));
    let warning = "careful".to_string();
    let v = install::<&str>((8, 8), &ctx, "wsh(d)".to_string(), false, Some("/conf.toml"), Some(&warning));
    assert!(v.show_devices);
    assert_eq!(v.devices.len(), 2);
    assert_eq!(v.devices[0].name, "ledger");
    assert_eq!(v.devices[0].fingerprint, "(fingerprint: 01020304)");
    assert_eq!(v.devices[1].name, "This computer");
    assert_eq!(v.devices[1].fingerprint, "(fingerprint: deadbeef)");
    assert_eq!(v.cookie_path, "/home/u/.bitcoin/.cookie");
    assert_eq!(v.address, "127.0.0.1:8332");
    assert_eq!(v.warning, Some(warning));
    assert!(matches!(v.step, InstallStep::Installed("/conf.toml")));

    let empty = context(vec![], None);
    let e = install::<&str>((8, 8), &empty, "d".to_string(), true, Some("/c"), None);
    assert!(!e.show_devices);
    assert!(e.devices.is_empty());
    assert!(matches!(e.step, InstallStep::Installing));
    let f = install::<&str>((8, 8), &empty, "d".to_string(), false, None, None);
    assert!(matches!(f.step, InstallStep::Finalize));
}

const WORDS: [&str; 12] = [
    "abandon", "ability", "able", "about", "above", "absent", "absorb", "abstract", "absurd",
    "abuse", "access", "accident",
];

#[test]
fn backup_mnemonic_screen() {
    let v = backup_mnemonic((4, 8), &WORDS, true);
    assert_eq!(v.words.len(), 12);
    assert_eq!(v.words[0].label, "#1");
    assert_eq!(v.words[0].word, "abandon");
    assert_eq!(v.words[11].label, "#12");
    assert_eq!(v.words[11].word, "accident");
    assert!(v.next_enabled);
}

#[test]
fn recover_mnemonic_screen() {
    let words: [(String, bool); 12] = std::array::from_fn(|i| (WORDS[i].to_string(), true));
    let suggestions = vec!["abandon".to_string()];
    let choose = recover_mnemonic((2, 8), &words, 0, &suggestions, false, None);
    assert!(matches!(choose.body, RecoverBody::Choose));

    let v = recover_mnemonic((2, 8), &words, 3, &suggestions, true, None);
    match v.body {
        RecoverBody::Recover(f) => {
            assert_eq!(f.suggestions, suggestions);
            assert_eq!(f.current, 3);
            assert_eq!(f.words[4].label, "#5");
            assert_eq!(f.words[4].word, "above");
            assert!(f.words[4].valid);
            assert!(f.next_enabled);
        }
        RecoverBody::Choose => panic!("expected the form"),
    }

    let mut some_invalid = words.clone();
    some_invalid[7].1 = false;
    match recover_mnemonic((2, 8), &some_invalid, 3, &suggestions, true, None).body {
        RecoverBody::Recover(f) => {
            assert!(!f.words[7].valid);
            assert!(!f.next_enabled);
        }
        RecoverBody::Choose => panic!("expected the form"),
    }
    let err = "wrong checksum".to_string();
    match recover_mnemonic((2, 8), &words, 3, &suggestions, true, Some(&err)).body {
        RecoverBody::Recover(f) => {
            assert_eq!(f.error, Some(err));
            assert!(!f.next_enabled);
        }
        RecoverBody::Choose => panic!("expected the form"),
    }
}

#[test]
fn app_messages() {
    let m = Message::Settings(1, SettingsMessage::FieldEdited("address", "x".to_string()));
    let c = m.clone();
    assert!(matches!(c, Message::Settings(1, SettingsMessage::FieldEdited("address", _))));
    assert!(matches!(Message::Menu(Menu::Home), Message::Menu(Menu::Home)));
}
