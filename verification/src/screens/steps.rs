//! The screens that back up the descriptor and the mnemonic, connect to
//! the Bitcoin node and finish the installation.

use vstd::prelude::*;
use crate::screens::common::{copy_optional, owned, progress_text};
use crate::text::{hex8, push_hex8, ratio_text};

verus! {

/// The screen that asks whether the descriptor was backed up.
#[derive(Debug)]
pub struct BackupDescriptorView {
    pub progress: String,
    /// The descriptor, shown with a button that copies it.
    pub descriptor: String,
    /// Whether the next button can be pressed.
    pub next_enabled: bool,
}

/// The screen that asks whether `descriptor` was backed up; `done` tells
/// that the user confirmed it.
pub fn backup_descriptor(progress: (usize, usize), descriptor: String, done: bool) -> (v:
    BackupDescriptorView)
    ensures
        v.progress@ == ratio_text(progress.0 as nat, progress.1 as nat),
        v.descriptor == descriptor,
        v.next_enabled == done,
{
    BackupDescriptorView { progress: progress_text(progress), descriptor, next_enabled: done }
}

/// The outcome of the last connection check, as the node screen shows it.
#[derive(Debug, Clone, Copy, PartialEq, Eq, Structural)]
pub enum ConnectionStatus {
    /// No check yet: an empty line.
    Unchecked,
    /// The node answered.
    Checked,
    /// The node could not be reached.
    Failed,
}

/// The status line for the outcome `is_running` of the last check.
pub open spec fn spec_connection<E>(is_running: Option<&Result<(), E>>) -> ConnectionStatus {
    match is_running {
        None => ConnectionStatus::Unchecked,
        Some(res) => if res is Ok {
            ConnectionStatus::Checked
        } else {
            ConnectionStatus::Failed
        },
    }
}

/// The screen that sets up the connection to the Bitcoin node.
#[derive(Debug)]
pub struct DefineBitcoinView {
    pub progress: String,
    pub connection: ConnectionStatus,
    /// Whether the next button can be pressed: only once the node answered.
    pub next_enabled: bool,
}

/// The screen that sets up the connection to the Bitcoin node, given the
/// outcome of the last connection check, if any.
pub fn define_bitcoin<E>(progress: (usize, usize), is_running: Option<&Result<(), E>>) -> (v:
    DefineBitcoinView)
    ensures
        v.progress@ == ratio_text(progress.0 as nat, progress.1 as nat),
        v.connection == spec_connection(is_running),
        v.next_enabled == (v.connection == ConnectionStatus::Checked),
        is_running is None ==> v.connection == ConnectionStatus::Unchecked,
        is_running matches Some(r) && r is Ok ==> v.connection == ConnectionStatus::Checked,
        is_running matches Some(r) && r is Err ==> v.connection == ConnectionStatus::Failed,
        v.next_enabled <==> (is_running matches Some(r) && r is Ok),
{
    let connection = match is_running {
        None => ConnectionStatus::Unchecked,
        Some(res) => if res.is_ok() {
            ConnectionStatus::Checked
        } else {
            ConnectionStatus::Failed
        },
    };
    let next_enabled = match connection {
        ConnectionStatus::Checked => true,
        _ => false,
    };
    DefineBitcoinView { progress: progress_text(progress), connection, next_enabled }
}

/// How the wallet reaches its Bitcoin node.
#[derive(Debug)]
pub struct BitcoindSettings {
    /// The path of the node's cookie file, as shown to the user.
    pub cookie_path: String,
    /// The node's address, as shown to the user.
    pub address: String,
}

/// What the installation has gathered so far.
#[derive(Debug)]
pub struct InstallContext {
    /// The signing devices registered, each as its kind and fingerprint.
    pub hws: Vec<(String, u32)>,
    /// The fingerprint of this computer's signer, if it has one.
    pub signer: Option<u32>,
    /// The connection to the node, once set up.
    pub bitcoind: Option<BitcoindSettings>,
}

/// A line of the list of signing devices: a name and its fingerprint.
#[derive(Debug)]
pub struct DeviceLine {
    pub name: String,
    pub fingerprint: String,
}

/// The fingerprint as the device list writes it: `(fingerprint: 1a2b3c4d)`.
pub open spec fn fingerprint_text(fp: u32) -> Seq<char> {
    "(fingerprint: "@ + hex8(fp) + ")"@
}

/// The texts of a device line.
pub open spec fn line_text(l: DeviceLine) -> (Seq<char>, Seq<char>) {
    (l.name@, l.fingerprint@)
}

/// The lines of the device list: one per registered device, then one for
/// this computer if it has a signer.
pub open spec fn device_lines(hws: Seq<(String, u32)>, signer: Option<u32>) -> Seq<
    (Seq<char>, Seq<char>),
> {
    Seq::new(hws.len(), |i: int| (hws[i].0@, fingerprint_text(hws[i].1)))
        + match signer {
        Some(fp) => seq![("This computer"@, fingerprint_text(fp))],
        None => Seq::empty(),
    }
}

/// The device card has one line per registered device, in order, then one
/// line for this computer when it has a signer.
pub proof fn lemma_device_lines(hws: Seq<(String, u32)>, signer: Option<u32>)
    ensures
        device_lines(hws, signer).len() == hws.len() + if signer is Some {
            1int
        } else {
            0int
        },
        forall|i: int|
            0 <= i < hws.len() ==> #[trigger] device_lines(hws, signer)[i] == (
                hws[i].0@,
                "(fingerprint: "@ + hex8(hws[i].1) + ")"@,
            ),
        signer matches Some(fp) ==> device_lines(hws, signer)[hws.len() as int] == (
            "This computer"@,
            "(fingerprint: "@ + hex8(fp) + ")"@,
        ),
{
}

/// Writes the fingerprint text for `fp`.
fn fingerprint_string(fp: u32) -> (s: String)
    ensures
        s@ == fingerprint_text(fp),
{
    let mut s = String::from_str("(fingerprint: ");
    push_hex8(&mut s, fp);
    s.append(")");
    s
}

/// The lines of the device card for `context`.
fn device_list(context: &InstallContext) -> (devices: Vec<DeviceLine>)
    ensures
        devices@.map_values(|l: DeviceLine| line_text(l)) == device_lines(
            context.hws@,
            context.signer,
        ),
        devices@.len() == context.hws@.len() + if context.signer is Some {
            1int
        } else {
            0int
        },
        forall|i: int|
            0 <= i < context.hws@.len() ==> (#[trigger] devices@[i]).name == context.hws@[i].0
                && devices@[i].fingerprint@ == fingerprint_text(context.hws@[i].1),
        context.signer matches Some(fp) ==> devices@[context.hws@.len() as int].name@
            == "This computer"@ && devices@[context.hws@.len() as int].fingerprint@
            == fingerprint_text(fp),
{
    let mut devices: Vec<DeviceLine> = Vec::new();
    let mut i: usize = 0;
    while i < context.hws.len()
        invariant
            i <= context.hws@.len(),
            devices@.len() == i,
            forall|j: int|
                0 <= j < i ==> (#[trigger] devices@[j]).name == context.hws@[j].0
                    && devices@[j].fingerprint@ == fingerprint_text(context.hws@[j].1),
        decreases context.hws@.len() - i,
    {
        let line = DeviceLine {
            name: context.hws[i].0.clone(),
            fingerprint: fingerprint_string(context.hws[i].1),
        };
        devices.push(line);
        i += 1;
    }
    match context.signer {
        Some(fp) => {
            devices.push(
                DeviceLine {
                    name: String::from_str("This computer"),
                    fingerprint: fingerprint_string(fp),
                },
            );
        },
        None => {},
    }
    assert(devices@.map_values(|l: DeviceLine| line_text(l)) =~= device_lines(
        context.hws@,
        context.signer,
    ));
    devices
}

/// What the last part of the final screen offers.
#[derive(Debug)]
pub enum InstallStep<P> {
    /// The installation is running.
    Installing,
    /// The installation is done: a button starts the wallet with the
    /// configuration at this path.
    Installed(P),
    /// A button starts the installation.
    Finalize,
}

/// The final screen, which sums up the installation.
#[derive(Debug)]
pub struct InstallView<P> {
    pub progress: String,
    pub descriptor: String,
    /// Whether the card of signing devices shows.
    pub show_devices: bool,
    /// The lines of that card.
    pub devices: Vec<DeviceLine>,
    /// The node's cookie path.
    pub cookie_path: String,
    /// The node's address.
    pub address: String,
    /// The text of the warning card, if one shows.
    pub warning: Option<String>,
    pub step: InstallStep<P>,
}

/// The final screen for `context`, whose node connection must be set up.
pub fn install<P>(
    progress: (usize, usize),
    context: &InstallContext,
    descriptor: String,
    generating: bool,
    config_path: Option<P>,
    warning: Option<&String>,
) -> (v: InstallView<P>)
    requires
        context.bitcoind is Some,
    ensures
        v.progress@ == ratio_text(progress.0 as nat, progress.1 as nat),
        v.descriptor == descriptor,
        v.show_devices == !(context.hws@.len() == 0 && context.signer is None),
        v.devices@.map_values(|l: DeviceLine| line_text(l)) == device_lines(
            context.hws@,
            context.signer,
        ),
        v.devices@.len() == context.hws@.len() + if context.signer is Some {
            1int
        } else {
            0int
        },
        forall|i: int|
            0 <= i < context.hws@.len() ==> (#[trigger] v.devices@[i]).name == context.hws@[i].0
                && v.devices@[i].fingerprint@ == "(fingerprint: "@ + hex8(context.hws@[i].1)
                + ")"@,
        context.signer matches Some(fp) ==> v.devices@[context.hws@.len() as int].name@
            == "This computer"@ && v.devices@[context.hws@.len() as int].fingerprint@
            == "(fingerprint: "@ + hex8(fp) + ")"@,
        v.cookie_path == context.bitcoind->0.cookie_path,
        v.address == context.bitcoind->0.address,
        v.warning == owned(warning),
        match v.step {
            InstallStep::Installing => generating,
            InstallStep::Installed(p) => !generating && config_path == Some(p),
            InstallStep::Finalize => !generating && config_path is None,
        },
{
    let devices = device_list(context);
    let settings = context.bitcoind.as_ref().unwrap();
    let step = if generating {
        InstallStep::Installing
    } else {
        match config_path {
            Some(p) => InstallStep::Installed(p),
            None => InstallStep::Finalize,
        }
    };
    InstallView {
        progress: progress_text(progress),
        descriptor,
        show_devices: !(context.hws.len() == 0 && context.signer.is_none()),
        devices,
        cookie_path: settings.cookie_path.clone(),
        address: settings.address.clone(),
        warning: copy_optional(warning),
        step,
    }
}

} // verus!
