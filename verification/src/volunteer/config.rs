//! Defaults, the layout of the sandbox, and the arguments handed to the training client.

use vstd::prelude::*;

use super::paths::{ancestor, ancestor_of, inside, join_path};
use crate::text::{chars_of, views};

verus! {

pub const DEFAULT_RUN_ID: &'static str = "ds-v3-dense-250m-ufw";

pub const DEFAULT_SERVER_HOST: &'static str = "train.aethercompute.org";

pub const DEFAULT_SERVER_PORT: &'static str = "39405";

pub const DEFAULT_MICRO_BATCH: &'static str = "1";

pub const DEFAULT_SLOT: &'static str = "1";

pub const CLIENT_CRATE: &'static str = "psyche-centralized-client";

pub const CLIENT_BIN_NAME: &'static str = "psyche-centralized-client";

/// The repository: three levels above the directory of the launcher's own manifest, or that
/// directory where it does not lie so deep.
pub open spec fn root_of(manifest_dir: Seq<char>) -> Seq<char> {
    match ancestor(manifest_dir, 3) {
        Some(p) => p,
        None => manifest_dir,
    }
}

/// Everything sandboxed lies in here.
pub open spec fn sandbox_of(manifest_dir: Seq<char>) -> Seq<char> {
    inside(root_of(manifest_dir), ".aethercompute"@)
}

/// The repository: three levels above the directory of the launcher's own manifest, or that
/// directory where it does not lie so deep.
pub fn repo_root(manifest_dir: &str) -> (r: String)
    ensures
        r@ == root_of(manifest_dir@),
{
    match ancestor_of(manifest_dir, 3) {
        Some(p) => p,
        None => manifest_dir.to_string(),
    }
}

/// Everything sandboxed lies in here.
pub fn sandbox_dir(manifest_dir: &str) -> (r: String)
    ensures
        r@ == sandbox_of(manifest_dir@),
{
    join_path(repo_root(manifest_dir).as_str(), ".aethercompute")
}

/// The sandbox's home of cargo.
pub fn sandbox_cargo_home(manifest_dir: &str) -> (r: String)
    ensures
        r@ == inside(sandbox_of(manifest_dir@), "cargo"@),
{
    join_path(sandbox_dir(manifest_dir).as_str(), "cargo")
}

/// The sandbox's home of rustup.
pub fn sandbox_rustup_home(manifest_dir: &str) -> (r: String)
    ensures
        r@ == inside(sandbox_of(manifest_dir@), "rustup"@),
{
    join_path(sandbox_dir(manifest_dir).as_str(), "rustup")
}

/// The sandbox's Python environment.
pub fn sandbox_venv(manifest_dir: &str) -> (r: String)
    ensures
        r@ == inside(sandbox_of(manifest_dir@), "venv"@),
{
    join_path(sandbox_dir(manifest_dir).as_str(), "venv")
}

/// The training client.
pub open spec fn client_bin_of(manifest_dir: Seq<char>) -> Seq<char> {
    inside(inside(inside(root_of(manifest_dir), "target"@), "release"@), CLIENT_BIN_NAME@)
}

/// The training client.
pub fn client_bin(manifest_dir: &str) -> (r: String)
    ensures
        r@ == client_bin_of(manifest_dir@),
{
    let target = join_path(repo_root(manifest_dir).as_str(), "target");
    let release = join_path(target.as_str(), "release");
    join_path(release.as_str(), CLIENT_BIN_NAME)
}

/// A character that may stand in the name of a slot's directory.
pub open spec fn fits_in_slot(c: char) -> bool {
    ('a' <= c <= 'z') || ('A' <= c <= 'Z') || ('0' <= c <= '9') || c == '_' || c == '.' || c == '-'
}

/// The name of a slot's directory: the slot with an underscore for each character that does not
/// fit, or that of the first slot where nothing is given.
pub open spec fn slot_name(slot: Seq<char>) -> Seq<char> {
    if slot.len() == 0 {
        "1"@
    } else {
        slot.map_values(
            |c: char|
                if fits_in_slot(c) {
                    c
                } else {
                    '_'
                },
        )
    }
}

/// A slot's own directory, for its identity key and its logs.
pub open spec fn slot_dir_of(manifest_dir: Seq<char>, slot: Seq<char>) -> Seq<char> {
    inside(inside(sandbox_of(manifest_dir), "clients"@), slot_name(slot))
}

fn clean_slot(slot: &str) -> (r: String)
    ensures
        r@ == slot_name(slot@),
{
    let chars = chars_of(slot);
    if chars.len() == 0 {
        return "1".to_string();
    }
    let mut out = String::new();
    let mut i: usize = 0;
    while i < chars.len()
        invariant
            chars@ == slot@,
            slot@.len() > 0,
            i <= chars@.len(),
            out@ == slot_name(slot@).take(i as int),
        decreases chars@.len() - i,
    {
        let c = chars[i];
        if ('a' <= c && c <= 'z') || ('A' <= c && c <= 'Z') || ('0' <= c && c <= '9') || c == '_' || c
            == '.' || c == '-' {
            out.push(c);
        } else {
            out.push('_');
        }
        i = i + 1;
        assert(out@ =~= slot_name(slot@).take(i as int));
    }
    assert(slot_name(slot@).take(i as int) =~= slot_name(slot@));
    out
}

/// A slot's own directory, for its identity key and its logs.
pub fn slot_dir(manifest_dir: &str, slot: &str) -> (r: String)
    ensures
        r@ == slot_dir_of(manifest_dir@, slot@),
{
    let clients = join_path(sandbox_dir(manifest_dir).as_str(), "clients");
    join_path(clients.as_str(), clean_slot(slot).as_str())
}

/// Whatever a volunteer types as a slot, its directory is a single part below that of the clients.
pub proof fn law_slot_stays_in_sandbox(slot: Seq<char>)
    ensures
        slot_name(slot).len() > 0,
        !slot_name(slot).contains('/'),
        slot.len() > 0 ==> slot_name(slot_name(slot)) == slot_name(slot),
{
    reveal_strlit("1");
    assert forall|i: int| 0 <= i < slot_name(slot).len() implies slot_name(slot)[i] != '/' by {
        if slot.len() > 0 {
            assert(slot_name(slot)[i] == if fits_in_slot(slot[i]) {
                slot[i]
            } else {
                '_'
            });
        }
    }
    if slot.len() > 0 {
        assert(slot_name(slot_name(slot)) =~= slot_name(slot));
    }
}

/// What a volunteer has settled on.
#[derive(Debug)]
pub struct LaunchConfig {
    pub run_id: String,
    /// Host and port.
    pub server_addr: String,
    pub device: String,
    pub micro_batch_size: String,
    pub identity_key: String,
    pub log_file: String,
}

/// What a volunteer has settled on, as characters.
#[verifier::ext_equal]
pub struct LaunchModel {
    pub run_id: Seq<char>,
    pub server_addr: Seq<char>,
    pub device: Seq<char>,
    pub micro_batch_size: Seq<char>,
    pub identity_key: Seq<char>,
    pub log_file: Seq<char>,
}

impl View for LaunchConfig {
    type V = LaunchModel;

    open spec fn view(&self) -> LaunchModel {
        LaunchModel {
            run_id: self.run_id@,
            server_addr: self.server_addr@,
            device: self.device@,
            micro_batch_size: self.micro_batch_size@,
            identity_key: self.identity_key@,
            log_file: self.log_file@,
        }
    }
}

impl Clone for LaunchConfig {
    fn clone(&self) -> (r: Self)
        ensures
            r == *self,
    {
        LaunchConfig {
            run_id: self.run_id.clone(),
            server_addr: self.server_addr.clone(),
            device: self.device.clone(),
            micro_batch_size: self.micro_batch_size.clone(),
            identity_key: self.identity_key.clone(),
            log_file: self.log_file.clone(),
        }
    }
}

/// A flag is followed by its value.
pub open spec fn gives_flag(args: Seq<Seq<char>>, flag: Seq<char>, value: Seq<char>) -> bool {
    exists|i: int| 0 <= i < args.len() - 1 && #[trigger] args[i] == flag && args[i + 1] == value
}

impl LaunchConfig {
    /// The arguments of the training client.
    pub fn client_args(&self) -> (r: Vec<String>)
        ensures
            views(r@) == seq![
                "train"@,
                "--run-id"@,
                self.run_id@,
                "--server-addr"@,
                self.server_addr@,
                "--device"@,
                self.device@,
                "--micro-batch-size"@,
                self.micro_batch_size@,
                "--identity-secret-key-path"@,
                self.identity_key@,
                "--logs"@,
                "tui"@,
                "--write-log"@,
                self.log_file@,
            ],
            gives_flag(views(r@), "--run-id"@, self.run_id@),
            gives_flag(views(r@), "--server-addr"@, self.server_addr@),
            gives_flag(views(r@), "--device"@, self.device@),
            gives_flag(views(r@), "--micro-batch-size"@, self.micro_batch_size@),
            gives_flag(views(r@), "--identity-secret-key-path"@, self.identity_key@),
            gives_flag(views(r@), "--write-log"@, self.log_file@),
    {
        let args = vec![
            "train".to_string(),
            "--run-id".to_string(),
            self.run_id.clone(),
            "--server-addr".to_string(),
            self.server_addr.clone(),
            "--device".to_string(),
            self.device.clone(),
            "--micro-batch-size".to_string(),
            self.micro_batch_size.clone(),
            "--identity-secret-key-path".to_string(),
            self.identity_key.clone(),
            "--logs".to_string(),
            "tui".to_string(),
            "--write-log".to_string(),
            self.log_file.clone(),
        ];
        assert(views(args@) =~= seq![
            "train"@,
            "--run-id"@,
            self.run_id@,
            "--server-addr"@,
            self.server_addr@,
            "--device"@,
            self.device@,
            "--micro-batch-size"@,
            self.micro_batch_size@,
            "--identity-secret-key-path"@,
            self.identity_key@,
            "--logs"@,
            "tui"@,
            "--write-log"@,
            self.log_file@,
        ]);
        proof {
            let v = views(args@);
            assert(v[1] == "--run-id"@ && v[2] == self.run_id@);
            assert(v[3] == "--server-addr"@ && v[4] == self.server_addr@);
            assert(v[5] == "--device"@ && v[6] == self.device@);
            assert(v[7] == "--micro-batch-size"@ && v[8] == self.micro_batch_size@);
            assert(v[9] == "--identity-secret-key-path"@ && v[10] == self.identity_key@);
            assert(v[13] == "--write-log"@ && v[14] == self.log_file@);
        }
        args
    }
}

} // verus!
