//! What each key and each outcome changes of the launcher, and where it leads.

use vstd::prelude::*;

use super::app::{
    accepts, first_micro_batch, first_screen, is_complete, App, AppModel, ClientFacts, Flow, FlowModel,
    Form, Screen,
};
use super::config::{
    client_bin_of, root_of, sandbox_of, slot_dir_of, slot_name, LaunchConfig,
};
use super::detect::{devices_view, DeviceModel};
use super::paths::{ancestor, inside, law_parent_of_inside, lead, lemma_inside_is_tidy, tidied};
use super::prepare::{BuildSnapshot, BuildState};
use crate::keys::{Key, KeyPress};
use crate::parse::{number_in, trimmed};
use crate::text::decimal;

verus! {

/// The model of the launcher is what the launcher holds, field by field.
pub proof fn law_the_model_is_the_launcher(a: App, f: Form, cfg: LaunchConfig)
    ensures
        a@.screen == a.screen,
        a@.frame == a.frame,
        a@.host_summary == a.host_summary@,
        a@.devices == devices_view(a.devices@),
        a@.form == a.form@,
        a.identity_path matches Some(p) ==> a@.identity_path == Some(p@),
        a.identity_path is None ==> a@.identity_path is None,
        a@.identity_created == a.identity_created,
        a.identity_error matches Some(e) ==> a@.identity_error == Some(e@),
        a.identity_error is None ==> a@.identity_error is None,
        a@.build == a.build,
        a@.build_elapsed == a.build_elapsed,
        a@.build_failed_msg == a.build_failed_msg@,
        a.launch matches Some(l) ==> a@.launch == Some(l@),
        a.launch is None ==> a@.launch is None,
        a.form_error matches Some(e) ==> a@.form_error == Some(e@),
        a.form_error is None ==> a@.form_error is None,
        f@.run_id == f.run_id@,
        f@.server_host == f.server_host@,
        f@.server_port == f.server_port@,
        f@.slot == f.slot@,
        f@.micro_batch == f.micro_batch@,
        f@.device_idx == f.device_idx,
        f@.focus == f.focus,
        cfg@.run_id == cfg.run_id@,
        cfg@.server_addr == cfg.server_addr@,
        cfg@.device == cfg.device@,
        cfg@.micro_batch_size == cfg.micro_batch_size@,
        cfg@.identity_key == cfg.identity_key@,
        cfg@.log_file == cfg.log_file@,
{
}

// Where things lie

/// The name of a slot's directory has a character for each of the slot: the same where it fits, and an
/// underscore where it does not. The first slot is meant where none is named.
pub proof fn law_slot_names_follow_the_slot(slot: Seq<char>, i: int)
    ensures
        slot.len() == 0 ==> slot_name(slot) == "1"@,
        slot.len() > 0 ==> slot_name(slot).len() == slot.len(),
        0 <= i < slot.len() ==> slot_name(slot)[i] == (if ('a' <= slot[i] <= 'z') || ('A' <= slot[i]
            <= 'Z') || ('0' <= slot[i] <= '9') || slot[i] == '_' || slot[i] == '.' || slot[i] == '-' {
            slot[i]
        } else {
            '_'
        }),
{
}

/// The directory of a slot lies below that of the clients in the sandbox, which lies in the repository.
proof fn lemma_slot_dir(manifest_dir: Seq<char>, slot: Seq<char>)
    ensures
        slot_dir_of(manifest_dir, slot) == sandbox_of(manifest_dir) + "/clients/"@ + slot_name(slot),
        slot_dir_of(manifest_dir, slot).len() > 0,
        slot_dir_of(manifest_dir, slot).last() != '/',
{
    reveal_strlit(".aethercompute");
    reveal_strlit("clients");
    reveal_strlit("/clients/");
    reveal_strlit("1");
    let sandbox = sandbox_of(manifest_dir);
    let clients = inside(sandbox, "clients"@);
    assert(sandbox.last() == ".aethercompute"@[13]);
    assert(clients =~= sandbox + seq!['/'] + "clients"@);
    assert(clients.last() == "clients"@[6]);
    assert("/clients/"@ =~= seq!['/'] + "clients"@ + seq!['/']);
    let name = slot_name(slot);
    assert(name.len() > 0);
    if slot.len() > 0 {
        law_slot_names_follow_the_slot(slot, slot.len() - 1);
    } else {
        assert(name[0] == '1');
    }
    let dir = slot_dir_of(manifest_dir, slot);
    assert(dir =~= clients + seq!['/'] + name);
    assert(dir =~= sandbox + "/clients/"@ + name);
    assert(dir.last() == name.last());
    assert(name.last() == name[name.len() - 1]);
}

/// Where the identity and the log of a slot lie.
pub(crate) proof fn lemma_in_slot_dir(manifest_dir: Seq<char>, slot: Seq<char>)
    ensures
        inside(slot_dir_of(manifest_dir, slot), "identity.key"@) == sandbox_of(manifest_dir)
            + "/clients/"@ + slot_name(slot) + "/identity.key"@,
        inside(inside(slot_dir_of(manifest_dir, slot), "logs"@), "client.log"@) == sandbox_of(
            manifest_dir,
        ) + "/clients/"@ + slot_name(slot) + "/logs/client.log"@,
{
    lemma_slot_dir(manifest_dir, slot);
    reveal_strlit("identity.key");
    reveal_strlit("/identity.key");
    reveal_strlit("logs");
    reveal_strlit("client.log");
    reveal_strlit("/logs/client.log");
    let dir = slot_dir_of(manifest_dir, slot);
    assert("/identity.key"@ =~= seq!['/'] + "identity.key"@);
    assert(inside(dir, "identity.key"@) =~= dir + "/identity.key"@);
    let logs = inside(dir, "logs"@);
    assert(logs =~= dir + seq!['/'] + "logs"@);
    assert(logs.last() == "logs"@[3]);
    assert("/logs/client.log"@ =~= seq!['/'] + "logs"@ + seq!['/'] + "client.log"@);
    assert(inside(logs, "client.log"@) =~= dir + "/logs/client.log"@);
}

/// Where the start button leads on, the identity asked for is that of the slot in the form.
pub proof fn law_the_identity_is_of_the_slot(m: AppModel, press: KeyPress, manifest_dir: Seq<char>)
    requires
        m.on_key(press, manifest_dir).1 is EnsureIdentity,
    ensures
        m.on_key(press, manifest_dir).1->path == sandbox_of(manifest_dir) + "/clients/"@ + slot_name(
            m.form.slot,
        ) + "/identity.key"@,
{
    lemma_in_slot_dir(manifest_dir, m.form.slot);
}

/// Two forms ask for the same identity exactly where their slots have the same directory, whatever
/// else they hold.
pub proof fn law_slots_have_identities_of_their_own(
    a: AppModel,
    b: AppModel,
    press: KeyPress,
    manifest_dir: Seq<char>,
)
    requires
        a.on_key(press, manifest_dir).1 is EnsureIdentity,
        b.on_key(press, manifest_dir).1 is EnsureIdentity,
    ensures
        a.on_key(press, manifest_dir).1 == b.on_key(press, manifest_dir).1 <==> slot_name(a.form.slot)
            == slot_name(b.form.slot),
{
    law_the_identity_is_of_the_slot(a, press, manifest_dir);
    law_the_identity_is_of_the_slot(b, press, manifest_dir);
    let front = sandbox_of(manifest_dir) + "/clients/"@;
    let x = front + slot_name(a.form.slot) + "/identity.key"@;
    let y = front + slot_name(b.form.slot) + "/identity.key"@;
    if x == y {
        assert(x.len() == front.len() + slot_name(a.form.slot).len() + "/identity.key"@.len());
        assert(y.len() == front.len() + slot_name(b.form.slot).len() + "/identity.key"@.len());
        let n = front.len() as int;
        assert(slot_name(a.form.slot) =~= x.subrange(n, n + slot_name(a.form.slot).len()));
        assert(slot_name(b.form.slot) =~= y.subrange(n, n + slot_name(b.form.slot).len()));
    }
}

/// A client is launched with the identity that was seen to, or else that of its slot, and logs into the
/// directory of its slot.
pub proof fn law_clients_keep_to_their_slot(m: AppModel, press: KeyPress, manifest_dir: Seq<char>)
    requires
        m.on_key(press, manifest_dir).1 is Launch,
    ensures
        ({
            let cfg = m.on_key(press, manifest_dir).1->0;
            let dir = sandbox_of(manifest_dir) + "/clients/"@ + slot_name(m.form.slot);
            &&& m.identity_path matches Some(p) ==> cfg.identity_key == p
            &&& m.identity_path is None ==> cfg.identity_key == dir + "/identity.key"@
            &&& cfg.log_file == dir + "/logs/client.log"@
            &&& cfg.run_id == m.form.run_id
            &&& cfg.micro_batch_size == m.form.micro_batch
            &&& m.form.device_idx < m.devices.len() ==> cfg.device
                == m.devices[m.form.device_idx as int].value
            &&& number_in(m.form.server_port, 65535) matches Some(port) && cfg.server_addr
                == m.form.server_host + ":"@ + decimal(port)
        }),
{
    lemma_in_slot_dir(manifest_dir, m.form.slot);
}

/// The repository is three levels above the launcher, and the sandbox and the client lie in it.
pub proof fn law_the_repository_is_three_levels_up(
    base: Seq<char>,
    a: Seq<char>,
    b: Seq<char>,
    c: Seq<char>,
)
    requires
        base.len() > 0,
        tidied(base, lead(base)) == base,
        base.last() != '/',
        is_part(a),
        is_part(b),
        is_part(c),
    ensures
        ({
            let launcher = inside(inside(inside(base, a), b), c);
            &&& root_of(launcher) == base
            &&& sandbox_of(launcher) == base + "/.aethercompute"@
            &&& client_bin_of(launcher) == base + "/target/release/psyche-centralized-client"@
        }),
{
    let x = inside(base, a);
    let y = inside(x, b);
    let launcher = inside(y, c);
    lemma_inside_is_tidy(base, a);
    lemma_inside_is_tidy(x, b);
    law_parent_of_inside(base, a);
    law_parent_of_inside(x, b);
    law_parent_of_inside(y, c);
    reveal_with_fuel(ancestor, 4);
    assert(ancestor(launcher, 1) == Some(y));
    assert(ancestor(launcher, 2) == Some(x));
    assert(ancestor(launcher, 3) == Some(base));
    reveal_strlit(".aethercompute");
    reveal_strlit("/.aethercompute");
    assert("/.aethercompute"@ =~= seq!['/'] + ".aethercompute"@);
    assert(sandbox_of(launcher) =~= base + "/.aethercompute"@);
    reveal_strlit("target");
    reveal_strlit("release");
    reveal_strlit("psyche-centralized-client");
    reveal_strlit("/target/release/psyche-centralized-client");
    let target = inside(base, "target"@);
    assert(target =~= base + seq!['/'] + "target"@);
    assert(target.last() == "target"@[5]);
    let release = inside(target, "release"@);
    assert(release =~= target + seq!['/'] + "release"@);
    assert(release.last() == "release"@[6]);
    let client = inside(release, "psyche-centralized-client"@);
    assert(client =~= release + seq!['/'] + "psyche-centralized-client"@);
    assert("/target/release/psyche-centralized-client"@ =~= seq!['/'] + "target"@ + seq!['/']
        + "release"@ + seq!['/'] + "psyche-centralized-client"@);
    assert(client =~= base + "/target/release/psyche-centralized-client"@);
}

/// A name that can stand in a path.
pub open spec fn is_part(part: Seq<char>) -> bool {
    part.len() > 0 && !part.contains('/') && part != seq!['.']
}

// The form

/// What may be typed where: digits for the port and the micro-batch; letters, digits, hyphens, dots and
/// underscores for the run and the slot; the same without underscores for the server; and nothing on a
/// device or the button.
pub proof fn law_fields_accept_their_characters(c: char)
    ensures
        ({
            let digit = '0' <= c <= '9';
            let letter = ('a' <= c <= 'z') || ('A' <= c <= 'Z');
            let name = digit || letter || c == '-' || c == '.';
            &&& accepts(0, c) <==> name || c == '_'
            &&& accepts(1, c) <==> name
            &&& accepts(2, c) <==> digit
            &&& accepts(3, c) <==> name || c == '_'
            &&& !accepts(4, c)
            &&& accepts(5, c) <==> digit
            &&& !accepts(6, c)
        }),
{
}

/// Whether the key types or erases in the field at this place, and what it makes of its text.
pub open spec fn edited(text: Seq<char>, key: Key, focus: usize, place: usize) -> Seq<char> {
    if focus != place {
        text
    } else {
        match key {
            Key::Char(c) => if accepts(place, c) {
                text.push(c)
            } else {
                text
            },
            Key::Backspace => if text.len() > 0 {
                text.drop_last()
            } else {
                text
            },
            _ => text,
        }
    }
}

/// What is typed or erased goes to the field with the focus, and to no other. Typing and erasing leave
/// the device and the focus alone.
pub proof fn law_typing_goes_to_the_focus(m: AppModel, key: Key, manifest_dir: Seq<char>)
    ensures
        ({
            let before = m.form;
            let after = m.on_form_key(key, manifest_dir).0.form;
            &&& after.run_id == edited(before.run_id, key, before.focus, 0)
            &&& after.server_host == edited(before.server_host, key, before.focus, 1)
            &&& after.server_port == edited(before.server_port, key, before.focus, 2)
            &&& after.slot == edited(before.slot, key, before.focus, 3)
            &&& after.micro_batch == edited(before.micro_batch, key, before.focus, 5)
            &&& key is Char || key is Backspace ==> after.device_idx == before.device_idx && after.focus
                == before.focus
        }),
{
}

/// Which keys move the focus: down and tab on, up back, without an end, and enter on from every field.
/// Left and right change the device where it has the focus.
pub proof fn law_form_keys_move(m: AppModel, key: Key, manifest_dir: Seq<char>)
    requires
        m.form.focus <= 6,
        m.form.device_idx < m.devices.len() <= usize::MAX,
    ensures
        ({
            let before = m.form;
            let n = m.devices.len() as int;
            let after = m.on_form_key(key, manifest_dir).0.form;
            &&& after.focus == (match key {
                Key::Down | Key::Tab => if before.focus == 6 {
                    0
                } else {
                    before.focus + 1
                },
                Key::Up => if before.focus == 0 {
                    6
                } else {
                    before.focus - 1
                },
                Key::Enter => if before.focus == 6 {
                    6
                } else {
                    before.focus + 1
                },
                _ => before.focus as int,
            })
            &&& after.device_idx == (match key {
                Key::Left if before.focus == 4 => if before.device_idx == 0 {
                    n - 1
                } else {
                    before.device_idx - 1
                },
                Key::Right if before.focus == 4 => if before.device_idx == n - 1 {
                    0
                } else {
                    before.device_idx + 1
                },
                _ => before.device_idx as int,
            })
        }),
{
    let n = m.devices.len() as int;
    let i = m.form.device_idx as int;
    vstd::arithmetic::div_mod::lemma_mod_self_0(n);
    vstd::arithmetic::div_mod::lemma_small_mod((n - 1) as nat, n as nat);
    vstd::arithmetic::div_mod::lemma_mod_add_multiples_vanish(-1, n);
    if i + 1 < n {
        vstd::arithmetic::div_mod::lemma_small_mod((i + 1) as nat, n as nat);
    }
    if i > 0 {
        vstd::arithmetic::div_mod::lemma_small_mod((i - 1) as nat, n as nat);
    }
}

/// A form can be started from where a run and a server are named, the port is one, and the micro-batch
/// is a number.
pub proof fn law_complete_forms(m: AppModel)
    ensures
        is_complete(m.form) <==> {
            &&& trimmed(m.form.run_id) != Seq::<char>::empty()
            &&& trimmed(m.form.server_host) != Seq::<char>::empty()
            &&& number_in(m.form.server_port, 65535) is Some
            &&& number_in(m.form.micro_batch, usize::MAX as nat) is Some
        },
{
    assert(trimmed(m.form.run_id).len() == 0 ==> trimmed(m.form.run_id) =~= Seq::<char>::empty());
    assert(trimmed(m.form.server_host).len() == 0 ==> trimmed(m.form.server_host) =~= Seq::<
        char,
    >::empty());
}

/// The start button of a complete form, for a device that is not known to be too small, asks for an
/// identity; of any other form it asks for nothing. It changes nothing but what is said of the device.
pub proof fn law_the_start_button_starts(m: AppModel, control: bool, manifest_dir: Seq<char>)
    requires
        m.screen == Screen::Form,
        m.form.focus == 6,
        m.form.device_idx < m.devices.len(),
    ensures
        ({
            let small = m.devices[m.form.device_idx as int].vram_mib matches Some(mib) && mib < 4096;
            let (after, flow) = m.on_key(KeyPress { key: Key::Enter, control }, manifest_dir);
            &&& flow is EnsureIdentity <==> !small && is_complete(m.form)
            &&& flow is EnsureIdentity || flow is Continue
            &&& after.form_error is Some <==> small
            &&& after == (AppModel { form_error: after.form_error, ..m })
        }),
{
}

// From screen to screen

/// Which keys quit: control and C everywhere; escape everywhere but on the identity, where it leads
/// back; and Q everywhere but in a field of the form.
pub proof fn law_keys_that_quit(m: AppModel, press: KeyPress, manifest_dir: Seq<char>)
    ensures
        m.on_key(press, manifest_dir).1 is Quit <==> {
            ||| press.control && press.key == Key::Char('c')
            ||| press.key == Key::Esc && m.screen != Screen::Identity
            ||| press.key == Key::Char('q') && (m.screen != Screen::Form || m.form.focus == 6)
        },
        m.on_key(press, manifest_dir).1 is Quit ==> m.on_key(press, manifest_dir).0 == m,
{
}

/// The client is looked at once the identity was confirmed, and again on asking after an error. What
/// was seen of an earlier build is forgotten then, and nothing else.
pub proof fn law_keys_that_inspect_the_client(m: AppModel, press: KeyPress, manifest_dir: Seq<char>)
    requires
        !(press.control && press.key == Key::Char('c')),
    ensures
        m.on_key(press, manifest_dir).1 is InspectClient <==> {
            ||| m.screen == Screen::Identity && (press.key == Key::Enter || press.key == Key::Tab)
            ||| m.screen == Screen::Error && press.key == Key::Char('r')
        },
        m.on_key(press, manifest_dir).1 is InspectClient ==> {
            let after = m.on_key(press, manifest_dir).0;
            &&& after.build is None
            &&& after.build_elapsed == 0
            &&& after.build_failed_msg.len() == 0
            &&& after == (AppModel {
                build: after.build,
                build_elapsed: after.build_elapsed,
                build_failed_msg: after.build_failed_msg,
                ..m
            })
        },
{
}

/// Which keys change the screen: from the welcome on to the form, and from the identity back to it.
/// Nothing else changes with the screen.
pub proof fn law_keys_that_change_the_screen(m: AppModel, press: KeyPress, manifest_dir: Seq<char>)
    requires
        !(press.control && press.key == Key::Char('c')),
    ensures
        ({
            let after = m.on_key(press, manifest_dir).0;
            let on = m.screen == Screen::Welcome && (press.key == Key::Enter || press.key == Key::Right
                || press.key == Key::Tab);
            let back = m.screen == Screen::Identity && (press.key == Key::Char('b') || press.key
                == Key::Left || press.key == Key::Esc);
            &&& after.screen == (if on || back {
                Screen::Form
            } else {
                m.screen
            })
            &&& on || back ==> after == (AppModel { screen: Screen::Form, ..m })
        }),
{
}

/// A confirmation on the last screen launches wherever the port is one, and leaves the form alone.
pub proof fn law_the_last_screen_launches(m: AppModel, control: bool, manifest_dir: Seq<char>)
    requires
        m.screen == Screen::Ready,
    ensures
        ({
            let (after, flow) = m.on_key(KeyPress { key: Key::Enter, control }, manifest_dir);
            &&& flow is Launch <==> number_in(m.form.server_port, 65535) is Some
            &&& flow is Launch ==> after == (AppModel { launch: Some(flow->0), ..m })
            &&& !(flow is Launch) ==> flow is Continue && after == m
        }),
{
}

/// An identity that was seen to leads on, and is kept with whether it is new; one that was not leaves
/// the screen and says why.
pub proof fn law_identities_lead_on(m: AppModel, path: Seq<char>, created: bool, why: Seq<char>)
    ensures
        m.with_identity(path, Ok(created)) == (AppModel {
            screen: Screen::Identity,
            identity_path: Some(path),
            identity_created: Some(created),
            identity_error: None,
            ..m
        }),
        m.with_identity(path, Err(why)) == (AppModel { identity_error: Some(why), ..m }),
{
}

/// A client that is there, runs and fits torch is used as it is; any other is built. Nothing else
/// changes.
pub proof fn law_clients_are_used_or_built(m: AppModel, facts: ClientFacts)
    ensures
        facts.exists && facts.runs && !facts.torch_changed ==> m.with_client(facts) == (AppModel {
            screen: Screen::Ready,
            ..m
        }),
        !facts.exists || !facts.runs || facts.torch_changed ==> m.with_client(facts) == (AppModel {
            screen: Screen::Build,
            ..m
        }),
{
}

/// A build is followed on its own screen only. While it runs its progress is kept; once it is done the
/// client is ready if it runs; if it does not, or the build failed, it is said why.
pub proof fn law_builds_are_followed(m: AppModel, snap: BuildSnapshot, client_runs: bool)
    ensures
        ({
            let after = m.with_build(snap, client_runs);
            &&& m.screen != Screen::Build ==> after == m
            &&& m.screen == Screen::Build ==> {
                &&& after.build == Some(snap)
                &&& after.build_elapsed == snap.elapsed
                &&& after.form == m.form
                &&& after.devices == m.devices
                &&& after.identity_path == m.identity_path
                &&& after.launch == m.launch
                &&& match snap.state {
                    BuildState::Running => after.screen == Screen::Build && after.build_failed_msg
                        == m.build_failed_msg,
                    BuildState::Success => if client_runs {
                        after.screen == Screen::Ready && after.build_failed_msg == m.build_failed_msg
                    } else {
                        after.screen == Screen::Error && after.build_failed_msg
                            == "build finished but the binary still fails to load libtorch"@
                    },
                    BuildState::Failed(why) => after.screen == Screen::Error && after.build_failed_msg
                        == why@,
                }
            }
        }),
{
}

/// The launcher begins with its welcome and a form that is filled in, for the first device, with the
/// micro-batch that suits the best card.
pub proof fn law_the_launcher_begins_with_its_welcome(
    host: Seq<char>,
    devices: Seq<DeviceModel>,
    best: Option<u32>,
)
    ensures
        ({
            let m = first_screen(host, devices, best);
            &&& m.screen == Screen::Welcome
            &&& m.frame == 0
            &&& m.host_summary == host
            &&& m.devices == devices
            &&& m.form.run_id == "ds-v3-dense-250m-ufw"@
            &&& m.form.server_host == "train.aethercompute.org"@
            &&& m.form.server_port == "39405"@
            &&& m.form.slot == "1"@
            &&& m.form.device_idx == 0
            &&& m.form.focus == 0
            &&& m.form.micro_batch == first_micro_batch(best)
            &&& m.identity_path is None && m.identity_created is None && m.identity_error is None
            &&& m.build is None && m.build_elapsed == 0 && m.build_failed_msg.len() == 0
            &&& m.launch is None
            &&& m.form_error is None
        }),
        best is None ==> first_micro_batch(best) == "1"@,
        best matches Some(mib) ==> first_micro_batch(best) == (if mib < 4096 {
            "1"@
        } else if mib < 8192 {
            decimal(1)
        } else if mib < 16384 {
            decimal(2)
        } else if mib < 24576 {
            decimal(4)
        } else {
            decimal(8)
        }),
{
}

/// The model of what a key leads to is what it leads to.
pub proof fn law_the_model_is_where_a_key_leads(f: Flow)
    ensures
        f is Continue <==> f@ is Continue,
        f is Quit <==> f@ is Quit,
        f is InspectClient <==> f@ is InspectClient,
        f matches Flow::EnsureIdentity { path } ==> f@ == (FlowModel::EnsureIdentity { path: path@ }),
        f matches Flow::Launch(cfg) ==> f@ == FlowModel::Launch(cfg@),
{
}

} // verus!
