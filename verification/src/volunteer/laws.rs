//! What holds of the launcher whatever keys are pressed.

use vstd::prelude::*;

use super::app::{
    accepts, has_memory, is_complete, AppModel, ClientFacts, FlowModel, FormModel, Screen, START,
};
use super::prepare::BuildSnapshot;
use crate::keys::{Key, KeyPress};
use crate::parse::{is_digit, number_in};
use crate::text::decimal;

verus! {

/// Digits only.
pub open spec fn is_number_text(text: Seq<char>) -> bool {
    forall|i: int| 0 <= i < text.len() ==> is_digit(#[trigger] text[i])
}

/// Nothing that happens makes the focus leave the form or the choice leave the devices, so the
/// launcher can be shown and used in every state that it comes to.
pub proof fn law_every_state_is_usable(
    m: AppModel,
    press: KeyPress,
    manifest_dir: Seq<char>,
    path: Seq<char>,
    identity: Result<bool, Seq<char>>,
    facts: ClientFacts,
    snap: BuildSnapshot,
    client_runs: bool,
)
    requires
        m.wf(),
    ensures
        m.on_key(press, manifest_dir).0.wf(),
        m.with_identity(path, identity).wf(),
        m.with_client(facts).wf(),
        m.with_build(snap, client_runs).wf(),
{
    let n = m.devices.len() as int;
    assert(0 <= (m.form.device_idx + 1) % n < n);
    assert(0 <= (m.form.device_idx + (-1)) % n < n);
}

/// Control and C quit on every screen and change nothing.
pub proof fn law_control_c_quits(m: AppModel, manifest_dir: Seq<char>)
    ensures
        m.on_key(KeyPress { key: Key::Char('c'), control: true }, manifest_dir) == (
            m,
            FlowModel::Quit,
        ),
{
}

/// A card known to have too little memory is never started with: it is said why, and the form
/// stays.
pub proof fn law_small_cards_are_refused(m: AppModel, control: bool, manifest_dir: Seq<char>)
    requires
        m.wf(),
        m.screen == Screen::Form,
        m.form.focus == START,
        !has_memory(m.device()),
    ensures
        ({
            let (after, flow) = m.on_key(KeyPress { key: Key::Enter, control }, manifest_dir);
            &&& flow == FlowModel::Continue
            &&& after.screen == Screen::Form
            &&& after.form == m.form
            &&& after.form_error is Some
        }),
{
}

/// An identity is asked for only by the start button, of a complete form, for a card that is not
/// known to be too small.
pub proof fn law_only_complete_forms_proceed(m: AppModel, press: KeyPress, manifest_dir: Seq<char>)
    requires
        m.on_key(press, manifest_dir).1 is EnsureIdentity,
    ensures
        m.screen == Screen::Form,
        press.key == Key::Enter,
        m.form.focus == START,
        is_complete(m.form),
        has_memory(m.device()),
{
}

/// Only a confirmation on the last screen launches, with the run, the device and the micro-batch of
/// the form, and with a port that is one.
pub proof fn law_only_ready_launches(m: AppModel, press: KeyPress, manifest_dir: Seq<char>)
    requires
        m.wf(),
        m.on_key(press, manifest_dir).1 is Launch,
    ensures
        m.screen == Screen::Ready,
        press.key == Key::Enter,
        ({
            let cfg = m.on_key(press, manifest_dir).1->0;
            let port = number_in(m.form.server_port, u16::MAX as nat);
            &&& port is Some
            &&& cfg.run_id == m.form.run_id
            &&& cfg.server_addr == m.form.server_host + ":"@ + decimal(port->0)
            &&& cfg.device == m.device().value
            &&& cfg.micro_batch_size == m.form.micro_batch
            &&& m.on_key(press, manifest_dir).0.launch == Some(cfg)
        }),
{
}

/// A client that does not run, or was linked against another torch, is never called ready.
pub proof fn law_broken_clients_are_not_ready(
    m: AppModel,
    facts: ClientFacts,
    snap: BuildSnapshot,
    client_runs: bool,
)
    requires
        m.screen != Screen::Ready,
    ensures
        m.with_client(facts).screen == Screen::Ready <==> facts.exists && facts.runs
            && !facts.torch_changed,
        m.with_build(snap, client_runs).screen == Screen::Ready <==> m.screen == Screen::Build
            && snap.state is Success && client_runs,
{
}

/// Keys lead from the welcome to the form and from the identity back to it; to no other screen.
pub proof fn law_keys_lead_to_the_form(m: AppModel, press: KeyPress, manifest_dir: Seq<char>)
    ensures
        ({
            let after = m.on_key(press, manifest_dir).0;
            after.screen == m.screen || (after.screen == Screen::Form && (m.screen
                == Screen::Welcome || m.screen == Screen::Identity))
        }),
{
}

/// The port and the micro-batch hold digits only, as long as they did before.
pub proof fn law_numbers_stay_numbers(m: AppModel, press: KeyPress, manifest_dir: Seq<char>)
    requires
        is_number_text(m.form.server_port),
        is_number_text(m.form.micro_batch),
    ensures
        is_number_text(m.on_key(press, manifest_dir).0.form.server_port),
        is_number_text(m.on_key(press, manifest_dir).0.form.micro_batch),
{
    let after = m.on_key(press, manifest_dir).0.form;
    assert forall|i: int| 0 <= i < after.server_port.len() implies is_digit(
        #[trigger] after.server_port[i],
    ) by {
        if i < m.form.server_port.len() {
            assert(is_digit(m.form.server_port[i]));
        }
    }
    assert forall|i: int| 0 <= i < after.micro_batch.len() implies is_digit(
        #[trigger] after.micro_batch[i],
    ) by {
        if i < m.form.micro_batch.len() {
            assert(is_digit(m.form.micro_batch[i]));
        }
    }
}

/// What was typed is taken back by the key that erases; what may not be typed changes nothing.
pub proof fn law_typing_can_be_taken_back(f: FormModel, c: char)
    ensures
        accepts(f.focus, c) ==> f.typed(c).erased() == f,
        !accepts(f.focus, c) ==> f.typed(c) == f,
{
    if accepts(f.focus, c) {
        let text = f.field()->0;
        assert(text.push(c).drop_last() =~= text);
    }
}

/// `f` after `n` steps down.
pub open spec fn steps_down(f: FormModel, n: nat) -> FormModel
    decreases n,
{
    if n == 0 {
        f
    } else {
        steps_down(f, (n - 1) as nat).next_field()
    }
}

/// Down and up take each other back, and there is no end to either: after as many steps down as
/// there are fields and a button, the focus is where it was.
pub proof fn law_focus_goes_round(f: FormModel)
    requires
        f.focus <= START,
    ensures
        f.next_field().previous_field() == f,
        f.previous_field().next_field() == f,
        f.next_field().focus != f.focus,
        f.next_field().focus <= START,
        steps_down(f, START as nat + 1) == f,
{
    reveal_with_fuel(steps_down, 8);
}

/// The keys that move the focus do nothing else, and no key of the form takes the focus out of it.
pub proof fn law_form_keys_keep_to_the_form(m: AppModel, key: Key, manifest_dir: Seq<char>)
    requires
        m.form.focus <= START,
    ensures
        m.on_form_key(key, manifest_dir).0.form.focus <= START,
        key is Down || key is Tab ==> m.on_form_key(key, manifest_dir) == (
            AppModel { form: FormModel { focus: m.form.next_field().focus, ..m.form }, ..m },
            FlowModel::Continue,
        ),
        key is Up ==> m.on_form_key(key, manifest_dir) == (
            AppModel { form: FormModel { focus: m.form.previous_field().focus, ..m.form }, ..m },
            FlowModel::Continue,
        ),
        m.on_form_key(Key::Down, manifest_dir).0.on_form_key(Key::Up, manifest_dir) == (
            m,
            FlowModel::Continue,
        ),
        m.on_form_key(Key::Up, manifest_dir).0.on_form_key(Key::Down, manifest_dir) == (
            m,
            FlowModel::Continue,
        ),
{
}

/// The device before the next is the same device, and so is the one a whole round further. What was said of a
/// device is forgotten with the change.
pub proof fn law_devices_go_round(m: AppModel)
    requires
        m.wf(),
        m.devices.len() <= usize::MAX,
    ensures
        m.with_next_device(1).with_next_device(-1).form == m.form,
        m.with_next_device(-1).with_next_device(1).form == m.form,
        m.with_next_device(m.devices.len() as int).form == m.form,
        m.with_next_device(1).form_error is None,
        m.with_next_device(-1).form_error is None,
{
    let n = m.devices.len() as int;
    let i = m.form.device_idx as int;
    vstd::arithmetic::div_mod::lemma_small_mod(i as nat, n as nat);
    vstd::arithmetic::div_mod::lemma_mod_add_multiples_vanish(i, n);
    assert((i + n) % n == i);
    lemma_step_round(i, n);
}

/// One step on or back among `n` places on a circle.
proof fn lemma_step_round(i: int, n: int)
    requires
        0 <= i < n,
    ensures
        (i + 1) % n == (if i + 1 == n {
            0
        } else {
            i + 1
        }),
        (i + (-1)) % n == (if i == 0 {
            n - 1
        } else {
            i - 1
        }),
        ((i + 1) % n + (-1)) % n == i,
        ((i + (-1)) % n + 1) % n == i,
{
    vstd::arithmetic::div_mod::lemma_mod_self_0(n);
    vstd::arithmetic::div_mod::lemma_small_mod(i as nat, n as nat);
    vstd::arithmetic::div_mod::lemma_small_mod((n - 1) as nat, n as nat);
    vstd::arithmetic::div_mod::lemma_mod_add_multiples_vanish(-1, n);
    if i + 1 < n {
        vstd::arithmetic::div_mod::lemma_small_mod((i + 1) as nat, n as nat);
    }
    if i > 0 {
        vstd::arithmetic::div_mod::lemma_small_mod((i - 1) as nat, n as nat);
    }
}

} // verus!
