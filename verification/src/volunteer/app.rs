//! The launcher's screens as a state machine: welcome, form, identity, build, ready.
//!
//! Files, the terminal and the build lie outside. What is to be done there is said by the flow that
//! a key gives, and what came of it is taken in again.

use vstd::prelude::*;
use vstd::string::StringExecFns;

use super::config::{
    sandbox_of, slot_dir, slot_dir_of, slot_name, LaunchConfig, LaunchModel, DEFAULT_MICRO_BATCH,
    DEFAULT_RUN_ID, DEFAULT_SERVER_HOST, DEFAULT_SERVER_PORT, DEFAULT_SLOT,
};
use super::detect::{
    best_gpu_vram_mib, best_memory, devices_view, gpus_view, DeviceModel, DeviceOption, Gpu,
};
use super::flow_laws::lemma_in_slot_dir;
use super::paths::{inside, join_path};
use super::prepare::{BuildSnapshot, BuildState};
use super::requirements::{
    meets_minimum, recommended_micro_batch, suitable_micro_batch, MIN_VRAM_MIB,
};
use crate::keys::{Key, KeyPress};
use crate::parse::{is_all_blank, is_digit, number_in, parse_number, trimmed};
use crate::projection::cluster::name_view;
use crate::text::{chars_of, decimal, decimal_text, fill, filled, text_of, views};

verus! {

/// A screen of the launcher.
#[derive(Debug, Clone, Copy, PartialEq, Eq, Structural)]
pub enum Screen {
    Welcome,
    Form,
    Identity,
    Build,
    Ready,
    Error,
}

/// What a key leads to.
#[derive(Debug)]
pub enum Flow {
    Continue,
    Quit,
    /// See to it that there is an identity key here.
    EnsureIdentity { path: String },
    /// Find out whether the client can be used as it is.
    InspectClient,
    /// Hand over to the client.
    Launch(LaunchConfig),
}

/// What a key leads to, as characters.
#[verifier::ext_equal]
pub enum FlowModel {
    Continue,
    Quit,
    EnsureIdentity { path: Seq<char> },
    InspectClient,
    Launch(LaunchModel),
}

impl View for Flow {
    type V = FlowModel;

    open spec fn view(&self) -> FlowModel {
        match self {
            Flow::Continue => FlowModel::Continue,
            Flow::Quit => FlowModel::Quit,
            Flow::EnsureIdentity { path } => FlowModel::EnsureIdentity { path: path@ },
            Flow::InspectClient => FlowModel::InspectClient,
            Flow::Launch(cfg) => FlowModel::Launch(cfg@),
        }
    }
}

/// The place of the start button among the fields.
pub const START: usize = 6;

/// The place of the device among the fields.
pub const DEVICE: usize = 4;

/// The form.
#[derive(Debug)]
pub struct Form {
    pub run_id: String,
    pub server_host: String,
    pub server_port: String,
    pub slot: String,
    pub micro_batch: String,
    pub device_idx: usize,
    /// The field that is typed into, or the start button.
    pub focus: usize,
}

/// The form, as characters.
#[verifier::ext_equal]
pub struct FormModel {
    pub run_id: Seq<char>,
    pub server_host: Seq<char>,
    pub server_port: Seq<char>,
    pub slot: Seq<char>,
    pub micro_batch: Seq<char>,
    pub device_idx: usize,
    pub focus: usize,
}

impl View for Form {
    type V = FormModel;

    open spec fn view(&self) -> FormModel {
        FormModel {
            run_id: self.run_id@,
            server_host: self.server_host@,
            server_port: self.server_port@,
            slot: self.slot@,
            micro_batch: self.micro_batch@,
            device_idx: self.device_idx,
            focus: self.focus,
        }
    }
}

/// The launcher.
#[derive(Debug)]
pub struct App {
    pub screen: Screen,
    pub frame: u64,
    pub host_summary: String,
    pub devices: Vec<DeviceOption>,
    pub form: Form,
    pub identity_path: Option<String>,
    pub identity_created: Option<bool>,
    pub identity_error: Option<String>,
    /// What was last seen of the build, if there is one.
    pub build: Option<BuildSnapshot>,
    /// Nanoseconds that the build has taken.
    pub build_elapsed: u64,
    pub build_failed_msg: String,
    pub launch: Option<LaunchConfig>,
    pub form_error: Option<String>,
}

/// The launcher, as characters.
#[verifier::ext_equal]
pub struct AppModel {
    pub screen: Screen,
    pub frame: u64,
    pub host_summary: Seq<char>,
    pub devices: Seq<DeviceModel>,
    pub form: FormModel,
    pub identity_path: Option<Seq<char>>,
    pub identity_created: Option<bool>,
    pub identity_error: Option<Seq<char>>,
    pub build: Option<BuildSnapshot>,
    pub build_elapsed: u64,
    pub build_failed_msg: Seq<char>,
    pub launch: Option<LaunchModel>,
    pub form_error: Option<Seq<char>>,
}

impl View for App {
    type V = AppModel;

    open spec fn view(&self) -> AppModel {
        AppModel {
            screen: self.screen,
            frame: self.frame,
            host_summary: self.host_summary@,
            devices: devices_view(self.devices@),
            form: self.form@,
            identity_path: name_view(self.identity_path),
            identity_created: self.identity_created,
            identity_error: name_view(self.identity_error),
            build: self.build,
            build_elapsed: self.build_elapsed,
            build_failed_msg: self.build_failed_msg@,
            launch: match self.launch {
                Some(cfg) => Some(cfg@),
                None => None,
            },
            form_error: name_view(self.form_error),
        }
    }
}

// What may be typed

/// A letter or a digit.
pub open spec fn is_alphanumeric(c: char) -> bool {
    ('a' <= c <= 'z') || ('A' <= c <= 'Z') || is_digit(c)
}

/// What may be typed into a field: digits for the port and the micro-batch, names elsewhere.
pub open spec fn accepts(focus: usize, c: char) -> bool {
    if focus == 2 || focus == 5 {
        is_digit(c)
    } else if focus == 0 || focus == 3 {
        is_alphanumeric(c) || c == '-' || c == '_' || c == '.'
    } else if focus == 1 {
        is_alphanumeric(c) || c == '-' || c == '.'
    } else {
        false
    }
}

impl FormModel {
    /// The text of the field that is typed into, if it is one.
    pub open spec fn field(self) -> Option<Seq<char>> {
        if self.focus == 0 {
            Some(self.run_id)
        } else if self.focus == 1 {
            Some(self.server_host)
        } else if self.focus == 2 {
            Some(self.server_port)
        } else if self.focus == 3 {
            Some(self.slot)
        } else if self.focus == 5 {
            Some(self.micro_batch)
        } else {
            None
        }
    }

    /// The form with another text in the field that is typed into.
    pub open spec fn with_field(self, text: Seq<char>) -> FormModel {
        if self.focus == 0 {
            FormModel { run_id: text, ..self }
        } else if self.focus == 1 {
            FormModel { server_host: text, ..self }
        } else if self.focus == 2 {
            FormModel { server_port: text, ..self }
        } else if self.focus == 3 {
            FormModel { slot: text, ..self }
        } else if self.focus == 5 {
            FormModel { micro_batch: text, ..self }
        } else {
            self
        }
    }

    /// The form after a character was typed.
    pub open spec fn typed(self, c: char) -> FormModel {
        match self.field() {
            Some(text) if accepts(self.focus, c) => self.with_field(text.push(c)),
            _ => self,
        }
    }

    /// The form after the last character was taken back.
    pub open spec fn erased(self) -> FormModel {
        match self.field() {
            Some(text) if text.len() > 0 => self.with_field(text.drop_last()),
            _ => self,
        }
    }

    /// The form one field further, or at its beginning again.
    pub open spec fn next_field(self) -> FormModel {
        FormModel {
            focus: if self.focus >= START {
                0
            } else {
                (self.focus + 1) as usize
            },
            ..self
        }
    }

    /// The form one field back, or at its end again.
    pub open spec fn previous_field(self) -> FormModel {
        FormModel {
            focus: if self.focus == 0 {
                START
            } else {
                (self.focus - 1) as usize
            },
            ..self
        }
    }
}

/// What is said of a device with too little memory.
pub const TOO_SMALL_TEMPLATE: &'static str =
    "{} ({} MiB) is below the {} MiB minimum — choose another device.";

/// What is said of a device with too little memory.
pub open spec fn too_small_message(d: DeviceModel) -> Seq<char> {
    filled(
        TOO_SMALL_TEMPLATE@,
        seq![
            d.value,
            decimal(
                match d.vram_mib {
                    Some(m) => m as nat,
                    None => 0,
                },
            ),
            decimal(MIN_VRAM_MIB as nat),
        ],
    )
}

/// The device has enough memory, or it is not known how much it has.
pub open spec fn has_memory(d: DeviceModel) -> bool {
    d.vram_mib matches Some(m) ==> m >= MIN_VRAM_MIB
}

/// The form can be started from: a run and a server are named, the port and the micro-batch are
/// numbers.
pub open spec fn is_complete(f: FormModel) -> bool {
    &&& trimmed(f.run_id).len() > 0
    &&& trimmed(f.server_host).len() > 0
    &&& number_in(f.server_port, u16::MAX as nat) is Some
    &&& number_in(f.micro_batch, usize::MAX as nat) is Some
}

/// Where the identity key of the form's slot lies.
pub open spec fn identity_of(manifest_dir: Seq<char>, f: FormModel) -> Seq<char> {
    inside(slot_dir_of(manifest_dir, f.slot), "identity.key"@)
}

/// What is known of the client.
#[derive(Debug, Clone, Copy, PartialEq, Eq, Structural)]
pub struct ClientFacts {
    pub exists: bool,
    pub runs: bool,
    pub torch_changed: bool,
}

impl AppModel {
    /// The device is one of those there are, and the focus on a field or the button.
    pub open spec fn wf(self) -> bool {
        self.form.device_idx < self.devices.len() && self.form.focus <= START
    }

    /// The chosen device.
    pub open spec fn device(self) -> DeviceModel {
        self.devices[self.form.device_idx as int]
    }

    /// The launcher with a device further on or back in the list, without an end.
    pub open spec fn with_next_device(self, dir: int) -> AppModel {
        if self.devices.len() == 0 {
            self
        } else {
            AppModel {
                form: FormModel {
                    device_idx: ((self.form.device_idx + dir) % self.devices.len() as int) as usize,
                    ..self.form
                },
                form_error: None,
                ..self
            }
        }
    }

    /// The start button was pressed: what is said about the device, and what follows.
    pub open spec fn started(self, manifest_dir: Seq<char>) -> (AppModel, FlowModel) {
        if !has_memory(self.device()) {
            (
                AppModel { form_error: Some(too_small_message(self.device())), ..self },
                FlowModel::Continue,
            )
        } else {
            let m = AppModel { form_error: None, ..self };
            if is_complete(self.form) {
                (m, FlowModel::EnsureIdentity { path: identity_of(manifest_dir, self.form) })
            } else {
                (m, FlowModel::Continue)
            }
        }
    }

    /// A key in the form.
    pub open spec fn on_form_key(self, key: Key, manifest_dir: Seq<char>) -> (AppModel, FlowModel) {
        match key {
            Key::Down | Key::Tab => (
                AppModel { form: self.form.next_field(), ..self },
                FlowModel::Continue,
            ),
            Key::Up => (AppModel { form: self.form.previous_field(), ..self }, FlowModel::Continue),
            Key::Enter => if self.form.focus == START {
                self.started(manifest_dir)
            } else {
                (AppModel { form: self.form.next_field(), ..self }, FlowModel::Continue)
            },
            Key::Esc => (self, FlowModel::Quit),
            Key::Left => (
                if self.form.focus == DEVICE {
                    self.with_next_device(-1)
                } else {
                    self
                },
                FlowModel::Continue,
            ),
            Key::Right => (
                if self.form.focus == DEVICE {
                    self.with_next_device(1)
                } else {
                    self
                },
                FlowModel::Continue,
            ),
            Key::Backspace => (AppModel { form: self.form.erased(), ..self }, FlowModel::Continue),
            Key::Char(c) => if c == 'q' && self.form.focus == START {
                (self, FlowModel::Quit)
            } else {
                (AppModel { form: self.form.typed(c), ..self }, FlowModel::Continue)
            },
            Key::Other => (self, FlowModel::Continue),
        }
    }

    /// The launcher with the build forgotten.
    pub open spec fn without_build(self) -> AppModel {
        AppModel { build: None, build_failed_msg: Seq::empty(), build_elapsed: 0, ..self }
    }

    /// What is handed to the client, with `port` as its server's.
    pub open spec fn settled(self, manifest_dir: Seq<char>, port: nat) -> LaunchModel {
        let slot = slot_dir_of(manifest_dir, self.form.slot);
        LaunchModel {
            run_id: self.form.run_id,
            server_addr: self.form.server_host + ":"@ + decimal(port),
            device: if self.form.device_idx < self.devices.len() {
                self.device().value
            } else {
                "auto"@
            },
            micro_batch_size: self.form.micro_batch,
            identity_key: match self.identity_path {
                Some(p) => p,
                None => inside(slot, "identity.key"@),
            },
            log_file: inside(inside(slot, "logs"@), "client.log"@),
        }
    }

    /// The launch was confirmed.
    pub open spec fn confirmed(self, manifest_dir: Seq<char>) -> (AppModel, FlowModel) {
        match number_in(self.form.server_port, u16::MAX as nat) {
            Some(port) => {
                let cfg = self.settled(manifest_dir, port);
                (AppModel { launch: Some(cfg), ..self }, FlowModel::Launch(cfg))
            },
            None => (self, FlowModel::Continue),
        }
    }

    /// A key, on whatever screen.
    pub open spec fn on_key(self, press: KeyPress, manifest_dir: Seq<char>) -> (AppModel, FlowModel) {
        let stay = (self, FlowModel::Continue);
        let quit = (self, FlowModel::Quit);
        if press.control && press.key == Key::Char('c') {
            quit
        } else {
            match self.screen {
                Screen::Welcome => match press.key {
                    Key::Enter | Key::Right | Key::Tab => (
                        AppModel { screen: Screen::Form, ..self },
                        FlowModel::Continue,
                    ),
                    Key::Char('q') | Key::Esc => quit,
                    _ => stay,
                },
                Screen::Form => self.on_form_key(press.key, manifest_dir),
                Screen::Identity => match press.key {
                    Key::Enter | Key::Tab => (self.without_build(), FlowModel::InspectClient),
                    Key::Char('b') | Key::Left | Key::Esc => (
                        AppModel { screen: Screen::Form, ..self },
                        FlowModel::Continue,
                    ),
                    Key::Char('q') => quit,
                    _ => stay,
                },
                Screen::Build => match press.key {
                    Key::Char('q') | Key::Esc => quit,
                    _ => stay,
                },
                Screen::Ready => match press.key {
                    Key::Enter => self.confirmed(manifest_dir),
                    Key::Char('q') | Key::Esc => quit,
                    _ => stay,
                },
                Screen::Error => match press.key {
                    Key::Char('r') => (self.without_build(), FlowModel::InspectClient),
                    Key::Char('q') | Key::Esc => quit,
                    _ => stay,
                },
            }
        }
    }

    /// It was seen to that there is an identity key, or not.
    pub open spec fn with_identity(self, path: Seq<char>, outcome: Result<bool, Seq<char>>) -> AppModel {
        match outcome {
            Ok(created) => AppModel {
                identity_path: Some(path),
                identity_created: Some(created),
                identity_error: None,
                screen: Screen::Identity,
                ..self
            },
            Err(why) => AppModel { identity_error: Some(why), ..self },
        }
    }

    /// The client was looked at: it is used as it is where it is there, runs and fits torch; else it
    /// is built.
    pub open spec fn with_client(self, facts: ClientFacts) -> AppModel {
        AppModel {
            screen: if facts.exists && facts.runs && !facts.torch_changed {
                Screen::Ready
            } else {
                Screen::Build
            },
            ..self
        }
    }

    /// The build was looked at. One that succeeded leads on where the client runs.
    pub open spec fn with_build(self, snap: BuildSnapshot, client_runs: bool) -> AppModel {
        if self.screen != Screen::Build {
            self
        } else {
            let seen = AppModel { build: Some(snap), build_elapsed: snap.elapsed, ..self };
            match snap.state {
                BuildState::Success => if client_runs {
                    AppModel { screen: Screen::Ready, ..seen }
                } else {
                    AppModel {
                        build_failed_msg:
                            "build finished but the binary still fails to load libtorch"@,
                        screen: Screen::Error,
                        ..seen
                    }
                },
                BuildState::Failed(msg) => AppModel {
                    build_failed_msg: msg@,
                    screen: Screen::Error,
                    ..seen
                },
                BuildState::Running => seen,
            }
        }
    }
}

/// The micro-batch that the form begins with: what suits the best card, where that is known.
pub open spec fn first_micro_batch(best: Option<u32>) -> Seq<char> {
    match best {
        Some(mib) if mib >= MIN_VRAM_MIB => decimal(suitable_micro_batch(mib) as nat),
        _ => DEFAULT_MICRO_BATCH@,
    }
}

/// The launcher before anything happened.
pub open spec fn first_screen(
    host_summary: Seq<char>,
    devices: Seq<DeviceModel>,
    best: Option<u32>,
) -> AppModel {
    AppModel {
        screen: Screen::Welcome,
        frame: 0,
        host_summary,
        devices,
        form: FormModel {
            run_id: DEFAULT_RUN_ID@,
            server_host: DEFAULT_SERVER_HOST@,
            server_port: DEFAULT_SERVER_PORT@,
            slot: DEFAULT_SLOT@,
            micro_batch: first_micro_batch(best),
            device_idx: 0,
            focus: 0,
        },
        identity_path: None,
        identity_created: None,
        identity_error: None,
        build: None,
        build_elapsed: 0,
        build_failed_msg: Seq::empty(),
        launch: None,
        form_error: None,
    }
}

fn without_last(text: &String) -> (r: String)
    requires
        text@.len() > 0,
    ensures
        r@ == text@.drop_last(),
{
    let chars = chars_of(text.as_str());
    let r = text_of(&chars, 0, chars.len() - 1);
    assert(chars@.subrange(0, chars@.len() - 1) =~= text@.drop_last());
    r
}

impl App {
    /// The launcher before anything happened, on a machine with the given cards.
    pub fn new(host_summary: String, devices: Vec<DeviceOption>, gpus: &Vec<Gpu>) -> (r: Self)
        ensures
            r@ == first_screen(
                host_summary@,
                devices_view(devices@),
                best_memory(gpus_view(gpus@)),
            ),
    {
        let micro_batch = match recommended_micro_batch(best_gpu_vram_mib(gpus)) {
            Some(n) => decimal_text(n as u64),
            None => DEFAULT_MICRO_BATCH.to_string(),
        };
        App {
            screen: Screen::Welcome,
            frame: 0,
            host_summary,
            devices,
            form: Form {
                run_id: DEFAULT_RUN_ID.to_string(),
                server_host: DEFAULT_SERVER_HOST.to_string(),
                server_port: DEFAULT_SERVER_PORT.to_string(),
                slot: DEFAULT_SLOT.to_string(),
                micro_batch,
                device_idx: 0,
                focus: 0,
            },
            identity_path: None,
            identity_created: None,
            identity_error: None,
            build: None,
            build_elapsed: 0,
            build_failed_msg: String::new(),
            launch: None,
            form_error: None,
        }
    }

    /// Another frame is due; after the last comes the first.
    pub fn tick(&mut self)
        ensures
            final(self)@ == (AppModel {
                frame: if old(self)@.frame == u64::MAX {
                    0
                } else {
                    (old(self)@.frame + 1) as u64
                },
                ..old(self)@
            }),
    {
        self.frame = self.frame.wrapping_add(1);
    }

    /// Takes in what is seen of the build. `client_runs` matters only where it succeeded.
    pub fn auto_advance(&mut self, snap: BuildSnapshot, client_runs: bool)
        ensures
            final(self)@ == old(self)@.with_build(snap, client_runs),
    {
        if self.screen != Screen::Build {
            return ;
        }
        self.build_elapsed = snap.elapsed;
        match &snap.state {
            BuildState::Success => {
                if client_runs {
                    self.screen = Screen::Ready;
                } else {
                    self.build_failed_msg =
                    "build finished but the binary still fails to load libtorch".to_string();
                    self.screen = Screen::Error;
                }
            },
            BuildState::Failed(msg) => {
                self.build_failed_msg = msg.clone();
                self.screen = Screen::Error;
            },
            BuildState::Running => {},
        }
        self.build = Some(snap);
    }

    /// Access to the text of the field that is typed into, if it is one.
    pub fn text_field_mut(&mut self) -> (r: Option<&mut String>)
        ensures
            match r {
                Some(s) => {
                    &&& old(self)@.form.field() == Some(s@)
                    &&& final(self)@ == (AppModel {
                        form: old(self)@.form.with_field(final(s)@),
                        ..old(self)@
                    })
                },
                None => old(self)@.form.field() is None && final(self)@ == old(self)@,
            },
    {
        match self.form.focus {
            0 => Some(&mut self.form.run_id),
            1 => Some(&mut self.form.server_host),
            2 => Some(&mut self.form.server_port),
            3 => Some(&mut self.form.slot),
            5 => Some(&mut self.form.micro_batch),
            _ => None,
        }
    }

    /// Whether a character may be typed into the field that is typed into.
    pub fn accept_char(&self, c: char) -> (r: bool)
        ensures
            r == accepts(self@.form.focus, c),
    {
        let digit = '0' <= c && c <= '9';
        let alphanumeric = ('a' <= c && c <= 'z') || ('A' <= c && c <= 'Z') || digit;
        match self.form.focus {
            2 | 5 => digit,
            0 | 3 => alphanumeric || c == '-' || c == '_' || c == '.',
            1 => alphanumeric || c == '-' || c == '.',
            _ => false,
        }
    }

    /// Chooses a device further on or back in the list, without an end. What was said of the device
    /// chosen before is forgotten.
    pub fn cycle_device(&mut self, dir: i32)
        ensures
            final(self)@ == old(self)@.with_next_device(dir as int),
    {
        let n: usize = self.devices.len();
        if n == 0 {
            return ;
        }
        let sum: i128 = self.form.device_idx as i128 + dir as i128;
        let m: i128 = n as i128;
        let next: i128 = if sum >= 0 {
            sum % m
        } else {
            let back: i128 = (-sum) % m;
            if back == 0 {
                0
            } else {
                m - back
            }
        };
        proof {
            if sum < 0 {
                lemma_negative_mod(sum as int, m as int);
            }
        }
        self.form.device_idx = next as usize;
        self.form_error = None;
    }

    /// The start button was pressed.
    fn proceed_to_identity(&mut self, manifest_dir: &str) -> (r: Flow)
        requires
            old(self)@.wf(),
        ensures
            (final(self)@, r@) == old(self)@.started(manifest_dir@),
    {
        let idx: usize = self.form.device_idx;
        let ghost dev = old(self)@.device();
        assert(dev == self.devices@[idx as int]@);
        let vram: Option<u32> = self.devices[idx].vram_mib;
        if !meets_minimum(vram) {
            let mib: u32 = match vram {
                Some(m) => m,
                None => 0,
            };
            let fields = vec![
                self.devices[idx].value.clone(),
                decimal_text(mib as u64),
                decimal_text(MIN_VRAM_MIB as u64),
            ];
            self.form_error = Some(fill(TOO_SMALL_TEMPLATE, &fields));
            assert(views(fields@) == seq![
                dev.value,
                decimal(
                    match dev.vram_mib {
                        Some(m) => m as nat,
                        None => 0,
                    },
                ),
                decimal(MIN_VRAM_MIB as nat),
            ]);
            assert(too_small_message(dev) == filled(TOO_SMALL_TEMPLATE@, views(fields@)));
            return Flow::Continue;
        }
        self.form_error = None;
        if is_all_blank(self.form.run_id.as_str()) {
            return Flow::Continue;
        }
        if is_all_blank(self.form.server_host.as_str()) {
            return Flow::Continue;
        }
        if parse_number(self.form.server_port.as_str(), u16::MAX as u64).is_none() {
            return Flow::Continue;
        }
        if parse_number(self.form.micro_batch.as_str(), usize::MAX as u64).is_none() {
            return Flow::Continue;
        }
        let slot = slot_dir(manifest_dir, self.form.slot.as_str());
        Flow::EnsureIdentity { path: join_path(slot.as_str(), "identity.key") }
    }

    /// Takes in whether there is an identity key now, and whether it is a new one.
    pub fn identity_ensured(&mut self, path: String, outcome: Result<bool, String>)
        ensures
            final(self)@ == old(self)@.with_identity(
                path@,
                match outcome {
                    Ok(created) => Ok::<bool, Seq<char>>(created),
                    Err(why) => Err(why@),
                },
            ),
    {
        match outcome {
            Ok(created) => {
                self.identity_path = Some(path);
                self.identity_created = Some(created);
                self.identity_error = None;
                self.screen = Screen::Identity;
            },
            Err(why) => {
                self.identity_error = Some(why);
            },
        }
    }

    /// Takes in what is known of the client. Says whether a build is to be started, and if so
    /// whether torch's bindings are to be linked anew.
    pub fn begin_build(&mut self, facts: ClientFacts) -> (r: Option<bool>)
        ensures
            final(self)@ == old(self)@.with_client(facts),
            r == (if facts.exists && facts.runs && !facts.torch_changed {
                None
            } else {
                Some(facts.exists)
            }),
    {
        if facts.exists && facts.runs && !facts.torch_changed {
            self.screen = Screen::Ready;
            return None;
        }
        self.screen = Screen::Build;
        Some(facts.exists)
    }

    fn forget_build(&mut self)
        ensures
            final(self)@ == old(self)@.without_build(),
    {
        self.build = None;
        self.build_failed_msg = String::new();
        self.build_elapsed = 0;
    }

    /// The launch was confirmed.
    fn finalize_launch(&mut self, manifest_dir: &str) -> (r: Flow)
        ensures
            (final(self)@, r@) == old(self)@.confirmed(manifest_dir@),
    {
        let port: u64 = match parse_number(self.form.server_port.as_str(), u16::MAX as u64) {
            Some(p) => p,
            None => {
                return Flow::Continue;
            },
        };
        let slot = slot_dir(manifest_dir, self.form.slot.as_str());
        let identity_key = match &self.identity_path {
            Some(p) => p.clone(),
            None => join_path(slot.as_str(), "identity.key"),
        };
        let log_dir = join_path(slot.as_str(), "logs");
        let log_file = join_path(log_dir.as_str(), "client.log");
        let device =
        if self.form.device_idx < self.devices.len() {
            assert(devices_view(self.devices@)[self.form.device_idx as int]
                == self.devices@[self.form.device_idx as int]@);
            self.devices[self.form.device_idx].value.clone()
        } else {
            "auto".to_string()
        };
        let mut server_addr = self.form.server_host.clone();
        server_addr.append(":");
        server_addr.append(decimal_text(port).as_str());
        let cfg = LaunchConfig {
            run_id: self.form.run_id.clone(),
            server_addr,
            device,
            micro_batch_size: self.form.micro_batch.clone(),
            identity_key,
            log_file,
        };
        self.launch = Some(cfg.clone());
        Flow::Launch(cfg)
    }

    /// Takes in a key in the form, and says what it leads to.
    pub fn handle_form_key(&mut self, key: Key, manifest_dir: &str) -> (r: Flow)
        requires
            old(self)@.wf(),
        ensures
            (final(self)@, r@) == old(self)@.on_form_key(key, manifest_dir@),
    {
        match key {
            Key::Down | Key::Tab => {
                self.form.focus =
                if self.form.focus == START {
                    0
                } else {
                    self.form.focus + 1
                };
            },
            Key::Up => {
                self.form.focus =
                if self.form.focus == 0 {
                    START
                } else {
                    self.form.focus - 1
                };
            },
            Key::Enter => {
                if self.form.focus == START {
                    return self.proceed_to_identity(manifest_dir);
                }
                self.form.focus = self.form.focus + 1;
            },
            Key::Esc => {
                return Flow::Quit;
            },
            Key::Left => {
                if self.form.focus == DEVICE {
                    self.cycle_device(-1);
                }
            },
            Key::Right => {
                if self.form.focus == DEVICE {
                    self.cycle_device(1);
                }
            },
            Key::Backspace => {
                if let Some(s) = self.text_field_mut() {
                    if !s.as_str().is_empty() {
                        *s = without_last(s);
                    }
                }
            },
            Key::Char(c) => {
                if c == 'q' && self.form.focus == START {
                    return Flow::Quit;
                }
                if self.accept_char(c) {
                    if let Some(s) = self.text_field_mut() {
                        s.push(c);
                    }
                }
            },
            Key::Other => {},
        }
        Flow::Continue
    }

    /// Takes in a key.
    pub fn handle_key(&mut self, press: KeyPress, manifest_dir: &str) -> (r: Flow)
        requires
            old(self)@.wf(),
        ensures
            (final(self)@, r@) == old(self)@.on_key(press, manifest_dir@),
            r matches Flow::EnsureIdentity { path } ==> path@ == sandbox_of(manifest_dir@) + "/clients/"@
                + slot_name(old(self)@.form.slot) + "/identity.key"@,
            r matches Flow::Launch(cfg) ==> cfg.log_file@ == sandbox_of(manifest_dir@) + "/clients/"@
                + slot_name(old(self)@.form.slot) + "/logs/client.log"@,
    {
        proof {
            lemma_in_slot_dir(manifest_dir@, self.form.slot@);
        }
        if press.control && press.key == Key::Char('c') {
            return Flow::Quit;
        }
        match self.screen {
            Screen::Welcome => match press.key {
                Key::Enter | Key::Right | Key::Tab => {
                    self.screen = Screen::Form;
                },
                Key::Char('q') | Key::Esc => {
                    return Flow::Quit;
                },
                _ => {},
            },
            Screen::Form => {
                return self.handle_form_key(press.key, manifest_dir);
            },
            Screen::Identity => match press.key {
                Key::Enter | Key::Tab => {
                    self.forget_build();
                    return Flow::InspectClient;
                },
                Key::Char('b') | Key::Left | Key::Esc => {
                    self.screen = Screen::Form;
                },
                Key::Char('q') => {
                    return Flow::Quit;
                },
                _ => {},
            },
            Screen::Build => match press.key {
                Key::Char('q') | Key::Esc => {
                    return Flow::Quit;
                },
                _ => {},
            },
            Screen::Ready => match press.key {
                Key::Enter => {
                    return self.finalize_launch(manifest_dir);
                },
                Key::Char('q') | Key::Esc => {
                    return Flow::Quit;
                },
                _ => {},
            },
            Screen::Error => match press.key {
                Key::Char('r') => {
                    self.forget_build();
                    return Flow::InspectClient;
                },
                Key::Char('q') | Key::Esc => {
                    return Flow::Quit;
                },
                _ => {},
            },
        }
        Flow::Continue
    }
}

/// The remainder of a negative number.
proof fn lemma_negative_mod(a: int, m: int)
    requires
        a < 0,
        m > 0,
    ensures
        a % m == (if (-a) % m == 0 {
            0
        } else {
            m - (-a) % m
        }),
{
    let q = (-a) / m;
    let r = (-a) % m;
    vstd::arithmetic::div_mod::lemma_fundamental_div_mod(-a, m);
    if r == 0 {
        assert(a == (-q) * m + 0) by (nonlinear_arith)
            requires
                -a == m * q + r,
                r == 0,
        ;
        vstd::arithmetic::div_mod::lemma_fundamental_div_mod_converse(a, m, -q, 0);
    } else {
        assert(a == (-q - 1) * m + (m - r)) by (nonlinear_arith)
            requires
                -a == m * q + r,
        ;
        vstd::arithmetic::div_mod::lemma_fundamental_div_mod_converse(a, m, -q - 1, m - r);
    }
}

} // verus!
