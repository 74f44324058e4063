//! The environment of the training client, and following its build.

use std::collections::VecDeque;
use vstd::prelude::*;
use vstd::string::StringExecFns;

use super::config::{
    client_bin, root_of, sandbox_cargo_home, sandbox_of, sandbox_rustup_home, sandbox_venv,
};
use super::paths::{inside, join_path};
use crate::parse::{fields, is_all_blank, split_fields, trim, trimmed};
use crate::projection::cluster::name_view;
use crate::text::{chars_of, holds_at, views};

verus! {

broadcast use crate::text::lemma_views_push;

// Environment

/// The environment in which the client is built and run. The sandbox is preferred; what is not in it
/// comes from the system.
#[derive(Debug)]
pub struct Env {
    pub cargo: String,
    pub rustup_home: Option<String>,
    pub cargo_home: Option<String>,
    /// All directories that must be on the loader path for libtorch to be found: that of torch
    /// itself, and one for each of the CUDA packages.
    pub torch_lib_dirs: Vec<String>,
}

/// The cargo of the sandbox.
pub fn sandboxed_cargo(manifest_dir: &str) -> (r: String)
    ensures
        r@ == inside(inside(inside(sandbox_of(manifest_dir@), "cargo"@), "bin"@), "cargo"@),
{
    let bin = join_path(sandbox_cargo_home(manifest_dir).as_str(), "bin");
    join_path(bin.as_str(), "cargo")
}

/// The python of the sandbox.
pub fn sandboxed_python(manifest_dir: &str) -> (r: String)
    ensures
        r@ == inside(inside(inside(sandbox_of(manifest_dir@), "venv"@), "bin"@), "python"@),
{
    let bin = join_path(sandbox_venv(manifest_dir).as_str(), "bin");
    join_path(bin.as_str(), "python")
}

/// What of the sandbox is there.
#[derive(Debug, Clone, Copy)]
pub struct SandboxParts {
    pub cargo: bool,
    pub rustup_home: bool,
    pub cargo_home: bool,
}

impl Env {
    /// The environment, given what of the sandbox is there and where torch keeps its libraries.
    pub fn detect(manifest_dir: &str, present: SandboxParts, torch_lib_dirs: Vec<String>) -> (r: Self)
        ensures
            r.cargo@ == (if present.cargo {
                inside(inside(inside(sandbox_of(manifest_dir@), "cargo"@), "bin"@), "cargo"@)
            } else {
                "cargo"@
            }),
            name_view(r.rustup_home) == (if present.rustup_home {
                Some(inside(sandbox_of(manifest_dir@), "rustup"@))
            } else {
                None
            }),
            name_view(r.cargo_home) == (if present.cargo_home {
                Some(inside(sandbox_of(manifest_dir@), "cargo"@))
            } else {
                None
            }),
            r.torch_lib_dirs == torch_lib_dirs,
    {
        let cargo =
        if present.cargo {
            sandboxed_cargo(manifest_dir)
        } else {
            "cargo".to_string()
        };
        let rustup_home =
        if present.rustup_home {
            Some(sandbox_rustup_home(manifest_dir))
        } else {
            None
        };
        let cargo_home =
        if present.cargo_home {
            Some(sandbox_cargo_home(manifest_dir))
        } else {
            None
        };
        Env { cargo, rustup_home, cargo_home, torch_lib_dirs }
    }

    /// The variables that the client's commands are given, in order. `ld` and `dyld` are the loader
    /// paths that are in force.
    pub fn variables(&self, ld: &Option<String>, dyld: &Option<String>) -> (r: Vec<(String, String)>)
        ensures
            variables_view(r@) == env_variables(*self, name_view(*ld), name_view(*dyld)),
    {
        let mut out: Vec<(String, String)> = Vec::new();
        if let Some(h) = &self.rustup_home {
            out.push(("RUSTUP_HOME".to_string(), h.clone()));
        }
        if let Some(h) = &self.cargo_home {
            out.push(("CARGO_HOME".to_string(), h.clone()));
        }
        out.push(("LIBTORCH_USE_PYTORCH".to_string(), "1".to_string()));
        out.push(("LIBTORCH_BYPASS_VERSION_CHECK".to_string(), "1".to_string()));
        out.push(("RUST_MIN_STACK".to_string(), "268435456".to_string()));
        if self.torch_lib_dirs.len() > 0 {
            out.push(("LD_LIBRARY_PATH".to_string(), prepend_all(&self.torch_lib_dirs, ld)));
            out.push(("DYLD_LIBRARY_PATH".to_string(), prepend_all(&self.torch_lib_dirs, dyld)));
        }
        assert(variables_view(out@) =~= env_variables(*self, name_view(*ld), name_view(*dyld)));
        out
    }
}

/// Variables and their values, as characters.
pub open spec fn variables_view(s: Seq<(String, String)>) -> Seq<(Seq<char>, Seq<char>)> {
    s.map_values(|e: (String, String)| (e.0@, e.1@))
}

/// A loader path with one more directory in front.
pub open spec fn prepended(entry: Seq<char>, path: Option<Seq<char>>) -> Seq<char> {
    match path {
        Some(p) if p.len() > 0 => entry + ":"@ + p,
        _ => entry,
    }
}

/// A loader path with every one of `dirs` put in front, one after the other.
pub open spec fn loader_path(dirs: Seq<Seq<char>>, path: Option<Seq<char>>) -> Option<Seq<char>>
    decreases dirs.len(),
{
    if dirs.len() == 0 {
        path
    } else {
        Some(prepended(dirs.last(), loader_path(dirs.drop_last(), path)))
    }
}

/// One variable, where it has a value.
pub open spec fn optional_variable(name: Seq<char>, value: Option<String>) -> Seq<(Seq<char>, Seq<char>)> {
    match value {
        Some(v) => seq![(name, v@)],
        None => Seq::empty(),
    }
}

/// The variables that the client's commands are given.
pub open spec fn env_variables(env: Env, ld: Option<Seq<char>>, dyld: Option<Seq<char>>) -> Seq<
    (Seq<char>, Seq<char>),
> {
    let dirs = views(env.torch_lib_dirs@);
    optional_variable("RUSTUP_HOME"@, env.rustup_home) + optional_variable(
        "CARGO_HOME"@,
        env.cargo_home,
    ) + seq![
        ("LIBTORCH_USE_PYTORCH"@, "1"@),
        ("LIBTORCH_BYPASS_VERSION_CHECK"@, "1"@),
        ("RUST_MIN_STACK"@, "268435456"@),
    ] + (if dirs.len() > 0 {
        seq![
            ("LD_LIBRARY_PATH"@, loader_path(dirs, ld)->0),
            ("DYLD_LIBRARY_PATH"@, loader_path(dirs, dyld)->0),
        ]
    } else {
        Seq::empty()
    })
}

fn prepend_library_path(entry: &str, path: &Option<String>) -> (r: String)
    ensures
        r@ == prepended(entry@, name_view(*path)),
{
    let mut out = entry.to_string();
    if let Some(p) = path {
        if !p.as_str().is_empty() {
            out.append(":");
            out.append(p.as_str());
        }
    }
    out
}

fn prepend_all(dirs: &Vec<String>, path: &Option<String>) -> (r: String)
    requires
        dirs@.len() > 0,
    ensures
        loader_path(views(dirs@), name_view(*path)) == Some(r@),
{
    let ghost all = views(dirs@);
    let mut out: Option<String> = match path {
        Some(p) => Some(p.clone()),
        None => None,
    };
    let mut i: usize = 0;
    assert(all.take(0) =~= Seq::<Seq<char>>::empty());
    while i < dirs.len()
        invariant
            i <= dirs@.len(),
            all == views(dirs@),
            name_view(out) == loader_path(all.take(i as int), name_view(*path)),
        decreases dirs@.len() - i,
    {
        let ghost t = all.take(i as int + 1);
        assert(t.drop_last() =~= all.take(i as int));
        assert(t.last() == dirs@[i as int]@);
        out = Some(prepend_library_path(dirs[i].as_str(), &out));
        i = i + 1;
    }
    assert(all.take(i as int) =~= all);
    match out {
        Some(p) => p,
        None => String::new(),
    }
}

/// `dir` is one of the entries of a path, from the place `i` on: what is beside it is a colon, or the
/// path's end.
pub open spec fn is_entry_at(path: Seq<char>, dir: Seq<char>, i: int) -> bool {
    &&& holds_at(path, dir, i)
    &&& i == 0 || path[i - 1] == ':'
    &&& i + dir.len() == path.len() || path[i + dir.len()] == ':'
}

/// Every directory of torch is an entry of the loader path, wherever in the list it stands.
pub proof fn law_every_dir_is_on_the_loader_path(
    dirs: Seq<Seq<char>>,
    path: Option<Seq<char>>,
    k: int,
)
    requires
        0 <= k < dirs.len(),
        dirs[k].len() > 0,
    ensures
        exists|i: int| #[trigger] is_entry_at(loader_path(dirs, path)->0, dirs[k], i),
    decreases dirs.len(),
{
    reveal_strlit(":");
    let rest = dirs.drop_last();
    let whole = loader_path(dirs, path)->0;
    if k == dirs.len() - 1 {
        assert(whole.subrange(0, dirs[k].len() as int) =~= dirs[k]);
        assert(is_entry_at(whole, dirs[k], 0));
    } else {
        law_every_dir_is_on_the_loader_path(rest, path, k);
        let old = loader_path(rest, path)->0;
        let i = choose|i: int| #[trigger] is_entry_at(old, rest[k], i);
        let d = dirs.last().len() + 1;
        assert(whole =~= dirs.last() + seq![':'] + old);
        assert(whole.subrange(d + i, d + i + dirs[k].len()) =~= old.subrange(
            i,
            i + dirs[k].len(),
        ));
        assert(is_entry_at(whole, dirs[k], d + i));
    }
}

/// What is already on the loader path stays on it.
pub proof fn law_loader_path_is_kept(dirs: Seq<Seq<char>>, path: Seq<char>)
    ensures
        (loader_path(dirs, Some(path)) matches Some(p) && path.is_suffix_of(p)),
    decreases dirs.len(),
{
    if dirs.len() > 0 {
        law_loader_path_is_kept(dirs.drop_last(), path);
        let old = loader_path(dirs.drop_last(), Some(path))->0;
        let new = loader_path(dirs, Some(path))->0;
        assert(new.skip(new.len() - path.len()) =~= old.skip(old.len() - path.len()));
    }
}

// Looking for torch

/// The pythons to ask for torch, in order: that of the sandbox, then the system's.
pub fn python_candidates(
    manifest_dir: &str,
    sandboxed_present: bool,
    python3: Option<String>,
    python: Option<String>,
) -> (r: Vec<String>)
    ensures
        views(r@) == (if sandboxed_present {
            seq![inside(inside(inside(sandbox_of(manifest_dir@), "venv"@), "bin"@), "python"@)]
        } else {
            Seq::empty()
        }) + (match (python3, python) {
            (Some(p), _) => seq![p@],
            (None, Some(p)) => seq![p@],
            (None, None) => Seq::empty(),
        }),
{
    let mut out: Vec<String> = Vec::new();
    if sandboxed_present {
        out.push(sandboxed_python(manifest_dir));
    }
    assert(views(Seq::<String>::empty()) =~= Seq::<Seq<char>>::empty());
    let ghost first = views(out@);
    match python3 {
        Some(p) => {
            out.push(p);
            assert(views(out@) =~= first + seq![p@]);
        },
        None => {
            if let Some(p) = python {
                out.push(p);
                assert(views(out@) =~= first + seq![p@]);
            }
        },
    }
    assert(first =~= if sandboxed_present {
        seq![inside(inside(inside(sandbox_of(manifest_dir@), "venv"@), "bin"@), "python"@)]
    } else {
        Seq::empty()
    });
    assert(first + Seq::<Seq<char>>::empty() =~= first);
    out
}

/// The directories that a python prints, parted by colons.
pub open spec fn dirs_in(output: Seq<char>) -> Seq<Seq<char>> {
    fields(trimmed(output), ':').filter(|d: Seq<char>| d.len() > 0)
}

/// The directories that a python prints, parted by colons.
pub fn parse_torch_dirs(output: &str) -> (r: Vec<String>)
    ensures
        views(r@) == dirs_in(output@),
{
    let parts = split_fields(trim(output).as_str(), ':');
    let ghost all = views(parts@);
    let ghost keep = |d: Seq<char>| d.len() > 0;
    let mut out: Vec<String> = Vec::new();
    let mut i: usize = 0;
    reveal(Seq::filter);
    assert(views(out@) =~= all.take(0).filter(keep));
    while i < parts.len()
        invariant
            i <= parts@.len(),
            all == views(parts@),
            keep == (|d: Seq<char>| d.len() > 0),
            views(out@) == all.take(i as int).filter(keep),
        decreases parts@.len() - i,
    {
        proof {
            reveal(Seq::filter);
            let t = all.take(i as int + 1);
            assert(t.drop_last() =~= all.take(i as int));
            assert(t.last() == parts@[i as int]@);
        }
        if !parts[i].as_str().is_empty() {
            out.push(parts[i].clone());
        }
        i = i + 1;
    }
    assert(all.take(i as int) =~= all);
    out
}

/// Whether the client was built before torch was last installed, so that the two may not fit. The
/// moments are those of the two files, where they can be told.
pub fn torch_changed_since_build(client: Option<u128>, torch: Option<u128>) -> (r: bool)
    ensures
        r == (client matches Some(c) && torch matches Some(t) && t > c),
{
    match (client, torch) {
        (Some(c), Some(t)) => t > c,
        _ => false,
    }
}

/// Where torch's library lies whose age tells that of the installation.
pub fn torch_library(dirs: &Vec<String>) -> (r: Option<String>)
    ensures
        name_view(r) == (if dirs@.len() > 0 {
            Some(inside(dirs@[0]@, "libtorch.so"@))
        } else {
            None
        }),
{
    if dirs.len() > 0 {
        Some(join_path(dirs[0].as_str(), "libtorch.so"))
    } else {
        None
    }
}

/// What is said where the client is not there.
pub fn missing_client_message(manifest_dir: &str) -> (r: String)
    ensures
        r@ == "client binary not found at "@ + inside(
            inside(inside(root_of(manifest_dir@), "target"@), "release"@),
            super::config::CLIENT_BIN_NAME@,
        ) + ". The build screen should have produced it."@,
{
    let mut out = "client binary not found at ".to_string();
    out.append(client_bin(manifest_dir).as_str());
    out.append(". The build screen should have produced it.");
    out
}

// Following a build

/// How a build stands.
#[derive(Debug)]
pub enum BuildState {
    Running,
    Success,
    Failed(String),
}

/// What is shown of a build.
#[derive(Debug)]
pub struct BuildSnapshot {
    pub state: BuildState,
    /// Nanoseconds since the build began.
    pub elapsed: u64,
    /// The last lines of the output, oldest first.
    pub lines: Vec<String>,
    /// A rough measure of progress: how many crates were announced.
    pub compiles: usize,
    pub crate_name: String,
}

/// How many lines of output are kept.
pub const MAX_LINES: usize = 512;

/// How many lines of output are looked at for showing.
pub const TAIL_LINES: usize = 16;

/// What is known of a build.
#[derive(Debug)]
pub struct BuildLog {
    state: BuildState,
    lines: VecDeque<String>,
    compiles: usize,
    crate_name: String,
}

/// What is known of a build.
#[verifier::ext_equal]
pub struct BuildModel {
    pub state: BuildState,
    pub lines: Seq<Seq<char>>,
    pub compiles: usize,
    pub crate_name: Seq<char>,
}

/// How a build stands that is over.
pub open spec fn is_over(state: BuildState) -> bool {
    !(state is Running)
}

/// A line without the spaces that it begins with.
pub open spec fn unindented(line: Seq<char>) -> Seq<char>
    decreases line.len(),
{
    if line.len() > 0 && line[0] == ' ' {
        unindented(line.drop_first())
    } else {
        line
    }
}

/// A line that announces a crate, however far it is indented.
pub open spec fn announces_crate(line: Seq<char>) -> bool {
    "Compiling "@.is_prefix_of(unindented(line))
}

/// The lines that are shown: those of the last few that are not blank.
pub open spec fn shown_lines(lines: Seq<Seq<char>>) -> Seq<Seq<char>> {
    lines.skip(
        if lines.len() > TAIL_LINES {
            lines.len() - TAIL_LINES
        } else {
            0
        },
    ).filter(|l: Seq<char>| trimmed(l).len() > 0)
}

impl BuildModel {
    /// A build that has just begun.
    pub open spec fn begun(crate_name: Seq<char>) -> BuildModel {
        BuildModel { state: BuildState::Running, lines: Seq::empty(), compiles: 0, crate_name }
    }

    /// The build after one more line of output. The oldest line goes where there are too many.
    pub open spec fn after_line(self, line: Seq<char>) -> BuildModel {
        let lines = self.lines.push(line);
        BuildModel {
            lines: if lines.len() > MAX_LINES {
                lines.drop_first()
            } else {
                lines
            },
            compiles: if announces_crate(line) {
                (self.compiles + 1) as usize
            } else {
                self.compiles
            },
            ..self
        }
    }

    /// The build in another state, unless it is over and the other state is not.
    pub open spec fn in_state(self, state: BuildState) -> BuildModel {
        if is_over(self.state) && !is_over(state) {
            self
        } else {
            BuildModel { state, ..self }
        }
    }
}

impl View for BuildLog {
    type V = BuildModel;

    closed spec fn view(&self) -> BuildModel {
        BuildModel {
            state: self.state,
            lines: views(self.lines@),
            compiles: self.compiles,
            crate_name: self.crate_name@,
        }
    }
}

/// Whether a line announces a crate.
fn is_announcement(line: &str) -> (r: bool)
    ensures
        r == announces_crate(line@),
{
    let l = chars_of(line);
    let p = chars_of("Compiling ");
    let n: usize = l.len();
    let mut from: usize = 0;
    assert(l@.skip(0) =~= l@);
    while from < n && l[from] == ' '
        invariant
            from <= n == l@.len(),
            unindented(l@.skip(from as int)) == unindented(l@),
        decreases l@.len() - from,
    {
        assert(l@.skip(from as int).drop_first() =~= l@.skip(from as int + 1));
        from = from + 1;
    }
    let ghost rest = l@.skip(from as int);
    assert(unindented(l@) == rest);
    if p.len() > n - from {
        return false;
    }
    let mut i: usize = 0;
    while i < p.len()
        invariant
            from <= n == l@.len(),
            i <= p@.len() <= n - from,
            p@ == "Compiling "@,
            rest == l@.skip(from as int),
            rest == unindented(line@),
            forall|k: int| 0 <= k < i ==> p@[k] == rest[k],
        decreases p@.len() - i,
    {
        if p[i] != l[from + i] {
            assert(rest.take(p@.len() as int)[i as int] != p@[i as int]);
            return false;
        }
        i = i + 1;
    }
    assert(rest.take(p@.len() as int) =~= p@);
    true
}

impl BuildLog {
    /// A build that has just begun.
    pub fn new(crate_name: &str) -> (r: Self)
        ensures
            r@ == BuildModel::begun(crate_name@),
    {
        let r = BuildLog {
            state: BuildState::Running,
            lines: VecDeque::new(),
            compiles: 0,
            crate_name: crate_name.to_string(),
        };
        assert(views(r.lines@) =~= Seq::<Seq<char>>::empty());
        r
    }

    /// Takes in a line of output.
    pub fn push_line(&mut self, line: String)
        requires
            old(self)@.compiles < usize::MAX,
        ensures
            final(self)@ == old(self)@.after_line(line@),
    {
        if is_announcement(line.as_str()) {
            self.compiles = self.compiles + 1;
        }
        let ghost before = self.lines@;
        let ghost added = line@;
        self.lines.push_back(line);
        assert(views(self.lines@) =~= views(before).push(added));
        if self.lines.len() > MAX_LINES {
            let ghost full = self.lines@;
            self.lines.pop_front();
            assert(self.lines@ =~= full.drop_first());
            assert(views(self.lines@) =~= views(full).drop_first());
        }
    }

    /// Takes in how the build stands.
    pub fn set_state(&mut self, state: BuildState)
        ensures
            final(self)@ == old(self)@.in_state(state),
    {
        let over = match self.state {
            BuildState::Running => false,
            _ => true,
        };
        let goes_on = match state {
            BuildState::Running => true,
            _ => false,
        };
        if over && goes_on {
            return ;
        }
        self.state = state;
    }

    /// What is shown of the build, `elapsed` nanoseconds after it began.
    pub fn snapshot(&self, elapsed: u64) -> (r: BuildSnapshot)
        ensures
            r.state == self@.state,
            r.elapsed == elapsed,
            views(r.lines@) == shown_lines(self@.lines),
            r.compiles == self@.compiles,
            r.crate_name@ == self@.crate_name,
    {
        let ghost all = views(self.lines@);
        let n: usize = self.lines.len();
        let from: usize = if n > TAIL_LINES {
            n - TAIL_LINES
        } else {
            0
        };
        let ghost tail = all.skip(from as int);
        let ghost keep = |l: Seq<char>| trimmed(l).len() > 0;
        let mut out: Vec<String> = Vec::new();
        let mut i: usize = from;
        reveal(Seq::filter);
        assert(views(out@) =~= tail.take(0).filter(keep));
        while i < n
            invariant
                from <= i <= n == self.lines@.len(),
                all == views(self.lines@),
                tail == all.skip(from as int),
                keep == (|l: Seq<char>| trimmed(l).len() > 0),
                views(out@) == tail.take(i - from).filter(keep),
            decreases n - i,
        {
            proof {
                reveal(Seq::filter);
                let t = tail.take(i - from + 1);
                assert(t.drop_last() =~= tail.take(i - from));
                assert(t.last() == self.lines@[i as int]@);
            }
            let line = &self.lines[i];
            if !is_all_blank(line.as_str()) {
                out.push(line.clone());
            }
            i = i + 1;
        }
        assert(tail.take(i - from) =~= tail);
        let state = match &self.state {
            BuildState::Running => BuildState::Running,
            BuildState::Success => BuildState::Success,
            BuildState::Failed(msg) => BuildState::Failed(msg.clone()),
        };
        BuildSnapshot {
            state,
            elapsed,
            lines: out,
            compiles: self.compiles,
            crate_name: self.crate_name.clone(),
        }
    }

    /// Takes in how the build's command ended.
    pub fn finish(&mut self, outcome: BuildOutcome)
        requires
            old(self)@.compiles < usize::MAX,
        ensures
            match outcome {
                BuildOutcome::NotStarted(why) => final(self)@ == old(self)@.after_line(
                    "failed to start cargo: "@ + why@,
                ).in_state(BuildState::Failed(why)),
                BuildOutcome::Succeeded => final(self)@ == (BuildModel {
                    state: BuildState::Success,
                    ..old(self)@
                }),
                BuildOutcome::Exited(status) => {
                    &&& final(self)@ == (BuildModel { state: final(self)@.state, ..old(self)@ })
                    &&& final(self)@.state matches BuildState::Failed(msg) && msg@
                        == "cargo exited with "@ + status@
                },
                BuildOutcome::Lost(why) => final(self)@ == (BuildModel {
                    state: BuildState::Failed(why),
                    ..old(self)@
                }),
            },
    {
        match outcome {
            BuildOutcome::NotStarted(why) => {
                let mut line = "failed to start cargo: ".to_string();
                line.append(why.as_str());
                self.push_line(line);
                self.set_state(BuildState::Failed(why));
            },
            BuildOutcome::Succeeded => {
                self.set_state(BuildState::Success);
            },
            BuildOutcome::Exited(status) => {
                let mut msg = "cargo exited with ".to_string();
                msg.append(status.as_str());
                self.set_state(BuildState::Failed(msg));
            },
            BuildOutcome::Lost(why) => {
                self.set_state(BuildState::Failed(why));
            },
        }
    }
}

/// How the build's command ended.
#[derive(Debug)]
pub enum BuildOutcome {
    /// It could not be started.
    NotStarted(String),
    Succeeded,
    /// It ended with this status.
    Exited(String),
    /// Its end could not be awaited.
    Lost(String),
}

/// Output never brings a build that is over back to running, nor does anything else.
pub proof fn law_over_is_over(b: BuildModel, state: BuildState, line: Seq<char>)
    requires
        is_over(b.state),
    ensures
        is_over(b.in_state(state).state),
        b.after_line(line).state == b.state,
{
}

/// However much output there is, what is kept of it is bounded: the last lines, in their order, with
/// the newest among them. Another line changes nothing about how the build stands, and announces at
/// most one crate.
pub proof fn law_output_is_bounded(b: BuildModel, line: Seq<char>)
    requires
        b.lines.len() <= MAX_LINES,
    ensures
        b.after_line(line).lines.len() <= MAX_LINES,
        b.after_line(line).lines.last() == line,
        b.after_line(line).lines == b.lines.push(line).skip(
            if b.lines.len() < MAX_LINES {
                0
            } else {
                1
            },
        ),
        b.after_line(line).state == b.state,
        b.after_line(line).crate_name == b.crate_name,
        b.compiles < usize::MAX ==> b.compiles <= b.after_line(line).compiles <= b.compiles + 1,
{
    let lines = b.lines.push(line);
    assert(lines.skip(0) =~= lines);
    assert(lines.skip(1) =~= lines.drop_first());
}

/// Indentation does not matter: a line that begins with the word announces a crate, and so it does
/// behind any number of spaces.
pub proof fn law_indentation_does_not_matter(line: Seq<char>)
    ensures
        announces_crate(seq![' '] + line) == announces_crate(line),
        "Compiling "@.is_prefix_of(line) ==> announces_crate(line),
{
    reveal_strlit("Compiling ");
    let spaced = seq![' '] + line;
    assert(spaced[0] == ' ');
    assert(spaced.drop_first() =~= line);
    if "Compiling "@.is_prefix_of(line) {
        assert("Compiling "@[0] == 'C');
        assert(line.take("Compiling "@.len() as int)[0] == "Compiling "@[0]);
        assert(unindented(line) == line);
    }
}

/// At most as many lines are shown as are looked at, and none of them is blank.
pub proof fn law_shown_lines_are_few_and_full(lines: Seq<Seq<char>>, i: int)
    ensures
        shown_lines(lines).len() <= TAIL_LINES,
        0 <= i < shown_lines(lines).len() ==> trimmed(shown_lines(lines)[i]).len() > 0,
{
    broadcast use vstd::seq_lib::group_filter_ensures;

    let tail = lines.skip(
        if lines.len() > TAIL_LINES {
            lines.len() - TAIL_LINES
        } else {
            0
        },
    );
    let keep = |l: Seq<char>| trimmed(l).len() > 0;
    assert(shown_lines(lines) == tail.filter(keep));
    if 0 <= i < shown_lines(lines).len() {
        assert(keep(tail.filter(keep)[i]));
    }
}

// Commands

/// The arguments by which torch's bindings are cleaned, so that they are linked anew.
pub fn clean_args() -> (r: Vec<String>)
    ensures
        views(r@) == seq!["clean"@, "-p"@, "torch-sys"@],
{
    let args = vec!["clean".to_string(), "-p".to_string(), "torch-sys".to_string()];
    assert(views(args@) =~= seq!["clean"@, "-p"@, "torch-sys"@]);
    args
}

/// The arguments by which the client is built.
pub fn build_args(crate_name: &str) -> (r: Vec<String>)
    ensures
        views(r@) == seq!["build"@, "--release"@, "-p"@, crate_name@],
{
    let args = vec![
        "build".to_string(),
        "--release".to_string(),
        "-p".to_string(),
        crate_name.to_string(),
    ];
    assert(views(args@) =~= seq!["build"@, "--release"@, "-p"@, crate_name@]);
    args
}

} // verus!
