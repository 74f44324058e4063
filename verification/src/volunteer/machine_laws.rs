//! What is found out about a volunteer's machine, and what a build on it is given and told of.

use vstd::prelude::*;

use super::detect::{
    device_options, devices_view, gpu_of, gpus_in, gpus_view, is_arm, os_label, summary, DeviceOption,
    Gpu, GpuModel,
};
use super::paths::inside;
use super::prepare::{
    announces_crate, dirs_in, env_variables, loader_path, shown_lines, unindented, BuildModel,
    BuildState, Env,
};
use super::requirements::suitable_micro_batch;
use crate::parse::{fields, law_decimals_are_read_back, number_in, trimmed};
use crate::parse_laws::{
    law_decimals_are_digits, law_fields_are_what_separators_part, law_fields_begin_with_the_first,
};
use crate::text::{decimal, repeated, views};

verus! {

// Cards and devices

proof fn lemma_no_comma(n: nat)
    ensures
        !decimal(n).contains(','),
{
    if decimal(n).contains(',') {
        let i = choose|i: int| 0 <= i < decimal(n).len() && decimal(n)[i] == ',';
        law_decimals_are_digits(n, i);
    }
}

/// A line that names an index, a name and an amount of memory tells of that card; without the amount
/// it tells of a card whose memory is not known; and a line without a name tells of none.
pub proof fn law_lines_tell_of_cards(index: u32, name: Seq<char>, memory: u32)
    requires
        !name.contains(','),
    ensures
        gpu_of(
            decimal(index as nat) + seq![','] + (name + seq![','] + decimal(memory as nat)),
        ) matches Some(g) && g.index == index && g.name == trimmed(name) && g.vram_mib == Some(memory),
        gpu_of(decimal(index as nat) + seq![','] + name) matches Some(g) && g.index == index && g.name
            == trimmed(name) && g.vram_mib is None,
        gpu_of(decimal(index as nat)) is None,
        !name.contains(',') && number_in(trimmed(name), u32::MAX as nat) is None ==> gpu_of(
            name + seq![','] + decimal(index as nat),
        ) is None,
{
    let i = decimal(index as nat);
    let m = decimal(memory as nat);
    lemma_no_comma(index as nat);
    lemma_no_comma(memory as nat);
    law_decimals_are_digits(index as nat, 0);
    law_decimals_are_digits(memory as nat, 0);
    law_decimals_are_read_back(index as nat, u32::MAX as nat);
    law_decimals_are_read_back(memory as nat, u32::MAX as nat);
    let rest = name + seq![','] + m;
    law_fields_begin_with_the_first(i, rest, ',');
    law_fields_begin_with_the_first(name, m, ',');
    law_fields_begin_with_the_first(m, Seq::empty(), ',');
    let full = fields(i + seq![','] + rest, ',');
    assert(full =~= seq![i, name, m]);
    law_fields_begin_with_the_first(i, name, ',');
    let short = fields(i + seq![','] + name, ',');
    assert(short =~= seq![i, name]);
    assert(fields(i, ',') =~= seq![i]);
    law_fields_begin_with_the_first(name, i, ',');
    assert(fields(name + seq![','] + i, ',') =~= seq![name, i]);
}

/// The cards of a list of lines are those that each of its lines tells of, in order.
pub proof fn law_cards_are_found_line_by_line(s: Seq<Seq<char>>, line: Seq<char>)
    ensures
        gpus_in(Seq::empty()) == Seq::<GpuModel>::empty(),
        gpu_of(line) matches Some(g) ==> gpus_in(s.push(line)) == gpus_in(s).push(g),
        gpu_of(line) is None ==> gpus_in(s.push(line)) == gpus_in(s),
{
    assert(s.push(line).drop_last() =~= s);
}

/// The choices are, in order: to leave it to the client; where there are cards, all of them, and each
/// under its own index and name, with its own memory; Apple's where there is one; and none.
pub proof fn law_every_card_can_be_chosen(gpus: Seq<GpuModel>, apple_silicon: bool, i: int)
    ensures
        ({
            let all = device_options(gpus, apple_silicon);
            let n = gpus.len() as int;
            let cards = if n > 0 {
                n + 1
            } else {
                0
            };
            let apple = if apple_silicon {
                1int
            } else {
                0
            };
            &&& all.len() == 2 + cards + apple
            &&& all[0].value == "auto"@ && all[0].vram_mib is None
            &&& all[0].label == "Auto — let Aether choose"@ && all[0].tag == "AUTO"@
            &&& n > 0 ==> {
                &&& all[1].value == "cuda"@ && all[1].vram_mib is None
                &&& all[1].label == "All visible NVIDIA GPUs"@ && all[1].tag == "CUDA"@
            }
            &&& 0 <= i < n ==> {
                &&& all[2 + i].value == "cuda:"@ + decimal(gpus[i].index as nat)
                &&& all[2 + i].label == gpus[i].name + " (cuda:"@ + decimal(gpus[i].index as nat) + ")"@
                &&& all[2 + i].vram_mib == gpus[i].vram_mib
                &&& all[2 + i].tag == "CUDA"@
            }
            &&& apple_silicon ==> {
                &&& all[1 + cards].value == "mps"@ && all[1 + cards].vram_mib is None
                &&& all[1 + cards].label == "Apple Metal (MPS)"@ && all[1 + cards].tag == "MPS"@
            }
            &&& all.last().value == "cpu"@ && all.last().vram_mib is None
            &&& all.last().label == "CPU only"@ && all.last().tag == "CPU"@
        }),
{
}

/// A machine is described by its system, its architecture and, where it has some, its cards, or that it
/// has Apple's chip.
pub proof fn law_machines_are_described(os: Seq<char>, arch: Seq<char>, gpus: nat)
    ensures
        os_label("macos"@) == "macOS"@,
        os_label("linux"@) == "Linux"@,
        os != "macos"@ && os != "linux"@ ==> os_label(os) == os,
        is_arm(arch) <==> arch == "aarch64"@ || arch == "arm"@,
        gpus > 0 ==> summary(os, arch, gpus) == os_label(os) + " ("@ + arch + ")"@ + (" · "@ + decimal(
            gpus,
        ) + " NVIDIA GPU(s)"@),
        gpus == 0 && os == "macos"@ && is_arm(arch) ==> summary(os, arch, gpus) == "macOS"@ + " ("@
            + arch + ")"@ + " · Apple Silicon"@,
        gpus == 0 && !(os_label(os) == "macOS"@ && is_arm(arch)) ==> summary(os, arch, gpus)
            == os_label(os) + " ("@ + arch + ")"@,
{
    reveal_strlit("macos");
    reveal_strlit("linux");
    assert("macos"@[0] != "linux"@[0]);
    assert(gpus == 0 && !(os_label(os) == "macOS"@ && is_arm(arch)) ==> summary(os, arch, gpus)
        =~= os_label(os) + " ("@ + arch + ")"@);
}

/// The micro-batch that suits a card doubles at 8 and at 16 GiB, and again at 24.
pub proof fn law_micro_batches_double(mib: u32)
    ensures
        mib < 8192 ==> suitable_micro_batch(mib) == 1,
        8192 <= mib < 16384 ==> suitable_micro_batch(mib) == 2,
        16384 <= mib < 24576 ==> suitable_micro_batch(mib) == 4,
        24576 <= mib ==> suitable_micro_batch(mib) == 8,
{
}

// The environment of a build

/// The variables give `name` this value.
pub open spec fn gives(vars: Seq<(Seq<char>, Seq<char>)>, name: Seq<char>, value: Seq<char>) -> bool {
    vars.contains((name, value))
}

/// What a build is given: the homes of the sandbox where there are some, that torch is taken from
/// Python whatever its version, a large stack, and the loader path with the directories of torch, for
/// either system under its own name.
pub proof fn law_builds_are_given_their_variables(
    env: Env,
    ld: Option<Seq<char>>,
    dyld: Option<Seq<char>>,
)
    ensures
        ({
            let vars = env_variables(env, ld, dyld);
            let dirs = views(env.torch_lib_dirs@);
            &&& env.rustup_home matches Some(h) ==> gives(vars, "RUSTUP_HOME"@, h@)
            &&& env.cargo_home matches Some(h) ==> gives(vars, "CARGO_HOME"@, h@)
            &&& gives(vars, "LIBTORCH_USE_PYTORCH"@, "1"@)
            &&& gives(vars, "LIBTORCH_BYPASS_VERSION_CHECK"@, "1"@)
            &&& gives(vars, "RUST_MIN_STACK"@, "268435456"@)
            &&& dirs.len() > 0 ==> loader_path(dirs, ld) is Some && gives(
                vars,
                "LD_LIBRARY_PATH"@,
                loader_path(dirs, ld)->0,
            )
            &&& dirs.len() > 0 ==> loader_path(dirs, dyld) is Some && gives(
                vars,
                "DYLD_LIBRARY_PATH"@,
                loader_path(dirs, dyld)->0,
            )
            &&& vars.len() == 3 + (if env.rustup_home is Some {
                1int
            } else {
                0
            }) + (if env.cargo_home is Some {
                1int
            } else {
                0
            }) + (if dirs.len() > 0 {
                2int
            } else {
                0
            })
        }),
{
    let vars = env_variables(env, ld, dyld);
    let dirs = views(env.torch_lib_dirs@);
    let r = if env.rustup_home is Some {
        1int
    } else {
        0
    };
    let c = r + if env.cargo_home is Some {
        1int
    } else {
        0
    };
    if let Some(h) = env.rustup_home {
        assert(vars[0] == ("RUSTUP_HOME"@, h@));
    }
    if let Some(h) = env.cargo_home {
        assert(vars[r] == ("CARGO_HOME"@, h@));
    }
    assert(vars[c] == ("LIBTORCH_USE_PYTORCH"@, "1"@));
    assert(vars[c + 1] == ("LIBTORCH_BYPASS_VERSION_CHECK"@, "1"@));
    assert(vars[c + 2] == ("RUST_MIN_STACK"@, "268435456"@));
    if dirs.len() > 0 {
        assert(vars[c + 3] == ("LD_LIBRARY_PATH"@, loader_path(dirs, ld)->0));
        assert(vars[c + 4] == ("DYLD_LIBRARY_PATH"@, loader_path(dirs, dyld)->0));
    }
}

/// A directory put in front of a loader path stands before it, with a colon between; before none, it
/// stands alone. The last of several comes first.
pub proof fn law_loader_paths_are_prepended(
    dirs: Seq<Seq<char>>,
    dir: Seq<char>,
    path: Option<Seq<char>>,
)
    ensures
        loader_path(Seq::empty(), path) == path,
        match loader_path(dirs, path) {
            Some(p) => loader_path(dirs.push(dir), path) == Some(
                if p.len() == 0 {
                    dir
                } else {
                    dir + ":"@ + p
                },
            ),
            None => loader_path(dirs.push(dir), path) == Some(dir),
        },
{
    assert(dirs.push(dir).drop_last() =~= dirs);
}

/// The directories that a python prints are those between its colons, without empty ones.
pub proof fn law_printed_directories(output: Seq<char>, dir: Seq<char>)
    ensures
        dirs_in(output).contains(dir) <==> fields(trimmed(output), ':').contains(dir) && dir.len() > 0,
        dirs_in(output).contains(dir) ==> !dir.contains(':'),
{
    broadcast use vstd::seq_lib::group_filter_ensures;

    let all = fields(trimmed(output), ':');
    let keep = |d: Seq<char>| d.len() > 0;
    let kept = all.filter(keep);
    if kept.contains(dir) {
        let i = choose|i: int| 0 <= i < kept.len() && kept[i] == dir;
        assert(keep(kept[i]));
        lemma_kept_is_there(all, dir);
        let j = choose|j: int| 0 <= j < all.len() && all[j] == dir;
        law_fields_are_what_separators_part(trimmed(output), ':', j);
    }
    if all.contains(dir) && dir.len() > 0 {
        let i = choose|i: int| 0 <= i < all.len() && all[i] == dir;
        assert(keep(all[i]));
        assert(kept.contains(all[i]));
    }
}

proof fn lemma_kept_is_there(s: Seq<Seq<char>>, d: Seq<char>)
    requires
        s.filter(|d: Seq<char>| d.len() > 0).contains(d),
    ensures
        s.contains(d),
    decreases s.len(),
{
    reveal(Seq::filter);
    let f = |d: Seq<char>| d.len() > 0;
    if s.len() > 0 {
        let rest = s.drop_last();
        if rest.filter(f).contains(d) {
            lemma_kept_is_there(rest, d);
            let i = choose|i: int| 0 <= i < rest.len() && rest[i] == d;
            assert(s[i] == d);
        } else {
            let t = s.filter(f);
            let i = choose|i: int| 0 <= i < t.len() && t[i] == d;
            if i < rest.filter(f).len() {
                assert(rest.filter(f)[i] == d);
            }
            assert(s[s.len() - 1] == d);
        }
    }
}

/// A part inside a directory begins with the directory and ends with the part, with one slash between
/// them unless the directory ends in one or is not named.
pub proof fn law_parts_lie_inside(base: Seq<char>, part: Seq<char>)
    ensures
        base.is_prefix_of(inside(base, part)),
        part.is_suffix_of(inside(base, part)),
        inside(base, part).len() == base.len() + part.len() + (if base.len() == 0 || base.last() == '/' {
            0int
        } else {
            1
        }),
        base.len() > 0 && base.last() != '/' ==> inside(base, part)[base.len() as int] == '/',
{
    let p = inside(base, part);
    assert(p.take(base.len() as int) =~= base);
    assert(p.skip(p.len() - part.len()) =~= part);
}

// Following a build

/// A build that has just begun is running and has said nothing.
pub proof fn law_builds_begin_running(name: Seq<char>)
    ensures
        BuildModel::begun(name).state is Running,
        BuildModel::begun(name).lines.len() == 0,
        BuildModel::begun(name).compiles == 0,
        BuildModel::begun(name).crate_name == name,
{
}

/// Each line that announces a crate counts one, and no other counts.
pub proof fn law_announced_crates_are_counted(b: BuildModel, line: Seq<char>)
    requires
        b.compiles < usize::MAX,
    ensures
        b.after_line(line).compiles == b.compiles + (if announces_crate(line) {
            1int
        } else {
            0
        }),
        b.lines.len() < 512 ==> b.after_line(line).lines == b.lines.push(line),
        b.lines.len() >= 512 ==> b.after_line(line).lines == b.lines.push(line).drop_first(),
{
}

/// A line announces a crate exactly where, behind any number of spaces, it says that one is compiled.
pub proof fn law_announcements(line: Seq<char>)
    ensures
        announces_crate(line) <==> exists|n: nat, rest: Seq<char>|
            line == #[trigger] announcement(n, rest),
{
    reveal_strlit("Compiling ");
    let n = lemma_unindented(line);
    let body = unindented(line);
    if announces_crate(line) {
        let rest = body.skip("Compiling "@.len() as int);
        assert(body.take("Compiling "@.len() as int) =~= "Compiling "@);
        assert(body =~= "Compiling "@ + rest);
        assert(line =~= announcement(n, rest));
    }
    if exists|n: nat, rest: Seq<char>| line == #[trigger] announcement(n, rest) {
        let (k, rest) = choose|n: nat, rest: Seq<char>| line == #[trigger] announcement(n, rest);
        lemma_unindented_spaces(k, "Compiling "@ + rest);
        assert(line =~= repeated(' ', k) + ("Compiling "@ + rest));
        assert(("Compiling "@ + rest).take("Compiling "@.len() as int) =~= "Compiling "@);
    }
}

/// A crate announced behind `n` spaces.
pub open spec fn announcement(n: nat, rest: Seq<char>) -> Seq<char> {
    repeated(' ', n) + "Compiling "@ + rest
}

proof fn lemma_unindented(line: Seq<char>) -> (n: nat)
    ensures
        line == repeated(' ', n) + unindented(line),
    decreases line.len(),
{
    if line.len() > 0 && line[0] == ' ' {
        let rest = line.drop_first();
        let k = lemma_unindented(rest);
        assert(line =~= seq![' '] + rest);
        assert(repeated(' ', k + 1) =~= seq![' '] + repeated(' ', k));
        assert(line =~= repeated(' ', k + 1) + unindented(line));
        k + 1
    } else {
        assert(line =~= repeated(' ', 0) + line);
        0
    }
}

proof fn lemma_unindented_spaces(n: nat, body: Seq<char>)
    requires
        body.len() > 0,
        body[0] != ' ',
    ensures
        unindented(repeated(' ', n) + body) == body,
    decreases n,
{
    let line = repeated(' ', n) + body;
    if n > 0 {
        lemma_unindented_spaces((n - 1) as nat, body);
        assert(line[0] == ' ');
        assert(line.drop_first() =~= repeated(' ', (n - 1) as nat) + body);
    } else {
        assert(line =~= body);
    }
}

/// A build takes every state that it is told, but that it goes on once it is over; nothing else of it
/// changes.
pub proof fn law_builds_take_their_state(b: BuildModel, state: BuildState)
    ensures
        !(b.state is Running) && state is Running ==> b.in_state(state) == b,
        b.state is Running || !(state is Running) ==> {
            &&& b.in_state(state).state == state
            &&& b.in_state(state).lines == b.lines
            &&& b.in_state(state).compiles == b.compiles
            &&& b.in_state(state).crate_name == b.crate_name
        },
{
}

/// Of a build's output the last sixteen lines are shown, without those that are blank.
pub proof fn law_the_last_lines_are_shown(lines: Seq<Seq<char>>, line: Seq<char>)
    ensures
        lines.len() < 16 && trimmed(line).len() > 0 ==> shown_lines(lines.push(line)) == shown_lines(
            lines,
        ).push(line),
        lines.len() < 16 && trimmed(line).len() == 0 ==> shown_lines(lines.push(line)) == shown_lines(
            lines,
        ),
        lines.len() >= 16 ==> shown_lines(lines) == shown_lines(lines.skip(lines.len() - 16)),
        trimmed(line).len() > 0 ==> shown_lines(lines.push(line)).len() > 0 && shown_lines(
            lines.push(line),
        ).last() == line,
{
    reveal(Seq::filter);
    let all = lines.push(line);
    assert(lines.skip(0) =~= lines);
    assert(all.skip(0) =~= all);
    assert(all.drop_last() =~= lines);
    if lines.len() >= 16 {
        let tail = lines.skip(lines.len() - 16);
        assert(tail.skip(0) =~= tail);
        let last = all.skip(all.len() - 16);
        assert(last.last() == line);
    }
}

/// The models of cards and devices are what they hold, field by field and one by one.
pub proof fn law_the_models_are_the_devices(gpus: Seq<Gpu>, devices: Seq<DeviceOption>, i: int)
    ensures
        gpus_view(gpus).len() == gpus.len(),
        0 <= i < gpus.len() ==> {
            &&& gpus_view(gpus)[i].index == gpus[i].index
            &&& gpus_view(gpus)[i].name == gpus[i].name@
            &&& gpus_view(gpus)[i].vram_mib == gpus[i].vram_mib
        },
        devices_view(devices).len() == devices.len(),
        0 <= i < devices.len() ==> {
            &&& devices_view(devices)[i].value == devices[i].value@
            &&& devices_view(devices)[i].label == devices[i].label@
            &&& devices_view(devices)[i].tag == devices[i].tag@
            &&& devices_view(devices)[i].vram_mib == devices[i].vram_mib
        },
{
}

} // verus!
