//! The devices that a volunteer may choose from. All detection is at best effort: where it fails,
//! the choice is left to the client.

use vstd::prelude::*;
use vstd::string::StringExecFns;

use crate::parse::{fields, lines, number_in, parse_number, split_fields, split_lines, trim, trimmed};
use crate::text::{decimal, decimal_text, same_text, views};

verus! {

/// A device to choose.
#[derive(Debug)]
pub struct DeviceOption {
    /// What the client's `--device` flag is given.
    pub value: String,
    /// What the picker shows.
    pub label: String,
    /// A short badge.
    pub tag: &'static str,
    /// The device's own memory, where it is known.
    pub vram_mib: Option<u32>,
}

/// A device, its texts as characters.
#[verifier::ext_equal]
pub struct DeviceModel {
    pub value: Seq<char>,
    pub label: Seq<char>,
    pub tag: Seq<char>,
    pub vram_mib: Option<u32>,
}

impl View for DeviceOption {
    type V = DeviceModel;

    open spec fn view(&self) -> DeviceModel {
        DeviceModel {
            value: self.value@,
            label: self.label@,
            tag: self.tag@,
            vram_mib: self.vram_mib,
        }
    }
}

/// Devices, their texts as characters.
pub open spec fn devices_view(s: Seq<DeviceOption>) -> Seq<DeviceModel> {
    s.map_values(|d: DeviceOption| d@)
}

/// A graphics card.
#[derive(Debug)]
pub struct Gpu {
    pub index: u32,
    pub name: String,
    pub vram_mib: Option<u32>,
}

/// A graphics card, its name as characters.
#[verifier::ext_equal]
pub struct GpuModel {
    pub index: u32,
    pub name: Seq<char>,
    pub vram_mib: Option<u32>,
}

impl View for Gpu {
    type V = GpuModel;

    open spec fn view(&self) -> GpuModel {
        GpuModel { index: self.index, name: self.name@, vram_mib: self.vram_mib }
    }
}

/// Graphics cards, their names as characters.
pub open spec fn gpus_view(s: Seq<Gpu>) -> Seq<GpuModel> {
    s.map_values(|g: Gpu| g@)
}

/// A number of 32 bits that a field holds between blanks.
pub open spec fn field_number(s: Seq<char>) -> Option<u32> {
    match number_in(trimmed(s), u32::MAX as nat) {
        Some(n) => Some(n as u32),
        None => None,
    }
}

/// The card that a line of `nvidia-smi` tells of: its index, its name and, where it is given, its
/// memory in MiB. A line without an index and a name tells of none.
pub open spec fn gpu_of(line: Seq<char>) -> Option<GpuModel> {
    let f = fields(line, ',');
    match field_number(f[0]) {
        Some(index) if f.len() >= 2 => Some(
            GpuModel {
                index,
                name: trimmed(f[1]),
                vram_mib: if f.len() >= 3 {
                    field_number(f[2])
                } else {
                    None
                },
            },
        ),
        _ => None,
    }
}

/// The cards that the lines tell of, in order.
pub open spec fn gpus_in(s: Seq<Seq<char>>) -> Seq<GpuModel>
    decreases s.len(),
{
    if s.len() == 0 {
        Seq::empty()
    } else {
        let before = gpus_in(s.drop_last());
        match gpu_of(s.last()) {
            Some(g) => before.push(g),
            None => before,
        }
    }
}

fn parse_field(s: &str) -> (r: Option<u32>)
    ensures
        r == field_number(s@),
{
    match parse_number(trim(s).as_str(), u32::MAX as u64) {
        Some(n) => Some(n as u32),
        None => None,
    }
}

fn parse_gpu(line: &str) -> (r: Option<Gpu>)
    ensures
        match r {
            Some(g) => gpu_of(line@) == Some(g@),
            None => gpu_of(line@) is None,
        },
{
    let f = split_fields(line, ',');
    let ghost v = views(f@);
    assert(v.len() == f@.len());
    if f.len() == 0 {
        proof {
            crate::parse::lemma_first_index(line@, ',');
        }
        return None;
    }
    assert(v[0] == f@[0]@);
    let index: u32 = match parse_field(f[0].as_str()) {
        Some(i) => i,
        None => {
            return None;
        },
    };
    if f.len() < 2 {
        return None;
    }
    assert(v[1] == f@[1]@);
    let name = trim(f[1].as_str());
    let vram_mib: Option<u32> = if f.len() >= 3 {
        assert(v[2] == f@[2]@);
        parse_field(f[2].as_str())
    } else {
        None
    };
    Some(Gpu { index, name, vram_mib })
}

/// The cards that the output of `nvidia-smi` lists.
pub fn parse_nvidia(output: &str) -> (r: Vec<Gpu>)
    ensures
        gpus_view(r@) == gpus_in(lines(output@)),
{
    let rows = split_lines(output);
    let ghost all = views(rows@);
    let mut out: Vec<Gpu> = Vec::new();
    let mut i: usize = 0;
    assert(all.take(0) =~= Seq::<Seq<char>>::empty());
    assert(gpus_view(out@) =~= gpus_in(all.take(0)));
    while i < rows.len()
        invariant
            i <= rows@.len(),
            all == views(rows@),
            gpus_view(out@) == gpus_in(all.take(i as int)),
        decreases rows@.len() - i,
    {
        let ghost t = all.take(i as int + 1);
        assert(t.drop_last() =~= all.take(i as int));
        assert(t.last() == rows@[i as int]@);
        let ghost before = out@;
        match parse_gpu(rows[i].as_str()) {
            Some(g) => {
                out.push(g);
                assert(gpus_view(out@) =~= gpus_view(before).push(g@));
            },
            None => {},
        }
        i = i + 1;
    }
    assert(all.take(i as int) =~= all);
    out
}

/// The choice of a single card.
pub open spec fn gpu_option(g: GpuModel) -> DeviceModel {
    DeviceModel {
        value: "cuda:"@ + decimal(g.index as nat),
        label: g.name + " (cuda:"@ + decimal(g.index as nat) + ")"@,
        tag: "CUDA"@,
        vram_mib: g.vram_mib,
    }
}

/// The choices: whatever the client takes, then all cards and each of them, then Apple's, then none.
pub open spec fn device_options(gpus: Seq<GpuModel>, apple_silicon: bool) -> Seq<DeviceModel> {
    seq![
        DeviceModel {
            value: "auto"@,
            label: "Auto — let Aether choose"@,
            tag: "AUTO"@,
            vram_mib: None,
        },
    ] + (if gpus.len() > 0 {
        seq![
            DeviceModel {
                value: "cuda"@,
                label: "All visible NVIDIA GPUs"@,
                tag: "CUDA"@,
                vram_mib: None,
            },
        ] + gpus.map_values(|g: GpuModel| gpu_option(g))
    } else {
        Seq::empty()
    }) + (if apple_silicon {
        seq![
            DeviceModel {
                value: "mps"@,
                label: "Apple Metal (MPS)"@,
                tag: "MPS"@,
                vram_mib: None,
            },
        ]
    } else {
        Seq::empty()
    }) + seq![
        DeviceModel { value: "cpu"@, label: "CPU only"@, tag: "CPU"@, vram_mib: None },
    ]
}

fn option_of(g: &Gpu) -> (r: DeviceOption)
    ensures
        r@ == gpu_option(g@),
{
    let digits = decimal_text(g.index as u64);
    let mut value = "cuda:".to_string();
    value.append(digits.as_str());
    let mut label = g.name.clone();
    label.append(" (cuda:");
    label.append(digits.as_str());
    label.append(")");
    DeviceOption { value, label, tag: "CUDA", vram_mib: g.vram_mib }
}

fn fixed_option(value: &str, label: &str, tag: &'static str) -> (r: DeviceOption)
    ensures
        r@ == (DeviceModel { value: value@, label: label@, tag: tag@, vram_mib: None }),
{
    DeviceOption { value: value.to_string(), label: label.to_string(), tag, vram_mib: None }
}

/// Viewing devices passes through a push.
broadcast proof fn lemma_devices_push(s: Seq<DeviceOption>, d: DeviceOption)
    ensures
        #[trigger] devices_view(s.push(d)) == devices_view(s).push(d@),
{
    assert(devices_view(s.push(d)) =~= devices_view(s).push(d@));
}

/// The choices, the recommended one first, given the cards that were found and whether this is a
/// machine of Apple's with a chip of its own.
pub fn detect_devices(gpus: &Vec<Gpu>, apple_silicon: bool) -> (r: Vec<DeviceOption>)
    ensures
        devices_view(r@) == device_options(gpus_view(gpus@), apple_silicon),
{
    broadcast use lemma_devices_push;

    let ghost g = gpus_view(gpus@);
    let ghost f = |g: GpuModel| gpu_option(g);
    let mut out: Vec<DeviceOption> = Vec::new();
    out.push(fixed_option("auto", "Auto — let Aether choose", "AUTO"));
    if gpus.len() > 0 {
        out.push(fixed_option("cuda", "All visible NVIDIA GPUs", "CUDA"));
        let ghost head = devices_view(out@);
        let mut i: usize = 0;
        assert(devices_view(out@) =~= head + g.take(0).map_values(f));
        while i < gpus.len()
            invariant
                i <= gpus@.len(),
                g == gpus_view(gpus@),
                f == (|g: GpuModel| gpu_option(g)),
                devices_view(out@) == head + g.take(i as int).map_values(f),
            decreases gpus@.len() - i,
        {
            broadcast use lemma_devices_push;

            out.push(option_of(&gpus[i]));
            i = i + 1;
            assert(devices_view(out@) =~= head + g.take(i as int).map_values(f));
        }
        assert(g.take(i as int) =~= g);
    }
    if apple_silicon {
        out.push(fixed_option("mps", "Apple Metal (MPS)", "MPS"));
    }
    out.push(fixed_option("cpu", "CPU only", "CPU"));
    assert(devices_view(out@) =~= device_options(g, apple_silicon));
    out
}

/// There is always a choice; the first leaves it to the client and the last needs no card.
pub proof fn law_there_is_always_a_choice(gpus: Seq<GpuModel>, apple_silicon: bool)
    ensures
        device_options(gpus, apple_silicon).len() >= 2,
        device_options(gpus, apple_silicon).first().value == "auto"@,
        device_options(gpus, apple_silicon).last().value == "cpu"@,
{
}

/// The greater of two amounts of memory, of which either may be unknown.
pub open spec fn more_memory(a: Option<u32>, b: Option<u32>) -> Option<u32> {
    match (a, b) {
        (Some(x), Some(y)) => Some(
            if x >= y {
                x
            } else {
                y
            },
        ),
        (Some(x), None) => Some(x),
        (None, y) => y,
    }
}

/// The most memory that one of the cards has.
pub open spec fn best_memory(gpus: Seq<GpuModel>) -> Option<u32>
    decreases gpus.len(),
{
    if gpus.len() == 0 {
        None
    } else {
        more_memory(best_memory(gpus.drop_last()), gpus.last().vram_mib)
    }
}

/// The most memory that one of the cards has, where any is known.
pub fn best_gpu_vram_mib(gpus: &Vec<Gpu>) -> (r: Option<u32>)
    ensures
        r == best_memory(gpus_view(gpus@)),
{
    let ghost g = gpus_view(gpus@);
    let mut best: Option<u32> = None;
    let mut i: usize = 0;
    assert(g.take(0) =~= Seq::<GpuModel>::empty());
    while i < gpus.len()
        invariant
            i <= gpus@.len(),
            g == gpus_view(gpus@),
            best == best_memory(g.take(i as int)),
        decreases gpus@.len() - i,
    {
        let ghost t = g.take(i as int + 1);
        assert(t.drop_last() =~= g.take(i as int));
        assert(t.last() == gpus@[i as int]@);
        best = match (best, gpus[i].vram_mib) {
            (Some(x), Some(y)) => if x >= y {
                Some(x)
            } else {
                Some(y)
            },
            (Some(x), None) => Some(x),
            (None, y) => y,
        };
        i = i + 1;
    }
    assert(g.take(i as int) =~= g);
    best
}

/// No card has more than the best, and the best is that of a card.
pub proof fn law_best_memory_is_the_most(gpus: Seq<GpuModel>, i: int)
    requires
        0 <= i < gpus.len(),
    ensures
        gpus[i].vram_mib matches Some(m) ==> (best_memory(gpus) matches Some(b) && b >= m),
        best_memory(gpus) is Some ==> exists|j: int|
            0 <= j < gpus.len() && (#[trigger] gpus[j]).vram_mib == best_memory(gpus),
    decreases gpus.len(),
{
    let rest = gpus.drop_last();
    if i < rest.len() {
        law_best_memory_is_the_most(rest, i);
        assert(rest[i] == gpus[i]);
    } else if rest.len() > 0 {
        law_best_memory_is_the_most(rest, 0);
    }
    if best_memory(gpus) is Some {
        if best_memory(gpus) == gpus.last().vram_mib {
            assert(gpus[gpus.len() - 1].vram_mib == best_memory(gpus));
        } else if rest.len() > 0 {
            let j = choose|j: int|
                0 <= j < rest.len() && (#[trigger] rest[j]).vram_mib == best_memory(rest);
            assert(gpus[j].vram_mib == best_memory(gpus));
        }
    }
}

/// A system's name as it is shown.
pub open spec fn os_label(os: Seq<char>) -> Seq<char> {
    if os == "macos"@ {
        "macOS"@
    } else if os == "linux"@ {
        "Linux"@
    } else {
        os
    }
}

/// An architecture that Apple's own chips have.
pub open spec fn is_arm(arch: Seq<char>) -> bool {
    arch == "aarch64"@ || arch == "arm"@
}

/// The machine in a few words.
pub open spec fn summary(os: Seq<char>, arch: Seq<char>, gpus: nat) -> Seq<char> {
    os_label(os) + " ("@ + arch + ")"@ + (if gpus > 0 {
        " · "@ + decimal(gpus) + " NVIDIA GPU(s)"@
    } else if os_label(os) == "macOS"@ && is_arm(arch) {
        " · Apple Silicon"@
    } else {
        Seq::empty()
    })
}

/// Whether an architecture is one that Apple's own chips have.
pub fn is_apple_silicon(arch: &str) -> (r: bool)
    ensures
        r == is_arm(arch@),
{
    same_text(arch, "aarch64") || same_text(arch, "arm")
}

/// The machine in a few words, given the names of its system and architecture.
pub fn host_summary(os: &str, arch: &str, gpus: usize) -> (r: String)
    ensures
        r@ == summary(os@, arch@, gpus as nat),
{
    let label =
    if same_text(os, "macos") {
        "macOS"
    } else if same_text(os, "linux") {
        "Linux"
    } else {
        os
    };
    let mut out = label.to_string();
    out.append(" (");
    out.append(arch);
    out.append(")");
    let mut note = String::new();
    if gpus > 0 {
        note.append(" · ");
        assert(note@ =~= " · "@);
        note.append(decimal_text(gpus as u64).as_str());
        note.append(" NVIDIA GPU(s)");
    } else if same_text(label, "macOS") && is_apple_silicon(arch) {
        note.append(" · Apple Silicon");
        assert(note@ =~= " · Apple Silicon"@);
    }
    out.append(note.as_str());
    out
}

} // verus!
