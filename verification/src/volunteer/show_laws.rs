//! What the launcher's screens show of its state.

use vstd::prelude::*;

use super::app::{too_small_message, AppModel, Screen, TOO_SMALL_TEMPLATE};
use super::brand::{
    Rgb, ACCENT_AMBER, ACCENT_VIOLET, BLOOM_BONE, BRAND_A, BRAND_B, DIM, INK, PANEL_HI, WARN,
};
use super::canvas::{DrawModel, Rect};
use super::config::client_bin_of;
use super::detect::DeviceModel;
use super::logo::{burst, glitch, jolt, junk, line_cells, mixed, moved};
use super::prepare::BuildSnapshot;
use super::requirements::MIN_VRAM_MIB;
use super::screens::{
    bar_place, body, build_message, build_screen, error_screen, footer, form_screen, framed, header,
    identity_note, identity_screen, inner_area, is_too_small, light_head, light_length,
    ready_rows, ready_screen, resize_message, section_title, two_columns,
    welcome_with_logo, welcome_without_logo, Scene, COMPILING_TEMPLATE, MIN_H, MIN_W, RESIZE_TEMPLATE,
    WELCOME_CTA,
};
use crate::text::{
    all_fixed, blank, blank_from, decimal, filled, is_fixed, law_fields_go_to_their_places, mentions,
    said, views, woven,
};

verus! {

/// In a window that is too small it is said how large it must be, and how large it is.
pub proof fn law_resizing_is_asked_for(area: Rect)
    ensures
        resize_message(area) == woven(
            seq![
                ("please resize your terminal (need ≥"@, decimal(78)),
                ("x"@, decimal(28)),
                (", have "@, decimal(area.width as nat)),
                ("x"@, decimal(area.height as nat)),
            ],
            ")"@,
        ),
{
    let parts = seq![
        ("please resize your terminal (need ≥"@, decimal(78)),
        ("x"@, decimal(28)),
        (", have "@, decimal(area.width as nat)),
        ("x"@, decimal(area.height as nat)),
    ];
    let end = ")"@;
    assert(RESIZE_TEMPLATE@ == blank(parts, end)) by {
        reveal_strlit("{}");
        reveal_strlit("please resize your terminal (need ≥{}x{}, have {}x{})");
        reveal_strlit("please resize your terminal (need ≥");
        reveal_strlit("x");
        reveal_strlit(", have ");
        reveal_strlit(")");
        reveal_with_fuel(blank_from, 5);
        assert(RESIZE_TEMPLATE@ =~= blank(parts, end));
    }
    assert(all_fixed(parts, end)) by {
        reveal_strlit("please resize your terminal (need ≥");
        reveal_strlit("x");
        reveal_strlit(", have ");
        reveal_strlit(")");
        assert(is_fixed(end));
        assert(is_fixed(parts[0].0));
        assert(is_fixed(parts[1].0));
        assert(is_fixed(parts[2].0));
        assert(is_fixed(parts[3].0));
    }
    assert(seq![
        decimal(MIN_W as nat),
        decimal(MIN_H as nat),
        decimal(area.width as nat),
        decimal(area.height as nat),
    ] =~= said(parts));
    law_fields_go_to_their_places(parts, end);
}

/// While crates are compiled it is said how many were announced.
pub proof fn law_compiled_crates_are_said(n: nat)
    ensures
        filled(COMPILING_TEMPLATE@, seq![decimal(n)]) == woven(
            seq![
                ("Compiling "@, decimal(n)),
            ],
            " crates…"@,
        ),
{
    let parts = seq![
        ("Compiling "@, decimal(n)),
    ];
    let end = " crates…"@;
    assert(COMPILING_TEMPLATE@ == blank(parts, end)) by {
        reveal_strlit("{}");
        reveal_strlit("Compiling {} crates…");
        reveal_strlit("Compiling ");
        reveal_strlit(" crates…");
        reveal_with_fuel(blank_from, 2);
        assert(COMPILING_TEMPLATE@ =~= blank(parts, end));
    }
    assert(all_fixed(parts, end)) by {
        reveal_strlit("Compiling ");
        reveal_strlit(" crates…");
        assert(is_fixed(end));
        assert(is_fixed(parts[0].0));
    }
    assert(seq![decimal(n)] =~= said(parts));
    law_fields_go_to_their_places(parts, end);
}

/// Of a card with too little memory it is said how much it has, and how much it needs.
pub proof fn law_small_cards_are_named(d: DeviceModel)
    ensures
        too_small_message(d) == woven(
            seq![
                (""@, d.value),
                (" ("@, decimal(match d.vram_mib { Some(m) => m as nat, None => 0 })),
                (" MiB) is below the "@, decimal(4096)),
            ],
            " MiB minimum — choose another device."@,
        ),
{
    let parts = seq![
        (""@, d.value),
        (" ("@, decimal(match d.vram_mib { Some(m) => m as nat, None => 0 })),
        (" MiB) is below the "@, decimal(4096)),
    ];
    let end = " MiB minimum — choose another device."@;
    assert(TOO_SMALL_TEMPLATE@ == blank(parts, end)) by {
        reveal_strlit("{}");
        reveal_strlit("{} ({} MiB) is below the {} MiB minimum — choose another device.");
        reveal_strlit("");
        reveal_strlit(" (");
        reveal_strlit(" MiB) is below the ");
        reveal_strlit(" MiB minimum — choose another device.");
        reveal_with_fuel(blank_from, 4);
        assert(TOO_SMALL_TEMPLATE@ =~= blank(parts, end));
    }
    assert(all_fixed(parts, end)) by {
        reveal_strlit("");
        reveal_strlit(" (");
        reveal_strlit(" MiB) is below the ");
        reveal_strlit(" MiB minimum — choose another device.");
        assert(is_fixed(end));
        assert(is_fixed(parts[0].0));
        assert(is_fixed(parts[1].0));
        assert(is_fixed(parts[2].0));
    }
    assert(seq![
        d.value,
        decimal(match d.vram_mib { Some(m) => m as nat, None => 0 }),
        decimal(MIN_VRAM_MIB as nat),
    ] =~= said(parts));
    law_fields_go_to_their_places(parts, end);
}

/// The windows that are too small are those below the least width or the least height.
pub proof fn law_windows_that_are_too_small(area: Rect)
    ensures
        is_too_small(area) <==> area.width < 78 || area.height < 28,
{
}

// What is drawn

/// A text is drawn.
pub open spec fn draws_text(s: Seq<DrawModel>, text: Seq<char>) -> bool {
    exists|i: int| 0 <= i < s.len() && is_text(#[trigger] s[i], text)
}

/// This is that text.
pub open spec fn is_text(d: DrawModel, text: Seq<char>) -> bool {
    d matches DrawModel::Text { text: t, .. } && t == text
}

/// A field is drawn in its row: its name in the frame, bright where it has the focus, and its value.
pub open spec fn is_field(
    d: DrawModel,
    y: int,
    label: Seq<char>,
    value: Seq<char>,
    focused: bool,
) -> bool {
    &&& d matches DrawModel::Panel { area, title: Some(title), lines, .. }
    &&& area.y == y
    &&& area.height == 3
    &&& title.0 == " "@ + label + " "@
    &&& title.1 == (if focused {
        INK
    } else {
        DIM
    })
    &&& lines.len() == 1
    &&& lines[0].0 == value
}

/// A field is drawn somewhere.
pub open spec fn draws_field(
    s: Seq<DrawModel>,
    y: int,
    label: Seq<char>,
    value: Seq<char>,
    focused: bool,
) -> bool {
    exists|i: int| 0 <= i < s.len() && is_field(#[trigger] s[i], y, label, value, focused)
}

/// A key and its value are drawn beside each other.
pub open spec fn draws_pair(s: Seq<DrawModel>, key: Seq<char>, value: Seq<char>) -> bool {
    exists|i: int| 0 <= i < s.len() - 1 && is_pair(#[trigger] s[i], s[i + 1], key, value)
}

/// These are a key and its value, in one row, the value further right.
pub open spec fn is_pair(a: DrawModel, b: DrawModel, key: Seq<char>, value: Seq<char>) -> bool {
    &&& a matches DrawModel::Text { x: x0, y: y0, text: t0, .. }
    &&& b matches DrawModel::Text { x: x1, y: y1, text: t1, .. }
    &&& y0 == y1
    &&& x0 < x1
    &&& t0 == key
    &&& t1 == value
}

/// Lines are drawn in a frame with this title.
pub open spec fn is_log(d: DrawModel, title: Seq<char>, lines: Seq<(Seq<char>, Rgb)>) -> bool {
    d matches DrawModel::Panel { title: Some(t), lines: l, .. } && t.0 == title && l == lines
}

/// The form shows each field under its name with what it holds, and the device by its name, one below
/// the other; the one with the focus stands out. Below them stands the start button.
pub proof fn law_the_form_shows_its_fields(m: AppModel, area: Rect)
    requires
        area.y + 30 <= u16::MAX,
    ensures
        ({
            let s = form_screen(m, area);
            let y = area.y + 4;
            let f = m.form;
            &&& draws_text(s, "Configure Your Node"@)
            &&& draws_field(s, y, "Run ID"@, f.run_id, f.focus == 0)
            &&& draws_field(s, y + 3, "Server Host"@, f.server_host, f.focus == 1)
            &&& draws_field(s, y + 6, "Server Port"@, f.server_port, f.focus == 2)
            &&& draws_field(s, y + 9, "Client Slot"@, f.slot, f.focus == 3)
            &&& draws_field(
                s,
                y + 12,
                "Device"@,
                m.devices[f.device_idx as int].label,
                f.focus == 4,
            )
            &&& draws_field(s, y + 15, "Micro Batch Size"@, f.micro_batch, f.focus == 5)
        }),
{
    let s = form_screen(m, area);
    let n = section_title(area, "Configure Your Node"@).len() as int;
    let y = area.y + 4;
    let f = m.form;
    assert(is_text(s[0], "Configure Your Node"@));
    assert(is_field(s[n], y, "Run ID"@, f.run_id, f.focus == 0));
    assert(is_field(s[n + 1], y + 3, "Server Host"@, f.server_host, f.focus == 1));
    assert(is_field(s[n + 2], y + 6, "Server Port"@, f.server_port, f.focus == 2));
    assert(is_field(s[n + 3], y + 9, "Client Slot"@, f.slot, f.focus == 3));
    assert(is_field(
        s[n + 4],
        y + 12,
        "Device"@,
        m.devices[f.device_idx as int].label,
        f.focus == 4,
    ));
    assert(is_field(s[n + 5], y + 15, "Micro Batch Size"@, f.micro_batch, f.focus == 5));
}

/// The form says what is wrong with the device, where there is room for it, and nothing where nothing
/// is.
pub proof fn law_the_form_says_what_is_wrong(m: AppModel, area: Rect)
    requires
        area.height >= 28,
        area.y + area.height <= u16::MAX,
    ensures
        m.form_error matches Some(msg) ==> draws_text(form_screen(m, area), msg),
        m.form_error is None ==> form_screen(m, area).len() == section_title(
            area,
            "Configure Your Node"@,
        ).len() + 7,
{
    let s = form_screen(m, area);
    let n = section_title(area, "Configure Your Node"@).len() as int;
    if let Some(msg) = m.form_error {
        assert(is_text(s[n + 7], msg));
    }
}

/// The identity is shown as new or as one that was there, with where its key lies and with what went
/// wrong.
pub proof fn law_the_identity_is_shown(m: AppModel, area: Rect)
    ensures
        ({
            let s = identity_screen(m, area);
            &&& draws_text(s, "Node Identity"@)
            &&& m.identity_created == Some(true) ==> draws_text(s, "Generated a fresh identity"@)
            &&& m.identity_created == Some(false) ==> draws_text(s, "Using existing identity"@)
            &&& m.identity_path matches Some(p) ==> draws_text(s, "Key: "@ + p)
            &&& m.identity_error matches Some(e) ==> draws_text(s, e)
            &&& draws_text(s, "It never leaves this machine."@)
        }),
{
    let s = identity_screen(m, area);
    let n = section_title(area, "Node Identity"@).len() as int;
    assert(is_text(s[0], "Node Identity"@));
    if m.identity_created == Some(true) {
        assert(is_text(s[n], "Generated a fresh identity"@));
    }
    if m.identity_created == Some(false) {
        assert(is_text(s[n], "Using existing identity"@));
    }
    let k = if m.identity_path is Some {
        1int
    } else {
        0
    };
    let e = if m.identity_error is Some {
        1int
    } else {
        0
    };
    if let Some(p) = m.identity_path {
        assert(is_text(s[n + 1], "Key: "@ + p));
    }
    if let Some(why) = m.identity_error {
        assert(is_text(s[n + 1 + k], why));
    }
    assert(identity_note()[2] == "It never leaves this machine."@);
    assert(is_text(s[n + 1 + k + e + 2], "It never leaves this machine."@));
}

/// A build that is under way shows how many crates were announced, for how long it has gone on, and its
/// last lines, of which those that speak of errors or warnings stand out. One that succeeded says so.
pub proof fn law_the_build_is_shown(
    frame: u64,
    build: Option<BuildSnapshot>,
    area: Rect,
    sweep: usize,
    shades: Seq<Rgb>,
    elapsed: Seq<char>,
    k: int,
)
    ensures
        ({
            let s = build_screen(frame, build, area, sweep, shades, elapsed);
            &&& draws_text(s, "Compile Training Engine"@)
            &&& build is None ==> draws_text(s, woven(seq![("Compiling "@, decimal(0))], " crates…"@))
            &&& build matches Some(snap) ==> {
                &&& snap.state is Success ==> draws_text(s, "Engine ready"@)
                &&& !(snap.state is Success) ==> draws_text(
                    s,
                    woven(seq![("Compiling "@, decimal(snap.compiles as nat))], " crates…"@),
                )
                &&& draws_text(s, "Elapsed "@ + elapsed)
                &&& shows_lines(s, " Build Log "@, views(snap.lines@))
            }
        }),
{
    let s = build_screen(frame, build, area, sweep, shades, elapsed);
    let n = section_title(area, "Compile Training Engine"@).len() as int;
    assert(is_text(s[0], "Compile Training Engine"@));
    assert(is_text(s[n + 1], build_message(build)));
    match build {
        Some(snap) => {
            law_compiled_crates_are_said(snap.compiles as nat);
            let end = s.len() - 2;
            assert(is_text(s[end], "Elapsed "@ + elapsed));
            assert(is_lines(s[end + 1], " Build Log "@, views(snap.lines@)));
        },
        None => {
            law_compiled_crates_are_said(0);
        },
    }
}

/// Lines are drawn in a frame, those that speak of errors or warnings in another colour.
pub open spec fn is_lines(d: DrawModel, title: Seq<char>, lines: Seq<Seq<char>>) -> bool {
    &&& d matches DrawModel::Panel { title: Some(t), lines: drawn, .. }
    &&& t.0 == title
    &&& drawn.len() == lines.len()
    &&& forall|i: int|
        0 <= i < lines.len() ==> (#[trigger] drawn[i]).0 == lines[i] && drawn[i].1 == (if mentions(
            lines[i],
            "error"@,
        ) || mentions(lines[i], "warning"@) {
            WARN
        } else {
            DIM
        })
}

/// Such lines are drawn somewhere.
pub open spec fn shows_lines(s: Seq<DrawModel>, title: Seq<char>, lines: Seq<Seq<char>>) -> bool {
    exists|i: int| 0 <= i < s.len() && is_lines(#[trigger] s[i], title, lines)
}

/// What is found in two columns.
proof fn lemma_columns(area: Rect, y: int, rows: Seq<(Seq<char>, Seq<char>)>, k: int)
    requires
        0 <= k < rows.len(),
        area.x + 22 <= u16::MAX,
        0 <= y,
        y + rows.len() <= u16::MAX,
    ensures
        two_columns(area, y, rows).len() == 2 * rows.len(),
        is_pair(
            two_columns(area, y, rows)[2 * k],
            two_columns(area, y, rows)[2 * k + 1],
            rows[k].0,
            rows[k].1,
        ),
    decreases rows.len(),
{
    let rest = rows.drop_last();
    if rest.len() > 0 {
        lemma_columns(
            area,
            y,
            rest,
            if k < rest.len() {
                k
            } else {
                0
            },
        );
    }
    assert(two_columns(area, y, rest).len() == 2 * rest.len());
    if k < rest.len() {
        assert(rest[k] == rows[k]);
    }
}

/// The last screen shows what is launched: the run, the server, the device, the micro-batch, the
/// identity where there is one, and the client.
pub proof fn law_what_is_launched_is_shown(m: AppModel, area: Rect, manifest_dir: Seq<char>)
    requires
        area.x + 22 <= u16::MAX,
        area.y + 10 <= u16::MAX,
    ensures
        ({
            let s = ready_screen(m, area, manifest_dir);
            &&& draws_text(s, "Ready to Train"@)
            &&& draws_pair(s, "Run ID"@, m.form.run_id)
            &&& draws_pair(s, "Server"@, m.form.server_host + ":"@ + m.form.server_port)
            &&& draws_pair(s, "Device"@, m.devices[m.form.device_idx as int].value)
            &&& draws_pair(s, "Micro Batch Size"@, m.form.micro_batch)
            &&& m.identity_path matches Some(p) ==> draws_pair(s, "Identity Key"@, p)
            &&& draws_pair(s, "Engine"@, client_bin_of(manifest_dir))
        }),
{
    let s = ready_screen(m, area, manifest_dir);
    let rows = ready_rows(m, manifest_dir);
    assert(is_text(s[0], "Ready to Train"@));
    lemma_shown_pair(m, area, manifest_dir, 0);
    lemma_shown_pair(m, area, manifest_dir, 1);
    lemma_shown_pair(m, area, manifest_dir, 2);
    lemma_shown_pair(m, area, manifest_dir, 3);
    lemma_shown_pair(m, area, manifest_dir, 4);
    assert(rows[0] == ("Run ID"@, m.form.run_id));
    assert(rows[1] == ("Server"@, m.form.server_host + ":"@ + m.form.server_port));
    assert(rows[2] == ("Device"@, m.devices[m.form.device_idx as int].value));
    assert(rows[3] == ("Micro Batch Size"@, m.form.micro_batch));
    if let Some(p) = m.identity_path {
        assert(rows[4] == ("Identity Key"@, p));
        assert(rows[5] == ("Engine"@, client_bin_of(manifest_dir)));
        lemma_shown_pair(m, area, manifest_dir, 5);
    } else {
        assert(rows[4] == ("Engine"@, client_bin_of(manifest_dir)));
    }
}

proof fn lemma_shown_pair(m: AppModel, area: Rect, manifest_dir: Seq<char>, k: int)
    requires
        0 <= k < ready_rows(m, manifest_dir).len(),
        area.x + 22 <= u16::MAX,
        area.y + 10 <= u16::MAX,
    ensures
        draws_pair(
            ready_screen(m, area, manifest_dir),
            ready_rows(m, manifest_dir)[k].0,
            ready_rows(m, manifest_dir)[k].1,
        ),
{
    let s = ready_screen(m, area, manifest_dir);
    let rows = ready_rows(m, manifest_dir);
    let n = section_title(area, "Ready to Train"@).len() as int;
    let t = two_columns(area, area.y + 4, rows);
    lemma_columns(area, area.y + 4, rows, k);
    assert(s[n + 2 * k] == t[2 * k]);
    assert(s[n + 2 * k + 1] == t[2 * k + 1]);
    assert(is_pair(s[n + 2 * k], s[n + 2 * k + 1], rows[k].0, rows[k].1));
}

/// A failed build shows why it failed, and its last lines.
pub proof fn law_failures_are_shown(m: AppModel, area: Rect)
    ensures
        ({
            let s = error_screen(m, area);
            &&& draws_text(s, "Build Failed"@)
            &&& draws_text(s, m.build_failed_msg)
            &&& m.build matches Some(snap) ==> exists|i: int|
                0 <= i < s.len() && is_log(
                    #[trigger] s[i],
                    " Recent output "@,
                    views(snap.lines@).map_values(|l: Seq<char>| (l, INK)),
                )
        }),
{
    let s = error_screen(m, area);
    let n = section_title(area, "Build Failed"@).len() as int;
    assert(is_text(s[0], "Build Failed"@));
    assert(is_text(s[n], m.build_failed_msg));
    if let Some(snap) = m.build {
        assert(is_log(
            s[n + 1],
            " Recent output "@,
            views(snap.lines@).map_values(|l: Seq<char>| (l, INK)),
        ));
    }
}

/// The header tells the step and the host, and the footer what the keys of the screen do.
pub proof fn law_the_frame_tells_the_screen(area: Rect, host: Seq<char>, screen: Screen)
    ensures
        draws_text(header(area, host, screen), host),
        draws_text(
            header(area, host, screen),
            match screen {
                Screen::Welcome => "Step 1/5 of 5"@,
                Screen::Form => "Step 2/5 of 5"@,
                Screen::Identity => "Step 3/5 of 5"@,
                Screen::Build => "Step 4/5 of 5"@,
                Screen::Ready => "Step 5/5 of 5"@,
                Screen::Error => "Step 5/5 of 5"@,
            },
        ),
        draws_text(
            footer(area, screen),
            match screen {
                Screen::Welcome => "Enter: continue · Q: quit"@,
                Screen::Form => "Up/Down: navigate · Left/Right: device · Enter: next · Q: quit"@,
                Screen::Identity => "Enter: build and launch · B: back · Q: quit"@,
                Screen::Build => "Compiling… · Q: abort"@,
                Screen::Ready => "Enter: launch · Q: quit"@,
                Screen::Error => "R: retry · Q: quit"@,
            },
        ),
{
    let h = header(area, host, screen);
    let f = footer(area, screen);
    assert(is_text(h[1], host));
    assert(is_text(h[2], super::screens::step_of(screen)));
    assert(is_text(f[0], super::screens::hint_of(screen)));
}

/// The welcome says which machine it is and how to go on, with the logo or without.
pub proof fn law_the_welcome_says_how_to_go_on(
    area: Rect,
    mid: Rect,
    host: Seq<char>,
    logo: Seq<Seq<char>>,
    frame: u64,
    glow: super::canvas::Style,
)
    ensures
        draws_text(
            welcome_with_logo(area, host, logo, frame, glow),
            "Press Enter to configure your node"@,
        ),
        draws_text(welcome_without_logo(mid, host), "Press Enter to configure your node"@),
        draws_text(welcome_without_logo(mid, host), "Host: "@ + host),
{
    let s = welcome_with_logo(area, host, logo, frame, glow);
    assert(is_text(s[s.len() - 1], WELCOME_CTA@));
    let t = welcome_without_logo(mid, host);
    assert(is_text(t[t.len() - 1], WELCOME_CTA@));
    assert(is_text(t[t.len() - 2], "Host: "@ + host));
}

/// Between its header and its footer each screen shows its own: the form, the identity, the build, what
/// is launched, or what failed.
pub proof fn law_each_screen_shows_its_own(m: AppModel, inner: Rect, scene: Scene)
    ensures
        m.screen == Screen::Welcome ==> draws_text(
            body(m, inner, scene),
            "Press Enter to configure your node"@,
        ),
        m.screen == Screen::Form ==> draws_text(body(m, inner, scene), "Configure Your Node"@),
        m.screen == Screen::Identity ==> draws_text(body(m, inner, scene), "Node Identity"@),
        m.screen == Screen::Build ==> draws_text(body(m, inner, scene), "Compile Training Engine"@),
        m.screen == Screen::Ready ==> draws_text(body(m, inner, scene), "Ready to Train"@),
        m.screen == Screen::Error ==> draws_text(body(m, inner, scene), "Build Failed"@),
        m.screen == Screen::Error ==> draws_text(body(m, inner, scene), m.build_failed_msg),
{
    let s = body(m, inner, scene);
    match m.screen {
        Screen::Welcome => {
            law_the_welcome_says_how_to_go_on(
                inner,
                inner,
                m.host_summary,
                views(scene.logo@),
                m.frame,
                scene.glow,
            );
        },
        Screen::Error => {
            law_failures_are_shown(m, inner);
        },
        Screen::Form => {
            assert(is_text(s[0], "Configure Your Node"@));
        },
        Screen::Identity => {
            assert(is_text(s[0], "Node Identity"@));
        },
        Screen::Build => {
            assert(is_text(s[0], "Compile Training Engine"@));
        },
        Screen::Ready => {
            assert(is_text(s[0], "Ready to Train"@));
        },
    }
}

/// What a screen shows it shows with its header and its footer.
pub proof fn law_screens_are_framed(m: AppModel, area: Rect, shown: Seq<DrawModel>, text: Seq<char>)
    ensures
        draws_text(shown, text) ==> draws_text(framed(m, area, shown), text),
        draws_text(framed(m, area, shown), m.host_summary),
        inner_area(area).x == area.x && inner_area(area).width == area.width,
{
    let s = framed(m, area, shown);
    let h = header(area, m.host_summary, m.screen);
    law_the_frame_tells_the_screen(area, m.host_summary, m.screen);
    let j = choose|j: int| 0 <= j < h.len() && is_text(#[trigger] h[j], m.host_summary);
    assert(s[j] == h[j]);
    if draws_text(shown, text) {
        let i = choose|i: int| 0 <= i < shown.len() && is_text(#[trigger] shown[i], text);
        assert(s[h.len() + i] == shown[i]);
    }
}

/// The light of a progress bar has its head where it has come to, and its tail behind it, of up to ten
/// places; the rest of the bar is dark.
pub proof fn law_the_light_has_a_head_and_a_tail(area: Rect, sweep: usize, shades: Seq<Rgb>, i: int)
    requires
        0 <= i < area.width,
        area.x + area.width <= u16::MAX,
    ensures
        ({
            let head = sweep as int % (area.width + (if area.width < 10 {
                area.width
            } else {
                10
            }));
            let lit = i <= head < i + (if area.width < 10 {
                area.width
            } else {
                10
            });
            &&& bar_place(area, sweep, shades, i) matches DrawModel::Text { x, y, text, style }
            &&& x == area.x + i
            &&& y == area.y
            &&& text == seq![
                if lit {
                    '█'
                } else {
                    '░'
                },
            ]
            &&& style.fg == (if lit {
                shades[head - i]
            } else {
                PANEL_HI
            })
        }),
{
    assert(light_head(area.width, sweep) == sweep as int % (area.width + light_length(area.width)));
}

/// A line of the logo stands in its row, each character in its place, as far as it lies in the area.
pub proof fn law_logo_lines_stand_in_their_places(
    area: Rect,
    x: int,
    y: int,
    line: Seq<char>,
    style: super::canvas::Style,
    k: int,
)
    requires
        area.x + area.width <= u16::MAX,
        0 <= k < line_cells(area, x, y, line, style).len(),
    ensures
        ({
            let skipped = if x < area.x {
                area.x - x
            } else {
                0
            };
            &&& line_cells(area, x, y, line, style)[k] == (DrawModel::Cell {
                x: (x + skipped + k) as u16,
                y: y as u16,
                ch: line[skipped + k],
                style,
            })
            &&& skipped + k < line.len()
            &&& area.y <= y < area.y + area.height
        }),
{
}

/// What is moved stays where places can be counted.
pub proof fn law_moves_stop_at_the_edge(x: u16, shift: int)
    ensures
        0 <= x + shift <= u16::MAX ==> moved(x, shift) == x + shift,
        x + shift < 0 ==> moved(x, shift) == 0,
        x + shift > u16::MAX ==> moved(x, shift) == u16::MAX,
{
}

/// Glitches are short and near: a burst lasts less than fifteen frames of its turn, a line is jolted by
/// at most seven places, and colours and characters come from those that are meant for it.
pub proof fn law_glitches_are_short_and_near(frame: u64, row: u32, seed: u32)
    ensures
        burst(frame) matches Some(b) ==> b < 15 && exists|period: u64|
            62 <= period <= 118 && b == #[trigger] (frame % period),
        -7 <= jolt(frame, row) <= 7,
        glitch(seed) == BRAND_A || glitch(seed) == BRAND_B || glitch(seed) == ACCENT_AMBER || glitch(seed)
            == ACCENT_VIOLET || glitch(seed) == BLOOM_BONE,
        seq!['@', '#', '$', '%', '&', '?', '!', '<', '>', '{', '}', '[', ']'].contains(junk(seed)),
{
    let period = (62 + mixed((frame / 211) as u32) % 57) as u64;
    assert(62 <= period <= 118);
    assert(burst(frame) matches Some(b) ==> b == frame % period);
    let all = seq!['@', '#', '$', '%', '&', '?', '!', '<', '>', '{', '}', '[', ']'];
    assert(all[(seed % 13) as int] == junk(seed));
}

} // verus!
