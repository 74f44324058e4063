//! Whatever the launcher shows, it shows inside the window.

use vstd::prelude::*;

use super::app::{AppModel, Screen};
use super::brand::Rgb;
use super::canvas::{all_stay_in, stays_in, DrawModel, Rect, Style};
use super::layout::is_middle_of;
use super::logo::{countable, law_logo_stays_in_its_area, lemma_stay_concat, logo_cells};
use super::prepare::BuildSnapshot;
use super::screens::{
    block, body, build_screen, elapsed_of, error_screen, footer, form_area, form_screen, framed, header,
    identity_screen, inner_area, is_too_small, logo_area, logo_is_shown, needs_middle, ready_rows,
    ready_screen, section_title, start_button, suits, too_small, two_columns, welcome_with_logo,
    welcome_without_logo, Scene,
};
use crate::text::views;

verus! {

/// What lies in a window that lies in another lies in that.
proof fn lemma_stay_in_outer(s: Seq<DrawModel>, inner: Rect, outer: Rect)
    requires
        all_stay_in(s, inner),
        inner.lies_in(outer),
    ensures
        all_stay_in(s, outer),
{
    assert forall|i: int| 0 <= i < s.len() implies stays_in(#[trigger] s[i], outer) by {
        assert(stays_in(s[i], inner));
    }
}

proof fn lemma_title_stays(area: Rect, title: Seq<char>)
    requires
        area.counts(),
        area.width >= 4,
        area.height >= 3,
    ensures
        all_stay_in(section_title(area, title), area),
{
}

proof fn lemma_block_stays(
    column: int,
    y: int,
    lines: Seq<Seq<char>>,
    style: Style,
    window: Rect,
)
    requires
        window.counts(),
        window.x == 0,
        0 <= column <= u16::MAX,
        window.y <= y,
        y + lines.len() <= window.y + window.height,
    ensures
        all_stay_in(block(column, y, lines, style), window),
{
}

proof fn lemma_columns_stay(
    area: Rect,
    y: int,
    rows: Seq<(Seq<char>, Seq<char>)>,
    window: Rect,
)
    requires
        window.counts(),
        area.x + 22 <= u16::MAX,
        window.x <= area.x,
        window.y <= y,
        y + rows.len() <= window.y + window.height,
    ensures
        all_stay_in(two_columns(area, y, rows), window),
    decreases rows.len(),
{
    if rows.len() > 0 {
        lemma_columns_stay(area, y, rows.drop_last(), window);
    }
}

/// The start button of the form.
pub open spec fn is_start_button(d: DrawModel, m: AppModel, area: Rect) -> bool {
    d == start_button(form_area(area), m.form.focus)
}

proof fn lemma_form_stays(m: AppModel, area: Rect, window: Rect)
    requires
        window.counts(),
        area.lies_in(window),
        area.width >= 4,
        area.height >= 22,
        area.y + 26 <= u16::MAX,
    ensures
        area.y + 26 <= window.y + window.height ==> all_stay_in(form_screen(m, area), window),
        forall|i: int|
            0 <= i < form_screen(m, area).len() ==> stays_in(#[trigger] form_screen(m, area)[i], window)
                || is_start_button(form_screen(m, area)[i], m, area),
{
    lemma_title_stays(area, "Configure Your Node"@);
    lemma_stay_in_outer(section_title(area, "Configure Your Node"@), area, window);
}

proof fn lemma_identity_stays(m: AppModel, area: Rect, window: Rect)
    requires
        window.counts(),
        window.x == 0,
        area.lies_in(window),
        area.width >= 4,
        area.height >= 12,
    ensures
        all_stay_in(identity_screen(m, area), window),
{
    lemma_title_stays(area, "Node Identity"@);
    lemma_stay_in_outer(section_title(area, "Node Identity"@), area, window);
    lemma_block_stays(
        super::screens::middle_column(area),
        area.y + 9,
        super::screens::identity_note(),
        super::canvas::ink(super::brand::DIM),
        window,
    );
}

proof fn lemma_build_stays(
    frame: u64,
    build: Option<BuildSnapshot>,
    area: Rect,
    sweep: usize,
    shades: Seq<Rgb>,
    elapsed: Seq<char>,
    window: Rect,
)
    requires
        window.counts(),
        window.x == 0,
        area.lies_in(window),
        area.width >= 8,
        area.height >= 14,
    ensures
        all_stay_in(build_screen(frame, build, area, sweep, shades, elapsed), window),
{
    lemma_title_stays(area, "Compile Training Engine"@);
    lemma_stay_in_outer(section_title(area, "Compile Training Engine"@), area, window);
}

proof fn lemma_ready_stays(m: AppModel, area: Rect, manifest_dir: Seq<char>, window: Rect)
    requires
        window.counts(),
        window.x == 0,
        area.lies_in(window),
        area.width >= 22,
        area.height >= 10,
    ensures
        all_stay_in(ready_screen(m, area, manifest_dir), window),
{
    lemma_title_stays(area, "Ready to Train"@);
    lemma_stay_in_outer(section_title(area, "Ready to Train"@), area, window);
    lemma_columns_stay(area, area.y + 4, ready_rows(m, manifest_dir), window);
}

proof fn lemma_error_stays(m: AppModel, area: Rect, window: Rect)
    requires
        window.counts(),
        window.x == 0,
        area.lies_in(window),
        area.width >= 4,
        area.height >= 10,
    ensures
        all_stay_in(error_screen(m, area), window),
{
    lemma_title_stays(area, "Build Failed"@);
    lemma_stay_in_outer(section_title(area, "Build Failed"@), area, window);
}

proof fn lemma_welcome_stays(
    area: Rect,
    host: Seq<char>,
    logo: Seq<Seq<char>>,
    frame: u64,
    glow: Style,
    window: Rect,
)
    requires
        window.counts(),
        window.x == 0,
        area.lies_in(window),
        area.height >= 17,
        countable(logo),
        logo_is_shown(area, logo),
    ensures
        all_stay_in(welcome_with_logo(area, host, logo, frame, glow), window),
{
    let at = logo_area(area, logo);
    assert(at.lies_in(area));
    law_logo_stays_in_its_area(at, logo, frame, glow);
    lemma_stay_in_outer(logo_cells(at, logo, frame, glow), at, window);
}

proof fn lemma_welcome_text_stays(mid: Rect, host: Seq<char>, window: Rect)
    requires
        window.counts(),
        window.x == 0,
        mid.lies_in(window),
        mid.height >= 9,
    ensures
        all_stay_in(welcome_without_logo(mid, host), window),
{
    lemma_block_stays(
        super::screens::middle_column(mid),
        mid.y + 3,
        super::screens::long_pitch(),
        super::canvas::ink(super::brand::INK),
        window,
    );
}

proof fn lemma_frame_stays(m: AppModel, area: Rect, shown: Seq<DrawModel>)
    requires
        area.counts(),
        area.x == 0,
        area.y == 0,
        !is_too_small(area),
        all_stay_in(shown, area),
    ensures
        all_stay_in(framed(m, area, shown), area),
{
    assert(super::screens::WORDMARK@.len() == 15) by {
        reveal_strlit("◆ AETHERCOMPUTE");
    }
    assert(all_stay_in(header(area, m.host_summary, m.screen), area));
    assert(all_stay_in(footer(area, m.screen), area));
    lemma_stay_concat(header(area, m.host_summary, m.screen), shown, area);
    lemma_stay_concat(
        header(area, m.host_summary, m.screen) + shown,
        footer(area, m.screen),
        area,
    );
}

/// What is around a screen stays in the window, whatever the screen shows.
proof fn lemma_frame_around(m: AppModel, area: Rect, shown: Seq<DrawModel>)
    requires
        area.counts(),
        area.x == 0,
        area.y == 0,
        !is_too_small(area),
    ensures
        forall|i: int|
            0 <= i < framed(m, area, shown).len() ==> stays_in(#[trigger] framed(m, area, shown)[i], area)
                || shown.contains(framed(m, area, shown)[i]),
{
    lemma_frame_stays(m, area, Seq::empty());
    let head = header(area, m.host_summary, m.screen);
    let foot = footer(area, m.screen);
    let bare = framed(m, area, Seq::empty());
    let all = framed(m, area, shown);
    assert(bare =~= head + foot);
    assert(all =~= head + shown + foot);
    assert forall|i: int| 0 <= i < all.len() implies stays_in(#[trigger] all[i], area)
        || shown.contains(all[i]) by {
        if i < head.len() {
            assert(all[i] == bare[i]);
        } else if i < head.len() + shown.len() {
            assert(all[i] == shown[i - head.len()]);
        } else {
            assert(all[i] == bare[i - shown.len()]);
        }
    }
}

/// Every screen stays in a window that is large enough for it, whatever the launcher's state: no
/// text begins outside its rows, no character stands outside its places, and no panel reaches beyond.
/// Of the form, the start button alone may do so, where the window has fewer than thirty rows.
pub proof fn law_screens_stay_in_the_window(m: AppModel, area: Rect, scene: Scene, mid: Rect)
    requires
        area.x == 0,
        area.y == 0,
        !is_too_small(area),
        suits(scene, area),
    ensures
        !needs_middle(m, area, scene) && (m.screen != Screen::Form || area.height >= 30)
            ==> all_stay_in(framed(m, area, body(m, inner_area(area), scene)), area),
        m.screen == Screen::Form ==> forall|i: int|
            0 <= i < framed(m, area, body(m, inner_area(area), scene)).len() ==> stays_in(
                #[trigger] framed(m, area, body(m, inner_area(area), scene))[i],
                area,
            ) || is_start_button(
                framed(m, area, body(m, inner_area(area), scene))[i],
                m,
                inner_area(area),
            ),
        is_middle_of(mid, inner_area(area)) ==> all_stay_in(
            framed(m, area, welcome_without_logo(mid, m.host_summary)),
            area,
        ),
{
    let inner = inner_area(area);
    assert(inner.lies_in(area));
    if !needs_middle(m, area, scene) {
        match m.screen {
            Screen::Welcome => {
                lemma_welcome_stays(
                    inner,
                    m.host_summary,
                    views(scene.logo@),
                    m.frame,
                    scene.glow,
                    area,
                );
            },
            Screen::Form => {
                lemma_form_stays(m, inner, area);
                lemma_frame_around(m, area, body(m, inner, scene));
            },
            Screen::Identity => {
                lemma_identity_stays(m, inner, area);
            },
            Screen::Build => {
                lemma_build_stays(
                    m.frame,
                    m.build,
                    inner,
                    scene.sweep,
                    scene.shades@,
                    elapsed_of(m.build),
                    area,
                );
            },
            Screen::Ready => {
                lemma_ready_stays(m, inner, scene.manifest_dir@, area);
            },
            Screen::Error => {
                lemma_error_stays(m, inner, area);
            },
        }
        if m.screen != Screen::Form || area.height >= 30 {
            lemma_frame_stays(m, area, body(m, inner, scene));
        }
    }
    if is_middle_of(mid, inner) {
        lemma_welcome_text_stays(mid, m.host_summary, area);
        lemma_frame_stays(m, area, welcome_without_logo(mid, m.host_summary));
    }
}

/// What asks for a larger window stays in the one there is.
pub proof fn law_the_guard_stays_in_the_window(area: Rect)
    requires
        area.counts(),
        area.height > 0,
    ensures
        all_stay_in(too_small(area), area),
{
}

} // verus!
