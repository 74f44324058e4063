use aether::keys::{Key, KeyPress};
use aether::volunteer::app::{App, ClientFacts, Flow, Screen};
use aether::volunteer::brand::{BRAND_A, DIM, INK, PANEL_HI, WARN};
use aether::volunteer::canvas::{plain_style, str_w, Canvas, Draw, Rect};
use aether::volunteer::detect::{detect_devices, DeviceOption, Gpu};
use aether::volunteer::layout::{between, middle, topmost, whole};
use aether::volunteer::prepare::{BuildSnapshot, BuildState};
use aether::volunteer::screens::{
    bar_light, draw_build, draw_centered_line, draw_progress_bar, mentions_text, Scene,
};
use ratatui::backend::TestBackend;
use ratatui::buffer::Buffer;
use ratatui::style::{Color, Style};
use ratatui::Terminal;

const DIR: &str = "/repo/architectures/centralized/volunteer";

fn press(key: Key) -> KeyPress {
    KeyPress { key, control: false }
}

fn new_app() -> App {
    App::new("Linux x86_64".to_string(), detect_devices(&vec![], false), &vec![])
}

fn scene() -> Scene {
    Scene {
        manifest_dir: DIR.to_string(),
        logo: vec!["####".to_string(), "#  #".to_string()],
        glow: plain_style(INK),
        sweep: 7,
        shades: vec![BRAND_A; 10],
    }
}

fn snap(state: BuildState, lines: &[&str]) -> BuildSnapshot {
    BuildSnapshot {
        state,
        elapsed: 1_500_000_000,
        lines: lines.iter().map(|l| l.to_string()).collect(),
        compiles: 12,
        crate_name: "client".to_string(),
    }
}

/// Puts what is to be drawn into a terminal's buffer.
fn paint(canvas: &Canvas, buffer: &mut Buffer) {
    for draw in &canvas.draws {
        match draw {
            Draw::Text { x, y, text, style } => {
                let (r, g, b) = style.fg;
                buffer.set_string(*x, *y, text, Style::default().fg(Color::Rgb(r, g, b)));
            }
            Draw::Cell { x, y, ch, style } => {
                let (r, g, b) = style.fg;
                buffer[(*x, *y)].set_char(*ch).set_style(Style::default().fg(Color::Rgb(r, g, b)));
            }
            Draw::Panel { .. } => {}
        }
    }
}

fn texts(canvas: &Canvas) -> Vec<(u16, u16, &str)> {
    canvas
        .draws
        .iter()
        .filter_map(|d| match d {
            Draw::Text { x, y, text, .. } => Some((*x, *y, text.as_str())),
            _ => None,
        })
        .collect()
}

#[test]
fn renders_every_screen_without_panic() {
    let mut app = new_app();
    let mut term = Terminal::new(TestBackend::new(110, 32)).unwrap();
    let screens = [
        Screen::Welcome,
        Screen::Form,
        Screen::Identity,
        Screen::Build,
        Screen::Ready,
        Screen::Error,
    ];
    for screen in screens {
        app.screen = screen;
        app.frame = 12;
        term.draw(|f| {
            let a = f.area();
            let mut canvas = Canvas::new();
            let area = Rect { x: a.x, y: a.y, width: a.width, height: a.height };
            app.render(&mut canvas, area, &scene());
            paint(&canvas, f.buffer_mut());
        })
        .unwrap();
    }
}

#[test]
fn renders_too_small_guard() {
    let app = new_app();
    let mut term = Terminal::new(TestBackend::new(40, 8)).unwrap();
    term.draw(|f| {
        let a = f.area();
        let mut canvas = Canvas::new();
        let area = Rect { x: a.x, y: a.y, width: a.width, height: a.height };
        app.render(&mut canvas, area, &scene());
        assert_eq!(
            texts(&canvas),
            vec![(0, 4, "please resize your terminal (need ≥78x28, have 40x8)")]
        );
        paint(&canvas, f.buffer_mut());
    })
    .unwrap();
}

#[test]
fn form_validation_rejects_bad_port() {
    let mut app = new_app();
    app.screen = Screen::Form;
    app.form.server_port = "notaport".to_string();
    app.form.focus = 6; // Start button
    let flow = app.handle_key(press(Key::Enter), DIR);
    assert!(matches!(flow, Flow::Continue));
    assert_eq!(app.screen, Screen::Form); // did not advance
}

#[test]
fn below_min_gpu_blocks_start_and_clears_on_change() {
    let mut app = new_app();
    app.screen = Screen::Form;
    app.devices = vec![
        DeviceOption { value: "auto".into(), label: "Auto".into(), tag: "AUTO", vram_mib: None },
        DeviceOption { value: "cuda:0".into(), label: "Weak GPU".into(), tag: "CUDA", vram_mib: Some(2048) },
        DeviceOption { value: "cuda:1".into(), label: "Big GPU".into(), tag: "CUDA", vram_mib: Some(24 * 1024) },
    ];
    // Select the GPU below the minimum and press Start (focus 6 = Start button).
    app.form.device_idx = 1;
    app.form.focus = 6;
    let flow = app.handle_key(press(Key::Enter), DIR);
    assert!(matches!(flow, Flow::Continue));
    assert_eq!(app.screen, Screen::Form); // gated — did not advance
    assert!(app.form_error.is_some());
    assert_eq!(
        app.form_error.as_deref(),
        Some("cuda:0 (2048 MiB) is below the 4096 MiB minimum — choose another device.")
    );

    // Moving to a qualifying GPU clears the error.
    app.cycle_device(1);
    assert_eq!(app.form.device_idx, 2);
    assert!(app.form_error.is_none());
}

#[test]
fn devices_go_round_in_both_directions() {
    let mut app = new_app();
    app.devices = vec![
        DeviceOption { value: "a".into(), label: "A".into(), tag: "A", vram_mib: None },
        DeviceOption { value: "b".into(), label: "B".into(), tag: "B", vram_mib: None },
        DeviceOption { value: "c".into(), label: "C".into(), tag: "C", vram_mib: None },
    ];
    app.cycle_device(-1);
    assert_eq!(app.form.device_idx, 2);
    app.cycle_device(1);
    assert_eq!(app.form.device_idx, 0);
    app.cycle_device(-5);
    assert_eq!(app.form.device_idx, 1);
    app.cycle_device(3);
    assert_eq!(app.form.device_idx, 1);
    app.devices = vec![];
    app.cycle_device(1);
    assert_eq!(app.form.device_idx, 1);
}

#[test]
fn the_form_begins_with_what_suits_the_best_card() {
    let gpus = vec![
        Gpu { index: 0, name: "small".into(), vram_mib: Some(6 * 1024) },
        Gpu { index: 1, name: "large".into(), vram_mib: Some(20 * 1024) },
    ];
    let app = App::new("h".to_string(), detect_devices(&gpus, false), &gpus);
    assert_eq!(app.form.micro_batch, "4");
    assert_eq!(app.screen, Screen::Welcome);
    assert_eq!(app.form.focus, 0);
    let weak = vec![Gpu { index: 0, name: "weak".into(), vram_mib: Some(1024) }];
    let app = App::new("h".to_string(), detect_devices(&weak, false), &weak);
    assert_eq!(app.form.micro_batch, new_app().form.micro_batch);
}

#[test]
fn keys_lead_from_screen_to_screen() {
    let mut app = new_app();
    assert!(matches!(app.handle_key(press(Key::Other), DIR), Flow::Continue));
    assert_eq!(app.screen, Screen::Welcome);
    app.handle_key(press(Key::Enter), DIR);
    assert_eq!(app.screen, Screen::Form);
    for _ in 0..6 {
        app.handle_key(press(Key::Enter), DIR);
    }
    assert_eq!(app.form.focus, 6);
    let path = match app.handle_key(press(Key::Enter), DIR) {
        Flow::EnsureIdentity { path } => path,
        other => panic!("{other:?}"),
    };
    assert!(path.starts_with("/repo/"));
    assert!(path.ends_with("/identity.key"));
    app.identity_ensured(path.clone(), Err("read-only".to_string()));
    assert_eq!(app.screen, Screen::Form);
    assert_eq!(app.identity_error.as_deref(), Some("read-only"));
    app.identity_ensured(path.clone(), Ok(true));
    assert_eq!(app.screen, Screen::Identity);
    assert_eq!(app.identity_created, Some(true));
    assert!(app.identity_error.is_none());
    app.handle_key(press(Key::Char('b')), DIR);
    assert_eq!(app.screen, Screen::Form);
    app.screen = Screen::Identity;
    assert!(matches!(app.handle_key(press(Key::Enter), DIR), Flow::InspectClient));
    let stale = ClientFacts { exists: true, runs: true, torch_changed: true };
    assert_eq!(app.begin_build(stale), Some(true));
    assert_eq!(app.screen, Screen::Build);
    assert!(matches!(app.handle_key(press(Key::Enter), DIR), Flow::Continue));
    app.auto_advance(snap(BuildState::Running, &[]), false);
    assert_eq!(app.screen, Screen::Build);
    assert_eq!(app.build_elapsed, 1_500_000_000);
    app.auto_advance(snap(BuildState::Failed("exit 101".to_string()), &[]), false);
    assert_eq!(app.screen, Screen::Error);
    assert_eq!(app.build_failed_msg, "exit 101");
    assert!(matches!(app.handle_key(press(Key::Char('r')), DIR), Flow::InspectClient));
    assert_eq!(app.build_failed_msg, "");
    let missing = ClientFacts { exists: false, runs: false, torch_changed: false };
    assert_eq!(app.begin_build(missing), Some(false));
    app.auto_advance(snap(BuildState::Success, &[]), false);
    assert_eq!(app.screen, Screen::Error);
    assert_eq!(app.build_failed_msg, "build finished but the binary still fails to load libtorch");
    app.begin_build(missing);
    app.auto_advance(snap(BuildState::Success, &[]), true);
    assert_eq!(app.screen, Screen::Ready);
    match app.handle_key(press(Key::Enter), DIR) {
        Flow::Launch(cfg) => {
            assert_eq!(cfg.identity_key, path);
            assert!(cfg.log_file.ends_with("/logs/client.log"));
            assert_eq!(cfg.device, "auto");
            assert_eq!(cfg.run_id, app.form.run_id);
            assert_eq!(
                cfg.server_addr,
                format!("{}:{}", app.form.server_host, app.form.server_port)
            );
        }
        other => panic!("{other:?}"),
    }
    assert!(app.launch.is_some());
}

#[test]
fn a_client_that_is_fine_is_used_as_it_is() {
    let mut app = new_app();
    app.screen = Screen::Identity;
    let fine = ClientFacts { exists: true, runs: true, torch_changed: false };
    assert_eq!(app.begin_build(fine), None);
    assert_eq!(app.screen, Screen::Ready);
}

#[test]
fn ports_are_printed_as_numbers() {
    let mut app = new_app();
    app.screen = Screen::Ready;
    app.form.server_host = "host".to_string();
    app.form.server_port = "00039".to_string();
    match app.handle_key(press(Key::Enter), DIR) {
        Flow::Launch(cfg) => assert_eq!(cfg.server_addr, "host:39"),
        other => panic!("{other:?}"),
    }
    app.form.server_port = "70000".to_string();
    assert!(matches!(app.handle_key(press(Key::Enter), DIR), Flow::Continue));
}

#[test]
fn control_and_c_quit_everywhere() {
    for screen in [
        Screen::Welcome,
        Screen::Form,
        Screen::Identity,
        Screen::Build,
        Screen::Ready,
        Screen::Error,
    ] {
        let mut app = new_app();
        app.screen = screen;
        let flow = app.handle_key(KeyPress { key: Key::Char('c'), control: true }, DIR);
        assert!(matches!(flow, Flow::Quit));
        assert_eq!(app.screen, screen);
    }
}

#[test]
fn fields_take_what_belongs_in_them() {
    let mut app = new_app();
    app.screen = Screen::Form;
    app.form.run_id = String::new();
    for c in ['a', ' ', '_', 'é', '-', '7'] {
        app.handle_key(press(Key::Char(c)), DIR);
    }
    assert_eq!(app.form.run_id, "a_-7");
    app.handle_key(press(Key::Backspace), DIR);
    assert_eq!(app.form.run_id, "a_-");
    app.form.focus = 1;
    assert!(!app.accept_char('_'));
    assert!(app.accept_char('.'));
    app.form.focus = 2;
    assert!(!app.accept_char('x'));
    assert!(app.accept_char('0'));
    app.form.focus = 4;
    assert!(!app.accept_char('0'));
    assert!(app.text_field_mut().is_none());
    app.form.focus = 5;
    app.form.micro_batch = String::new();
    app.handle_key(press(Key::Backspace), DIR);
    assert_eq!(app.form.micro_batch, "");
    app.form.focus = 6;
    assert!(matches!(app.handle_key(press(Key::Char('q')), DIR), Flow::Quit));
    app.form.focus = 0;
    assert!(matches!(app.handle_key(press(Key::Char('q')), DIR), Flow::Continue));
    assert_eq!(app.form.run_id, "a_-q");
}

#[test]
fn the_focus_goes_round() {
    let mut app = new_app();
    app.screen = Screen::Form;
    app.handle_key(press(Key::Up), DIR);
    assert_eq!(app.form.focus, 6);
    app.handle_key(press(Key::Down), DIR);
    assert_eq!(app.form.focus, 0);
    for _ in 0..7 {
        app.handle_key(press(Key::Tab), DIR);
    }
    assert_eq!(app.form.focus, 0);
    for _ in 0..7 {
        assert!(matches!(app.handle_form_key(Key::Down, DIR), Flow::Continue));
    }
    assert_eq!(app.form.focus, 0);
    app.handle_form_key(Key::Up, DIR);
    app.handle_form_key(Key::Down, DIR);
    assert_eq!(app.form.focus, 0);
}

#[test]
fn blank_fields_do_not_start() {
    for field in 0..4 {
        let mut app = new_app();
        app.screen = Screen::Form;
        app.form.focus = 6;
        match field {
            0 => app.form.run_id = "  ".to_string(),
            1 => app.form.server_host = String::new(),
            2 => app.form.server_port = "65536".to_string(),
            _ => app.form.micro_batch = String::new(),
        }
        assert!(matches!(app.handle_key(press(Key::Enter), DIR), Flow::Continue));
        assert_eq!(app.screen, Screen::Form);
    }
}

#[test]
fn frames_are_counted_without_an_end() {
    let mut app = new_app();
    app.tick();
    assert_eq!(app.frame, 1);
    app.frame = u64::MAX;
    app.tick();
    assert_eq!(app.frame, 0);
}

#[test]
fn rows_are_split_as_asked() {
    let area = Rect { x: 3, y: 5, width: 90, height: 40 };
    assert_eq!(between(area, 4, 1), Rect { x: 3, y: 9, width: 90, height: 35 });
    assert_eq!(topmost(area, 4), Rect { x: 3, y: 5, width: 90, height: 4 });
    assert_eq!(whole(area), area);
    assert_eq!(middle(area), Rect { x: 3, y: 13, width: 90, height: 24 });
    let odd = middle(Rect { x: 0, y: 4, width: 78, height: 23 });
    assert_eq!((odd.x, odd.width), (0, 78));
    assert!((100 * odd.height as i32 - 60 * 23).abs() <= 100);
    assert!((100 * (odd.y as i32 - 4) - 20 * 23).abs() <= 100);
    assert!(odd.y >= 4 && odd.y + odd.height <= 27);
    let exact = Rect { x: 0, y: 0, width: 10, height: 5 };
    assert_eq!(between(exact, 4, 1), Rect { x: 0, y: 4, width: 10, height: 0 });
}

#[test]
fn nothing_is_drawn_outside_the_window() {
    for (width, height) in [(78u16, 28u16), (110, 32), (200, 60)] {
        let area = Rect { x: 0, y: 0, width, height };
        for screen in [
            Screen::Welcome,
            Screen::Form,
            Screen::Identity,
            Screen::Build,
            Screen::Ready,
            Screen::Error,
        ] {
            for logo in [vec![], vec!["#".repeat(70); 9], vec!["#".repeat(300); 3]] {
                let mut app = new_app();
                app.screen = screen;
                app.frame = 120;
                app.identity_path = Some("/k".to_string());
                app.identity_error = Some("e".to_string());
                app.form_error = Some("f".to_string());
                app.build = Some(snap(BuildState::Running, &["a", "b"]));
                let mut canvas = Canvas::new();
                app.render(&mut canvas, area, &Scene { logo, ..scene() });
                for draw in &canvas.draws {
                    match draw {
                        Draw::Text { y, .. } => assert!(*y < height),
                        Draw::Cell { x, y, .. } => assert!(*x < width && *y < height),
                        Draw::Panel { .. } => {}
                    }
                }
            }
        }
    }
}

#[test]
fn the_header_tells_the_step() {
    let mut app = new_app();
    app.screen = Screen::Identity;
    let mut canvas = Canvas::new();
    app.render(&mut canvas, Rect { x: 0, y: 0, width: 80, height: 30 }, &scene());
    let texts = texts(&canvas);
    assert_eq!(texts[0], (3, 1, "◆ AETHERCOMPUTE"));
    assert_eq!(texts[1], (20, 1, "Linux x86_64"));
    assert_eq!(texts[2], (65, 1, "Step 3/5 of 5"));
    assert!(texts.contains(&(2, 5, "Node Identity")));
    assert!(texts.contains(&(36, 8, "Identity")));
    assert_eq!(texts[texts.len() - 1], (61, 29, "aethercompute.org"));
}

#[test]
fn the_form_shows_its_fields() {
    let mut app = new_app();
    app.screen = Screen::Form;
    app.form.focus = 2;
    app.form.server_port = "39405".to_string();
    let mut canvas = Canvas::new();
    app.render_form(&mut canvas, Rect { x: 0, y: 4, width: 80, height: 30 });
    let panels: Vec<&Draw> =
        canvas.draws.iter().filter(|d| matches!(d, Draw::Panel { .. })).collect();
    assert_eq!(panels.len(), 7);
    match panels[2] {
        Draw::Panel { area, border, title, lines, centered, fill } => {
            assert_eq!(*area, Rect { x: 2, y: 14, width: 76, height: 3 });
            assert_eq!(*border, DIM);
            assert_eq!(*title, Some((" Server Port ".to_string(), INK)));
            assert_eq!(*lines, vec![("39405".to_string(), INK)]);
            assert!(!*centered && fill.is_none());
        }
        _ => unreachable!(),
    }
    match panels[6] {
        Draw::Panel { area, border, lines, centered, .. } => {
            assert_eq!(area.y, 27);
            assert_eq!(*border, PANEL_HI);
            assert_eq!(*lines, vec![("Start Training".to_string(), DIM)]);
            assert!(*centered);
        }
        _ => unreachable!(),
    }
}

#[test]
fn the_build_shows_how_long_it_takes() {
    let mut app = new_app();
    app.screen = Screen::Build;
    app.frame = 13;
    app.build = Some(snap(BuildState::Running, &["fine", "error: no", "warning: x"]));
    let mut canvas = Canvas::new();
    app.render_build(&mut canvas, Rect { x: 0, y: 4, width: 80, height: 25 }, &scene());
    let shown = texts(&canvas);
    assert!(shown.contains(&(4, 12, "Elapsed 1.5s")));
    assert!(shown.iter().any(|t| t.2 == "Compiling 12 crates…"));
    assert!(shown.iter().any(|t| t.2 == "⠸"));
    match &canvas.draws[canvas.draws.len() - 1] {
        Draw::Panel { lines, area, .. } => {
            let colors: Vec<(u8, u8, u8)> = lines.iter().map(|l| l.1).collect();
            assert_eq!(colors, vec![DIM, WARN, WARN]);
            assert_eq!(*area, Rect { x: 4, y: 14, width: 72, height: 12 });
        }
        _ => unreachable!(),
    }
    let mut canvas = Canvas::new();
    let done = Some(snap(BuildState::Success, &[]));
    draw_build(&mut canvas, Rect { x: 0, y: 4, width: 80, height: 25 }, 0, &done, &scene(), "9s");
    let shown = texts(&canvas);
    assert!(shown.iter().any(|t| t.2 == "Engine ready"));
    assert!(shown.iter().any(|t| t.2 == "Elapsed 9s"));
}

#[test]
fn the_last_screen_shows_what_is_launched() {
    let mut app = new_app();
    app.screen = Screen::Ready;
    app.form.server_host = "h".to_string();
    app.form.server_port = "1".to_string();
    app.identity_path = Some("/id".to_string());
    let mut canvas = Canvas::new();
    app.render_ready(&mut canvas, Rect { x: 0, y: 4, width: 80, height: 25 }, &scene());
    let shown = texts(&canvas);
    assert!(shown.contains(&(6, 9, "Server")));
    assert!(shown.contains(&(22, 9, "h:1")));
    assert!(shown.contains(&(22, 12, "/id")));
    assert!(shown.contains(&(6, 13, "Engine")));
    assert!(shown.iter().any(|t| t.1 == 13 && t.2.starts_with("/repo/target/release/")));
    app.identity_path = None;
    let mut canvas = Canvas::new();
    app.render_ready(&mut canvas, Rect { x: 0, y: 4, width: 80, height: 25 }, &scene());
    assert!(texts(&canvas).contains(&(6, 12, "Engine")));
}

#[test]
fn the_welcome_shows_the_logo_where_it_fits() {
    let app = new_app();
    let area = Rect { x: 0, y: 4, width: 80, height: 25 };
    let mut canvas = Canvas::new();
    app.render_welcome(&mut canvas, area, &scene());
    let shown = texts(&canvas);
    assert!(shown.iter().any(|t| t.2 == "Donate idle compute to train open foundation models."));
    assert!(shown.contains(&(23, 28, "Press Enter to configure your node")));
    assert!(canvas.draws.iter().any(|d| matches!(d, Draw::Cell { ch: '#', .. })));
    let wide = Scene { logo: vec!["#".repeat(81)], ..scene() };
    let mut canvas = Canvas::new();
    app.render_welcome(&mut canvas, area, &wide);
    let shown = texts(&canvas);
    assert_eq!(shown[0], (33, 9, "◆ AETHERCOMPUTE"));
    assert_eq!(shown[1].2, "Donate your idle GPU to train open foundation models.");
    assert_eq!((shown[1].0, shown[1].1), (10, 12));
    assert!(shown.iter().any(|t| t.2 == "Host: Linux x86_64"));
}

#[test]
fn the_light_runs_along_the_bar() {
    let bar = Rect { x: 2, y: 1, width: 5, height: 1 };
    let shades = vec![(0, 0, 0), (1, 1, 1), (2, 2, 2), (3, 3, 3), (4, 4, 4)];
    let mut canvas = Canvas::new();
    draw_progress_bar(&mut canvas, bar, 12, &shades);
    let shown: String = texts(&canvas).iter().map(|t| t.2).collect();
    assert_eq!(shown, "███░░");
    match &canvas.draws[0] {
        Draw::Text { style, .. } => assert_eq!(style.fg, (2, 2, 2)),
        _ => unreachable!(),
    }
    assert_eq!(bar_light(5), 5);
    assert_eq!(bar_light(50), 10);
    let mut canvas = Canvas::new();
    draw_progress_bar(&mut canvas, Rect { x: 0, y: 0, width: 0, height: 1 }, 3, &vec![]);
    assert!(canvas.draws.is_empty());
}

#[test]
fn lines_below_the_area_are_left_out() {
    let area = Rect { x: 10, y: 2, width: 20, height: 3 };
    let mut canvas = Canvas::new();
    draw_centered_line(&mut canvas, area, 5, "gone", plain_style(INK));
    assert!(canvas.draws.is_empty());
    draw_centered_line(&mut canvas, area, 4, "here", plain_style(INK));
    assert_eq!(texts(&canvas), vec![(18, 4, "here")]);
    assert_eq!(str_w("é·—"), 3);
}

#[test]
fn texts_are_searched() {
    assert!(mentions_text("an error here", "error"));
    assert!(mentions_text("error", "error"));
    assert!(!mentions_text("err or", "error"));
    assert!(!mentions_text("er", "error"));
    assert!(mentions_text("x", ""));
    assert!(mentions_text("aab", "ab"));
}

#[test]
fn a_failed_build_is_explained() {
    let mut app = new_app();
    app.screen = Screen::Error;
    app.build_failed_msg = "exit 101".to_string();
    app.build = Some(snap(BuildState::Failed("exit 101".to_string()), &["last words"]));
    let mut canvas = Canvas::new();
    app.render_error(&mut canvas, Rect { x: 0, y: 4, width: 80, height: 25 });
    assert!(texts(&canvas).contains(&(2, 8, "exit 101")));
    let lines: Vec<&Draw> =
        canvas.draws.iter().filter(|d| matches!(d, Draw::Panel { .. })).collect();
    match lines[0] {
        Draw::Panel { lines, area, .. } => {
            assert_eq!(*lines, vec![("last words".to_string(), INK)]);
            assert_eq!(*area, Rect { x: 2, y: 10, width: 76, height: 16 });
        }
        _ => unreachable!(),
    }
}
