use aether::volunteer::brand::{ACCENT_AMBER, ACCENT_VIOLET, BLOOM_BONE, BRAND_A, BRAND_B, INK};
use aether::volunteer::canvas::{plain_style, Canvas, Draw, Rect};
use aether::volunteer::config::{
    client_bin, repo_root, sandbox_cargo_home, sandbox_dir, sandbox_rustup_home, sandbox_venv,
    slot_dir, LaunchConfig,
};
use aether::volunteer::detect::{
    best_gpu_vram_mib, detect_devices, host_summary, is_apple_silicon, parse_nvidia, Gpu,
};
use aether::volunteer::logo::{
    burst_frame, draw, flicker_hidden_line, glitch_color, hash, height, line_shift, lines,
    shifted_x, width,
};
use aether::volunteer::paths::{ancestor_of, join_path, parent_of};
use aether::volunteer::prepare::{
    build_args, clean_args, missing_client_message, parse_torch_dirs, python_candidates,
    sandboxed_cargo, sandboxed_python, torch_changed_since_build, torch_library, BuildLog,
    BuildOutcome, BuildState, Env, SandboxParts,
};

const DIR: &str = "/repo/architectures/centralized/volunteer";

#[test]
fn the_sandbox_lies_in_the_repository() {
    assert_eq!(repo_root(DIR), "/repo");
    assert_eq!(sandbox_dir(DIR), "/repo/.aethercompute");
    assert_eq!(sandbox_cargo_home(DIR), "/repo/.aethercompute/cargo");
    assert_eq!(sandbox_rustup_home(DIR), "/repo/.aethercompute/rustup");
    assert_eq!(sandbox_venv(DIR), "/repo/.aethercompute/venv");
    assert_eq!(client_bin(DIR), "/repo/target/release/psyche-centralized-client");
    assert_eq!(sandboxed_cargo(DIR), "/repo/.aethercompute/cargo/bin/cargo");
    assert_eq!(sandboxed_python(DIR), "/repo/.aethercompute/venv/bin/python");
    // A directory that does not lie so deep stands for the repository itself.
    assert_eq!(repo_root("/a"), "/a");
    assert_eq!(repo_root("/a/b/c"), "/");
}

#[test]
fn slots_keep_to_their_directory() {
    assert_eq!(slot_dir(DIR, "7"), "/repo/.aethercompute/clients/7");
    assert_eq!(slot_dir(DIR, ""), "/repo/.aethercompute/clients/1");
    assert_eq!(slot_dir(DIR, "a/b ü.c-d_e"), "/repo/.aethercompute/clients/a_b__.c-d_e");
}

#[test]
fn paths_are_taken_apart_and_joined() {
    assert_eq!(parent_of("/a/b").as_deref(), Some("/a"));
    assert_eq!(parent_of("/a").as_deref(), Some("/"));
    assert_eq!(parent_of("/"), None);
    assert_eq!(parent_of("/r/a/./b").as_deref(), Some("/r/a"));
    assert_eq!(ancestor_of("/r/a/./b/c", 3).as_deref(), Some("/r"));
    assert_eq!(parent_of("/a/.").as_deref(), Some("/"));
    assert_eq!(parent_of("/."), None);
    assert_eq!(parent_of("a/./").as_deref(), Some(""));
    assert_eq!(parent_of("./a").as_deref(), Some("."));
    assert_eq!(parent_of(".").as_deref(), Some(""));
    assert_eq!(parent_of(""), None);
    assert_eq!(parent_of("/a/..").as_deref(), Some("/a"));
    for path in ["/r/a/./b/c", "a//b/", "./a/.", ".//a", "..", "/..", "a/...", "/./.", "./.", "x/.y"] {
        let expected = std::path::Path::new(path).parent().map(|p| p.to_str().unwrap().to_string());
        assert_eq!(parent_of(path), expected, "{path}");
    }
    assert_eq!(ancestor_of("/a/b/c", 0).as_deref(), Some("/a/b/c"));
    assert_eq!(ancestor_of("/a/b/c", 2).as_deref(), Some("/a"));
    assert_eq!(ancestor_of("/a/b/c", 4), None);
    assert_eq!(join_path("/a", "b"), "/a/b");
    assert_eq!(join_path("/", "b"), "/b");
    assert_eq!(parent_of(&join_path("/a/b", "c")).as_deref(), Some("/a/b"));
}

#[test]
fn the_client_is_told_everything() {
    let cfg = LaunchConfig {
        run_id: "run".to_string(),
        server_addr: "host:1".to_string(),
        device: "cuda:0".to_string(),
        micro_batch_size: "4".to_string(),
        identity_key: "/k".to_string(),
        log_file: "/l".to_string(),
    };
    assert_eq!(
        cfg.client_args(),
        vec![
            "train",
            "--run-id",
            "run",
            "--server-addr",
            "host:1",
            "--device",
            "cuda:0",
            "--micro-batch-size",
            "4",
            "--identity-secret-key-path",
            "/k",
            "--logs",
            "tui",
            "--write-log",
            "/l",
        ]
    );
    assert_eq!(cfg.clone().client_args(), cfg.client_args());
}

#[test]
fn cards_are_read_from_the_driver() {
    let gpus = parse_nvidia("0, NVIDIA A, 24564\n 1 ,B\nx, C, 1\n2\n3, D, many\n");
    let read: Vec<(u32, &str, Option<u32>)> =
        gpus.iter().map(|g| (g.index, g.name.as_str(), g.vram_mib)).collect();
    assert_eq!(read, vec![(0, "NVIDIA A", Some(24564)), (1, "B", None), (3, "D", None)]);
    assert_eq!(best_gpu_vram_mib(&gpus), Some(24564));
    assert_eq!(best_gpu_vram_mib(&vec![]), None);
    assert!(parse_nvidia("").is_empty());
}

#[test]
fn there_is_always_a_device_to_choose() {
    let values = |d: Vec<aether::volunteer::detect::DeviceOption>| -> Vec<String> {
        d.into_iter().map(|o| o.value).collect()
    };
    assert_eq!(values(detect_devices(&vec![], false)), vec!["auto", "cpu"]);
    assert_eq!(values(detect_devices(&vec![], true)), vec!["auto", "mps", "cpu"]);
    let gpus = vec![
        Gpu { index: 0, name: "A".to_string(), vram_mib: Some(8192) },
        Gpu { index: 3, name: "B".to_string(), vram_mib: None },
    ];
    let found = detect_devices(&gpus, false);
    assert_eq!(found[2].label, "A (cuda:0)");
    assert_eq!(found[2].vram_mib, Some(8192));
    assert_eq!(found[2].tag, "CUDA");
    assert_eq!(values(found), vec!["auto", "cuda", "cuda:0", "cuda:3", "cpu"]);
}

#[test]
fn the_host_is_summed_up() {
    assert_eq!(host_summary("linux", "x86_64", 2), "Linux (x86_64) · 2 NVIDIA GPU(s)");
    assert_eq!(host_summary("macos", "aarch64", 0), "macOS (aarch64) · Apple Silicon");
    assert_eq!(host_summary("macos", "x86_64", 0), "macOS (x86_64)");
    assert_eq!(host_summary("freebsd", "aarch64", 0), "freebsd (aarch64)");
    assert!(is_apple_silicon("arm") && is_apple_silicon("aarch64") && !is_apple_silicon("x86"));
}

#[test]
fn the_environment_prefers_the_sandbox() {
    let none = SandboxParts { cargo: false, rustup_home: false, cargo_home: false };
    let env = Env::detect(DIR, none, vec![]);
    assert_eq!(env.cargo, "cargo");
    assert_eq!(
        env.variables(&Some("/usr/lib".to_string()), &None),
        vec![
            ("LIBTORCH_USE_PYTORCH".to_string(), "1".to_string()),
            ("LIBTORCH_BYPASS_VERSION_CHECK".to_string(), "1".to_string()),
            ("RUST_MIN_STACK".to_string(), "268435456".to_string()),
        ]
    );
    let all = SandboxParts { cargo: true, rustup_home: true, cargo_home: true };
    let env = Env::detect(DIR, all, vec!["/t/lib".to_string(), "/n/lib".to_string()]);
    assert_eq!(env.cargo, "/repo/.aethercompute/cargo/bin/cargo");
    let vars = env.variables(&Some("/usr/lib".to_string()), &Some(String::new()));
    assert_eq!(vars[0], ("RUSTUP_HOME".to_string(), "/repo/.aethercompute/rustup".to_string()));
    assert_eq!(vars[1], ("CARGO_HOME".to_string(), "/repo/.aethercompute/cargo".to_string()));
    // Every directory of torch is on the loader path, and what was on it stays.
    assert_eq!(vars[5].0, "LD_LIBRARY_PATH");
    let parts: Vec<&str> = vars[5].1.split(':').collect();
    assert_eq!(parts, vec!["/n/lib", "/t/lib", "/usr/lib"]);
    assert_eq!(vars[6], ("DYLD_LIBRARY_PATH".to_string(), "/n/lib:/t/lib".to_string()));
}

#[test]
fn pythons_are_tried_in_order() {
    let some = |s: &str| Some(s.to_string());
    assert_eq!(
        python_candidates(DIR, true, some("/usr/bin/python3"), some("/usr/bin/python")),
        vec!["/repo/.aethercompute/venv/bin/python", "/usr/bin/python3"]
    );
    assert_eq!(python_candidates(DIR, false, None, some("/usr/bin/python")), vec!["/usr/bin/python"]);
    assert!(python_candidates(DIR, false, None, None).is_empty());
    assert_eq!(parse_torch_dirs(" /a/lib::/b/lib \n"), vec!["/a/lib", "/b/lib"]);
    assert!(parse_torch_dirs("\n").is_empty());
    assert_eq!(torch_library(&vec!["/a/lib".to_string()]).as_deref(), Some("/a/lib/libtorch.so"));
    assert_eq!(torch_library(&vec![]), None);
}

#[test]
fn a_newer_torch_is_noticed() {
    assert!(torch_changed_since_build(Some(1), Some(2)));
    assert!(!torch_changed_since_build(Some(2), Some(2)));
    assert!(!torch_changed_since_build(None, Some(2)));
    assert!(!torch_changed_since_build(Some(1), None));
    assert_eq!(
        missing_client_message(DIR),
        "client binary not found at /repo/target/release/psyche-centralized-client. The build \
         screen should have produced it."
    );
    assert_eq!(clean_args(), vec!["clean", "-p", "torch-sys"]);
    assert_eq!(build_args("x"), vec!["build", "--release", "-p", "x"]);
}

#[test]
fn builds_are_followed() {
    let mut log = BuildLog::new("client");
    for i in 0..600 {
        log.push_line(format!("   Compiling crate{i}"));
    }
    log.push_line("   Finished, not Compiling ".to_string());
    log.push_line("  ".to_string());
    let snap = log.snapshot(5);
    assert_eq!(snap.compiles, 600);
    assert_eq!(snap.elapsed, 5);
    assert_eq!(snap.crate_name, "client");
    // Of the last sixteen lines, the blank one is not shown.
    assert_eq!(snap.lines.len(), 15);
    assert_eq!(snap.lines[14], "   Finished, not Compiling ");
    assert_eq!(snap.lines[0], "   Compiling crate586");
    assert!(matches!(snap.state, BuildState::Running));
    log.finish(BuildOutcome::Succeeded);
    log.set_state(BuildState::Running);
    assert!(matches!(log.snapshot(0).state, BuildState::Success));
}

#[test]
fn announced_crates_are_counted() {
    let mut log = BuildLog::new("client");
    log.push_line("   Compiling serde v1.0.200".to_string());
    let snap = log.snapshot(0);
    assert_eq!(snap.compiles, 1);
    assert_eq!(snap.lines, vec!["   Compiling serde v1.0.200"]);
    log.push_line("Compiling a".to_string());
    log.push_line("       Compiling b".to_string());
    log.push_line("  Compilingc".to_string());
    assert_eq!(log.snapshot(0).compiles, 3);
}

#[test]
fn builds_fail_for_a_reason() {
    let why = |outcome: BuildOutcome| {
        let mut log = BuildLog::new("client");
        log.finish(outcome);
        let snap = log.snapshot(0);
        match snap.state {
            BuildState::Failed(msg) => (msg, snap.lines),
            other => panic!("{other:?}"),
        }
    };
    assert_eq!(
        why(BuildOutcome::NotStarted("no cargo".to_string())),
        ("no cargo".to_string(), vec!["failed to start cargo: no cargo".to_string()])
    );
    assert_eq!(
        why(BuildOutcome::Exited("exit status: 101".to_string())),
        ("cargo exited with exit status: 101".to_string(), vec![])
    );
    assert_eq!(why(BuildOutcome::Lost("gone".to_string())), ("gone".to_string(), vec![]));
}

#[test]
fn the_logo_is_measured() {
    let logo = lines("##\n####\n#\n");
    assert_eq!((width(&logo), height(&logo)), (4, 3));
    assert_eq!((width(&lines("")), height(&lines(""))), (0, 0));
}

#[test]
fn glitches_look_random_and_are_not() {
    assert_eq!(hash(0), 0);
    assert_eq!(hash(1), 1753845952);
    let palette = [BRAND_A, BRAND_B, ACCENT_AMBER, ACCENT_VIOLET, BLOOM_BONE];
    for seed in 0..50 {
        assert!(palette.contains(&glitch_color(seed)));
    }
    for frame in 0..2000u64 {
        if let Some(b) = burst_frame(frame) {
            assert!(b < 15);
        } else {
            assert!(!flicker_hidden_line(frame, 3) || burst_frame(frame).is_none());
        }
        assert!(line_shift(frame, 1).abs() < 20);
    }
    assert_eq!(shifted_x(5, 3), 8);
    assert_eq!(shifted_x(5, -3), 2);
    assert_eq!(shifted_x(1, -3), 0);
}

#[test]
fn the_logo_stays_in_its_area() {
    let logo = lines("#### ####\n## ### ##\n#########\n");
    let area = Rect { x: 7, y: 3, width: 12, height: 5 };
    for frame in 0..500u64 {
        let mut canvas = Canvas::new();
        draw(&mut canvas, area, &logo, frame, plain_style(INK));
        for d in &canvas.draws {
            match d {
                Draw::Cell { x, y, .. } => {
                    assert!(*x >= 7 && *x < 19 && *y >= 3 && *y < 8);
                }
                _ => unreachable!(),
            }
        }
    }
    let mut canvas = Canvas::new();
    draw(&mut canvas, Rect { x: 0, y: 0, width: 8, height: 5 }, &logo, 0, plain_style(INK));
    assert!(canvas.draws.is_empty());
}
