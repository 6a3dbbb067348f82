use static_linking_tests::classify::{classify, TestResult};
use static_linking_tests::environment::{all_environment_names, all_environments, Environment};
use static_linking_tests::exec::{finished, shell_command, shell_invocation, ExecCapture, ExecFault, ExecStatus};
use static_linking_tests::image::{find_image_by_label, repo_tag, ImageSummary};
use static_linking_tests::pipeline::{after_stage, failure_report, located_binary, next_stage, stage_command, Stage};
use static_linking_tests::selection::{select_environments, select_tests, SelectionError};
use static_linking_tests::test_case::{merge_static_flag, TestCrate};
use static_linking_tests::text::{contains, decimal_string, split_lines, starts_with, trim, white_space};

fn strings(v: &[&str]) -> Vec<String> {
    v.iter().map(|s| s.to_string()).collect()
}

#[test]
fn classify_not_dynamic_is_static() {
    assert_eq!(classify("\tnot a dynamic executable\n"), TestResult::StaticBinary);
}

#[test]
fn classify_statically_linked_is_static() {
    assert_eq!(classify("/lib/ld-musl-x86_64.so.1 (0x7f) statically linked"), TestResult::StaticBinary);
}

#[test]
fn classify_lists_every_line() {
    let out = "linux-vdso.so.1 (0x00007ffd)\nlibc.so.6 => /lib/libc.so.6\n";
    match classify(out) {
        TestResult::NonStaticBinary { deps } => {
            assert_eq!(deps, strings(&["linux-vdso.so.1 (0x00007ffd)", "libc.so.6 => /lib/libc.so.6"]));
        }
        other => panic!("unexpected {:?}", other),
    }
}

#[test]
fn classify_empty_output_has_no_deps() {
    assert_eq!(classify(""), TestResult::NonStaticBinary { deps: vec![] });
}

#[test]
fn split_lines_matches_std() {
    for s in ["", "a", "a\n", "a\r\nb", "a\n\nb\n", "\n", "x\r", "a\rb\r\n"] {
        let want: Vec<String> = s.lines().map(|l| l.to_string()).collect();
        assert_eq!(split_lines(s), want, "input {:?}", s);
    }
}

#[test]
fn contains_and_prefix() {
    assert!(contains("abcdef", "cde"));
    assert!(contains("abc", ""));
    assert!(!contains("abc", "abcd"));
    assert!(!contains("abcdef", "ce"));
    assert!(starts_with("RUSTFLAGS=x", "RUSTFLAGS="));
    assert!(!starts_with("RUSTFLAGS", "RUSTFLAGS="));
}

#[test]
fn decimal_rendering() {
    assert_eq!(decimal_string(0), "0");
    assert_eq!(decimal_string(7), "7");
    assert_eq!(decimal_string(101), "101");
    assert_eq!(decimal_string(u64::MAX), u64::MAX.to_string());
}

#[test]
fn merge_into_existing_flags() {
    let r = merge_static_flag(strings(&["A=1", "RUSTFLAGS=foo", "B"]));
    assert_eq!(r, strings(&["A=1", "RUSTFLAGS=foo -C target-feature=+crt-static", "B"]));
}

#[test]
fn merge_adds_missing_flags() {
    let r = merge_static_flag(strings(&["A=1"]));
    assert_eq!(r, strings(&["A=1", "RUSTFLAGS=-C target-feature=+crt-static"]));
    let empty = merge_static_flag(vec![]);
    assert_eq!(empty, strings(&["RUSTFLAGS=-C target-feature=+crt-static"]));
}

#[test]
fn merge_touches_only_first_flags_entry() {
    let r = merge_static_flag(strings(&["RUSTFLAGS=a", "RUSTFLAGS=b"]));
    assert_eq!(r, strings(&["RUSTFLAGS=a -C target-feature=+crt-static", "RUSTFLAGS=b"]));
}

#[test]
fn test_case_env_and_volumes() {
    let t = TestCrate::new("/src/crates/hello".to_string(), "hello".to_string(), strings(&["X=1"]));
    assert_eq!(t.name(), "hello");
    assert_eq!(t.path(), "/src/crates/hello");
    assert_eq!(t.env_vars(), strings(&["X=1", "RUSTFLAGS=-C target-feature=+crt-static"]));
    let env = Environment::new("debian-rust", "x86_64-unknown-linux-musl");
    assert_eq!(
        t.volumes("/cache", &env),
        strings(&[
            "/cache/registry:/root/.cargo/registry",
            "/cache/registry-index:/root/.cargo/registry/index",
            "/cache/registry-git:/root/.cargo/registry/git",
            "/cache/git-db:/root/.cargo/git/db",
            "/src/crates/hello:/build",
        ])
    );
}

#[test]
fn environment_catalog() {
    let names = all_environment_names();
    assert_eq!(names, strings(&["alpine-custom-rust", "alpine-official-rust", "debian-rust"]));
    assert_eq!(all_environments().len(), 3);
    let e = Environment::from_name("alpine-custom-rust").unwrap();
    assert_eq!(e.name(), "alpine-custom-rust");
    assert_eq!(e.musl_target(), "x86_64-alpine-linux-musl");
    assert_eq!(e.cargo_home(), "/root/.cargo");
    assert!(Environment::from_name("alpine").is_none());
    assert!(Environment::from_name("").is_none());
}

#[test]
fn environment_selection() {
    assert_eq!(select_environments(&vec![]).unwrap().len(), 3);
    let sel = select_environments(&strings(&["debian-rust", "alpine-official-rust"])).unwrap();
    assert_eq!(sel[0].name(), "debian-rust");
    assert_eq!(sel[1].musl_target(), "x86_64-unknown-linux-musl");
    match select_environments(&strings(&["debian-rust", "nope", "other"])) {
        Err(e) => assert_eq!(e, SelectionError::UnknownEnvironment { name: "nope".to_string() }),
        Ok(_) => panic!("unknown name accepted"),
    }
}

#[test]
fn test_selection() {
    let all = vec![
        TestCrate::new("/a".to_string(), "alpha".to_string(), vec![]),
        TestCrate::new("/b".to_string(), "beta".to_string(), strings(&["K=v"])),
    ];
    assert_eq!(select_tests(&all, &vec![]).unwrap().len(), 2);
    let sel = select_tests(&all, &strings(&["beta"])).unwrap();
    assert_eq!(sel.len(), 1);
    assert_eq!(sel[0].path(), "/b");
    match select_tests(&all, &strings(&["gamma"])) {
        Err(e) => assert_eq!(e, SelectionError::UnknownTest { name: "gamma".to_string() }),
        Ok(_) => panic!("unknown test accepted"),
    }
}

#[test]
fn image_lookup_by_label() {
    assert_eq!(repo_tag("debian-rust"), "elastio:debian-rust");
    let images = vec![
        ImageSummary { id: "sha:1".to_string(), repo_tags: None },
        ImageSummary { id: "sha:2".to_string(), repo_tags: Some(strings(&["other:debian-rust"])) },
        ImageSummary { id: "sha:3".to_string(), repo_tags: Some(strings(&["x:y", "elastio:debian-rust"])) },
        ImageSummary { id: "sha:4".to_string(), repo_tags: Some(strings(&["elastio:debian-rust"])) },
    ];
    assert_eq!(find_image_by_label(&images, "debian-rust"), Some("sha:3".to_string()));
    assert_eq!(find_image_by_label(&images, "alpine-custom-rust"), None);
    assert_eq!(find_image_by_label(&vec![], "debian-rust"), None);
}

#[test]
fn shell_wrapping() {
    let words = strings(&["cargo", "build", "--target", "x86_64-unknown-linux-musl"]);
    assert_eq!(shell_command(&words), "\"cargo\" \"build\" \"--target\" \"x86_64-unknown-linux-musl\"");
    assert_eq!(shell_invocation(&words)[0..2], strings(&["bash", "-c"])[..]);
    assert_eq!(shell_command(&vec![]), "");
}

#[test]
fn exec_capture_collects_chunks() {
    let mut c = ExecCapture::new();
    c.push_chunk(b"hello ");
    c.push_chunk(b"world");
    c.push_chunk(&[0xff]);
    assert_eq!(c.text(), "hello world\u{fffd}");
    let r = c.finish(false, Some(3)).unwrap();
    assert_eq!(r.exit_code, 3);
    assert_eq!(r.output, "hello world\u{fffd}");
    assert!(matches!(c.finish(true, Some(0)), Err(ExecFault::StillRunning)));
    assert!(matches!(c.finish(false, None), Err(ExecFault::NoExitCode)));
}

#[test]
fn exec_status_judgement() {
    let ok = finished(ExecStatus { running: false, exit_code: Some(0), output: "x".to_string() }).unwrap();
    assert_eq!(ok.exit_code, 0);
    assert_eq!(ok.output, "x");
    let st = ExecStatus { running: true, exit_code: None, output: String::new() };
    assert!(matches!(finished(st), Err(ExecFault::StillRunning)));
}

#[test]
fn stage_commands_and_order() {
    assert_eq!(stage_command(Stage::Clean, "hello", "t", "b"), strings(&["cargo", "clean"]));
    assert_eq!(stage_command(Stage::Build, "hello", "t", "b"), strings(&["cargo", "build", "--target", "t"]));
    assert_eq!(stage_command(Stage::Run, "hello", "t", "b"), strings(&["cargo", "run", "--target", "t"]));
    assert_eq!(stage_command(Stage::Locate, "hello", "t", "b"), strings(&["find", "target", "-name", "hello"]));
    assert_eq!(stage_command(Stage::Inspect, "hello", "t", "b"), strings(&["ldd", "b"]));
    assert_eq!(next_stage(Stage::Clean), Some(Stage::Build));
    assert_eq!(next_stage(Stage::Locate), Some(Stage::Inspect));
    assert_eq!(next_stage(Stage::Inspect), None);
}

#[test]
fn failure_report_text() {
    assert_eq!(
        failure_report(Stage::Build, 101, "error[E0425]"),
        "`cargo build` terminated with exit code 101:\nerror[E0425]"
    );
    assert_eq!(
        after_stage(Stage::Run, 1, "boom"),
        Some(TestResult::Failed { output: "`cargo run` terminated with exit code 1:\nboom".to_string() })
    );
    assert_eq!(after_stage(Stage::Build, 0, "ok"), None);
    assert_eq!(after_stage(Stage::Inspect, 0, "statically linked"), Some(TestResult::StaticBinary));
}

#[test]
fn located_binary_is_trimmed() {
    assert_eq!(located_binary("  target/x86_64-unknown-linux-musl/debug/hello\n"), "target/x86_64-unknown-linux-musl/debug/hello");
}

#[test]
fn trim_matches_std() {
    for s in ["", "   ", " a b ", "\t\nx\r\n", "\u{3000}path\u{85}", "\u{200b}x\u{200b}", "x\u{a0}", "\u{2029}\u{205f}y"] {
        assert_eq!(trim(s), s.trim(), "input {:?}", s);
    }
}

#[test]
fn white_space_matches_std() {
    for u in 0u32..0x3100 {
        if let Some(c) = char::from_u32(u) {
            assert_eq!(white_space(c), c.is_whitespace(), "code point {:x}", u);
        }
    }
}

#[test]
fn exec_capture_keeps_ascii() {
    let mut c = ExecCapture::new();
    c.push_chunk(b"ldd: ok\n");
    assert_eq!(c.text(), "ldd: ok\n");
}
