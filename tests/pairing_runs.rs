use static_linking_tests::classify::TestResult;
use static_linking_tests::environment::Environment;
use static_linking_tests::exec::ExecStatus;
use static_linking_tests::image::ImageSummary;
use static_linking_tests::pairing::{Action, Pairing, PairingError, Phase, Reply};
use static_linking_tests::pipeline::Stage;
use static_linking_tests::test_case::TestCrate;

fn setup() -> (Pairing, Action) {
    let test = TestCrate::new("/src/hello".to_string(), "hello".to_string(), vec!["RUSTFLAGS=-g".to_string()]);
    let env = Environment::from_name("debian-rust").unwrap();
    Pairing::begin(&test, &env, "/cache")
}

fn images() -> Reply {
    Reply::Images {
        images: vec![ImageSummary {
            id: "sha256:abc".to_string(),
            repo_tags: Some(vec!["elastio:debian-rust".to_string()]),
        }],
    }
}

fn exited(code: u64, output: &str) -> Reply {
    Reply::Exited { status: ExecStatus { running: false, exit_code: Some(code), output: output.to_string() } }
}

fn words(a: &Action) -> Vec<String> {
    match a {
        Action::Exec { command } => command.clone(),
        other => panic!("expected a command, got {:?}", other),
    }
}

/// Feeds the replies in order and returns every action, the first included.
fn drive(replies: Vec<Reply>) -> (Pairing, Vec<Action>) {
    let (mut p, first) = setup();
    let mut actions = vec![first];
    for r in replies {
        actions.push(p.advance(r));
    }
    (p, actions)
}

fn launched() -> Vec<Reply> {
    vec![images(), Reply::Created, Reply::Started]
}

fn kinds(actions: &[Action], want: fn(&Action) -> bool) -> usize {
    actions.iter().filter(|a| want(a)).count()
}

#[test]
fn build_failure_stops_pipeline() {
    let mut replies = launched();
    replies.push(exited(0, "cleaned"));
    replies.push(exited(1, "linker error"));
    let (mut p, actions) = drive(replies);
    assert!(matches!(actions.last(), Some(Action::Stop)));
    let execs: Vec<Vec<String>> = actions.iter().filter(|a| matches!(a, Action::Exec { .. })).map(words).collect();
    assert_eq!(execs.len(), 2);
    assert_eq!(execs[1], vec!["cargo", "build", "--target", "x86_64-unknown-linux-musl"]);
    match p.result() {
        Some(Ok(TestResult::Failed { output })) => {
            assert!(output.contains("terminated with exit code 1"));
            assert_eq!(output, "`cargo build` terminated with exit code 1:\nlinker error");
        }
        other => panic!("unexpected {:?}", other),
    }
    assert!(matches!(p.advance(Reply::Stopped), Action::Delete));
    assert!(matches!(p.advance(Reply::Deleted), Action::Finish));
    assert!(p.is_done());
}

#[test]
fn static_binary_run() {
    let mut replies = launched();
    replies.push(exited(0, ""));
    replies.push(exited(0, ""));
    replies.push(exited(0, "Hello, world!"));
    replies.push(exited(0, "target/x86_64-unknown-linux-musl/debug/hello\n"));
    replies.push(exited(0, "not a dynamic executable"));
    replies.push(Reply::Stopped);
    replies.push(Reply::Deleted);
    let (p, actions) = drive(replies);
    assert_eq!(words(&actions[7]), vec!["ldd", "target/x86_64-unknown-linux-musl/debug/hello"]);
    assert!(p.is_done());
    assert_eq!(p.into_result(), Some(Ok(TestResult::StaticBinary)));
}

#[test]
fn dynamic_binary_run() {
    let mut replies = launched();
    for _ in 0..3 {
        replies.push(exited(0, ""));
    }
    replies.push(exited(0, "target/debug/hello"));
    replies.push(exited(0, "libc.so.6 => /lib/libc.so.6\nlibpthread.so.0 => /lib/libpthread.so.0"));
    replies.push(Reply::Stopped);
    replies.push(Reply::Deleted);
    let (p, _) = drive(replies);
    assert_eq!(
        p.into_result(),
        Some(Ok(TestResult::NonStaticBinary {
            deps: vec![
                "libc.so.6 => /lib/libc.so.6".to_string(),
                "libpthread.so.0 => /lib/libpthread.so.0".to_string()
            ]
        }))
    );
}

#[test]
fn delete_failure_keeps_verdict() {
    let mut replies = launched();
    replies.push(exited(0, ""));
    replies.push(exited(2, "bad"));
    let (mut p, _) = drive(replies);
    let before = p.result().clone();
    assert!(matches!(p.advance(Reply::Stopped), Action::Delete));
    assert!(matches!(p.advance(Reply::Failed { message: "no such container".to_string() }), Action::Finish));
    assert!(p.is_done());
    assert_eq!(p.result(), &before);
    assert!(matches!(before, Some(Ok(TestResult::Failed { .. }))));
}

#[test]
fn stop_failure_still_deletes() {
    let mut replies = launched();
    replies.push(Reply::Failed { message: "exec refused".to_string() });
    replies.push(Reply::Failed { message: "stop refused".to_string() });
    let (p, actions) = drive(replies);
    assert!(matches!(actions.last(), Some(Action::Delete)));
    assert_eq!(p.result(), &Some(Err(PairingError::Daemon { message: "exec refused".to_string() })));
}

#[test]
fn one_create_one_stop_one_delete() {
    let outcomes: Vec<Vec<Reply>> = vec![
        // image missing: nothing created, nothing to clean up
        vec![Reply::Images { images: vec![] }],
        // create fails: nothing to clean up
        vec![images(), Reply::Failed { message: "create".to_string() }],
        // start fails: the created container is cleaned up
        vec![images(), Reply::Created, Reply::Failed { message: "start".to_string() }, Reply::Stopped, Reply::Deleted],
        // protocol violation in the first stage
        vec![
            images(),
            Reply::Created,
            Reply::Started,
            Reply::Exited { status: ExecStatus { running: true, exit_code: None, output: String::new() } },
            Reply::Failed { message: "stop".to_string() },
            Reply::Failed { message: "delete".to_string() },
        ],
    ];
    for (n, replies) in outcomes.into_iter().enumerate() {
        let (p, actions) = drive(replies);
        assert!(p.is_done(), "run {}", n);
        let creates = kinds(&actions, |a| matches!(a, Action::Create { .. }));
        let stops = kinds(&actions, |a| matches!(a, Action::Stop));
        let deletes = kinds(&actions, |a| matches!(a, Action::Delete));
        let made = n >= 2;
        assert_eq!(creates, if n == 0 { 0 } else { 1 }, "run {}", n);
        assert_eq!((stops, deletes), if made { (1, 1) } else { (0, 0) }, "run {}", n);
    }
}

#[test]
fn container_settings() {
    let (_, actions) = drive(vec![images()]);
    match &actions[1] {
        Action::Create { config } => {
            assert_eq!(config.image_id, "sha256:abc");
            assert_eq!(config.env, vec!["RUSTFLAGS=-g -C target-feature=+crt-static".to_string()]);
            assert_eq!(config.volumes.len(), 5);
            assert_eq!(config.volumes[4], "/src/hello:/build");
            assert!(!config.tty && config.attach_stdout && config.attach_stderr && !config.auto_remove);
            assert_eq!(config.working_dir, "/build");
        }
        other => panic!("unexpected {:?}", other),
    }
}

#[test]
fn missing_image_is_reported() {
    let (p, actions) = drive(vec![Reply::Images { images: vec![] }]);
    assert!(matches!(actions[1], Action::Finish));
    assert_eq!(p.result(), &Some(Err(PairingError::ImageNotFound { label: "debian-rust".to_string() })));
    let e = PairingError::ImageNotFound { label: "x".to_string() };
    assert!(e.hint().unwrap().contains("build-docker-images.sh"));
    assert_eq!(PairingError::Daemon { message: "m".to_string() }.hint(), None);
}

#[test]
fn start_failure_is_launch_error() {
    let (p, _) = drive(vec![images(), Reply::Created, Reply::Failed { message: "port busy".to_string() }]);
    assert_eq!(p.current_phase(), Phase::Stop);
    assert_eq!(
        p.result(),
        &Some(Err(PairingError::Launch { image_id: "sha256:abc".to_string(), message: "port busy".to_string() }))
    );
}

#[test]
fn first_stage_is_clean() {
    let (p, actions) = drive(launched());
    assert_eq!(words(&actions[3]), vec!["cargo", "clean"]);
    assert_eq!(p.current_phase(), Phase::Exec { stage: Stage::Clean });
}
