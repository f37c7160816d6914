use kataru_bridge::{BridgeError, KataruInterface, Notification};

#[test]
fn step_before_init_is_a_runtime_error() {
    let mut k = KataruInterface::new();
    match k.next("") {
        Err(BridgeError::Runtime(_)) => {}
        other => panic!("expected a runtime error, got {:?}", other),
    }
}

#[test]
fn goto_before_init_is_a_runtime_error() {
    let mut k = KataruInterface::new();
    match k.goto("Start") {
        Err(BridgeError::Runtime(_)) => {}
        other => panic!("expected a runtime error, got {:?}", other),
    }
}

#[test]
fn run_before_init_is_a_runtime_error() {
    let mut k = KataruInterface::new();
    match k.run("Start") {
        Err(BridgeError::Runtime(_)) => {}
        other => panic!("expected a runtime error, got {:?}", other),
    }
}

#[test]
fn run_until_choice_before_init_is_a_runtime_error() {
    let mut k = KataruInterface::new();
    match k.run_until_choice("Start") {
        Err(BridgeError::Runtime(_)) => {}
        other => panic!("expected a runtime error, got {:?}", other),
    }
}

#[test]
fn init_without_a_story_path_is_a_config_error() {
    let mut k = KataruInterface::new();
    match k.init("", "", "", "Start", 0, 0) {
        Err(BridgeError::Config(_)) => {}
        other => panic!("expected a config error, got {:?}", other),
    }
}

#[test]
fn failed_init_faults_the_bridge_and_steps_stay_runtime_errors() {
    let mut k = KataruInterface::new();
    match k.init("", "no_such_directory_anywhere_here/story.bin", "", "Start", 0, 0) {
        Err(BridgeError::Io(_)) => {}
        other => panic!("expected an io error, got {:?}", other),
    }
    match k.next("") {
        Err(BridgeError::Runtime(_)) => {}
        other => panic!("expected a runtime error, got {:?}", other),
    }
}

#[test]
fn init_with_glob_metacharacters_in_a_path_is_a_config_error() {
    // The engine's story loader builds a glob pattern from the story
    // paths, so paths holding glob metacharacters are rejected up front.
    let mut k = KataruInterface::new();
    match k.init("sto[ries", "target/meta_story.bin", "", "Start", 0, 0) {
        Err(BridgeError::Config(_)) => {}
        other => panic!("expected a config error, got {:?}", other),
    }
    match k.init("", "target/sto*ry.bin", "", "Start", 0, 0) {
        Err(BridgeError::Config(_)) => {}
        other => panic!("expected a config error, got {:?}", other),
    }
}

#[test]
fn exit_reports_end_and_disarms_the_watcher() {
    let mut k = KataruInterface::new();
    assert_eq!(k.exit(), Notification::End);
    assert!(k.watch.is_none());
    assert!(k.runner.is_none());
}

#[test]
fn tick_before_the_interval_elapses_does_nothing() {
    let mut k = KataruInterface::new();
    k.watch_poll_interval = 1000;
    assert_eq!(k.watch_story_dir(10), Ok(None));
    assert_eq!(k.watch_poll_time, 10);
    assert_eq!(k.watch_story_dir(989), Ok(None));
    assert_eq!(k.watch_poll_time, 999);
}

#[test]
fn tick_without_a_watch_set_reports_no_change() {
    let mut k = KataruInterface::new();
    assert_eq!(k.watch_story_dir(10), Ok(None));
}
