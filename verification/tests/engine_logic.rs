use kataru::{Bookmark, ChoiceTarget, Config, Passages, RawChoice, RawChoices, RawLine, Section, Story};
use kataru_bridge::bridge::{build_runner, load_progression, step_runner};
use kataru_bridge::{BridgeError, ExecutionResult};

fn one_section_story(passages: Passages) -> Story {
    let mut characters = kataru::Map::new();
    characters.insert("Alice".to_string(), None);
    let config = Config {
        namespace: "global".to_string(),
        characters,
        ..Default::default()
    };
    let mut sections = kataru::Map::new();
    sections.insert("global".to_string(), Section { config, passages });
    Story::from(sections)
}

fn dialogue_line(speaker: &str, text: &str) -> RawLine {
    let mut m = kataru::Map::new();
    m.insert(speaker.to_string(), text.to_string());
    RawLine::Dialogue(m)
}

fn bookmark_at(passage: &str) -> Bookmark {
    let mut b = Bookmark::default();
    b.set_passage(passage.to_string());
    b
}

fn spoken(speaker: &str, text: &str) -> ExecutionResult {
    ExecutionResult::Dialogue {
        speaker: speaker.to_string(),
        text: text.to_string(),
        attributes_json: "[]".to_string(),
    }
}

#[test]
fn first_step_after_building_yields_the_first_line() {
    let mut passages = kataru::Map::new();
    passages.insert(
        "Start".to_string(),
        vec![dialogue_line("Alice", "Hello."), dialogue_line("Alice", "Bye.")],
    );
    let story = one_section_story(passages);
    let mut runner = build_runner(story, bookmark_at("Start"), "Start").unwrap();
    assert_eq!(step_runner(&mut runner, "").unwrap(), spoken("Alice", "Hello."));
    assert_eq!(step_runner(&mut runner, "").unwrap(), spoken("Alice", "Bye."));
    assert_eq!(step_runner(&mut runner, "").unwrap(), ExecutionResult::End);
}

#[test]
fn missing_recorded_passage_falls_back_to_the_default() {
    let mut passages = kataru::Map::new();
    passages.insert("Start".to_string(), vec![dialogue_line("Alice", "Hello.")]);
    let story = one_section_story(passages);
    let mut runner = build_runner(story, bookmark_at("Vanished"), "Start").unwrap();
    assert_eq!(runner.passage(), "Start");
    assert!(runner.bookmark().stack.is_empty());
    // Evaluation then begins at the first line of the default passage.
    assert_eq!(step_runner(&mut runner, "").unwrap(), spoken("Alice", "Hello."));
}

#[test]
fn present_recorded_passage_is_kept() {
    let mut passages = kataru::Map::new();
    passages.insert("Start".to_string(), vec![dialogue_line("Alice", "Hello.")]);
    passages.insert("Other".to_string(), vec![dialogue_line("Alice", "Elsewhere.")]);
    let story = one_section_story(passages);
    let mut runner = build_runner(story, bookmark_at("Other"), "Start").unwrap();
    assert_eq!(runner.passage(), "Other");
    assert_eq!(step_runner(&mut runner, "").unwrap(), spoken("Alice", "Elsewhere."));
}

#[test]
fn default_passage_missing_too_is_a_validation_error() {
    let mut passages = kataru::Map::new();
    passages.insert("Start".to_string(), vec![dialogue_line("Alice", "Hello.")]);
    let story = one_section_story(passages);
    match build_runner(story, bookmark_at("Vanished"), "AlsoVanished") {
        Err(BridgeError::Validation(_)) => {}
        Err(other) => panic!("expected a validation error, got {:?}", other),
        Ok(_) => panic!("expected a validation error, got a runner"),
    }
}

fn yes_no_choices() -> RawLine {
    let mut rc = RawChoices::default();
    rc.choices.insert(
        "yes".to_string(),
        RawChoice::Target(ChoiceTarget::PassageName("Agreed".to_string())),
    );
    rc.choices.insert(
        "no".to_string(),
        RawChoice::Target(ChoiceTarget::PassageName("Refused".to_string())),
    );
    RawLine::Choices(rc)
}

fn choice_story() -> Story {
    let mut passages = kataru::Map::new();
    passages.insert(
        "Start".to_string(),
        vec![dialogue_line("Alice", "Well?"), yes_no_choices()],
    );
    passages.insert("Agreed".to_string(), vec![dialogue_line("Alice", "Good.")]);
    passages.insert("Refused".to_string(), vec![dialogue_line("Alice", "Shame.")]);
    one_section_story(passages)
}

#[test]
fn choices_are_reported_in_order() {
    let mut runner = build_runner(choice_story(), bookmark_at("Start"), "Start").unwrap();
    assert_eq!(step_runner(&mut runner, "").unwrap(), spoken("Alice", "Well?"));
    assert_eq!(
        step_runner(&mut runner, "").unwrap(),
        ExecutionResult::Choices {
            options: vec!["yes".to_string(), "no".to_string()],
            timeout_bits: (0.0f64).to_bits(),
        }
    );
}

#[test]
fn an_unknown_answer_is_an_invalid_choice() {
    let mut runner = build_runner(choice_story(), bookmark_at("Start"), "Start").unwrap();
    step_runner(&mut runner, "").unwrap();
    step_runner(&mut runner, "").unwrap();
    assert_eq!(step_runner(&mut runner, "maybe").unwrap(), ExecutionResult::InvalidChoice);
}

#[test]
fn a_valid_answer_jumps_to_its_passage() {
    let mut runner = build_runner(choice_story(), bookmark_at("Start"), "Start").unwrap();
    step_runner(&mut runner, "").unwrap();
    step_runner(&mut runner, "").unwrap();
    assert_eq!(step_runner(&mut runner, "yes").unwrap(), spoken("Alice", "Good."));
}

#[test]
fn input_prompts_are_reported_with_their_fields() {
    let mut input = kataru::Map::new();
    input.insert("name".to_string(), "What is your name?".to_string());
    let mut passages = kataru::Map::new();
    passages.insert(
        "Start".to_string(),
        vec![RawLine::Input(kataru::Input { timeout: 0.0, input })],
    );
    let story = one_section_story(passages);
    let mut runner = build_runner(story, bookmark_at("Start"), "Start").unwrap();
    assert_eq!(
        step_runner(&mut runner, "").unwrap(),
        ExecutionResult::Input {
            prompts_json: "{\"name\":\"What is your name?\"}".to_string(),
            timeout_bits: 0,
        }
    );
}

#[test]
fn loading_progression_from_a_missing_file_without_saving_reports_io() {
    // The fresh state cannot be persisted into a directory that does not
    // exist, and that save failure is reported.
    let story = one_section_story(kataru::Map::new());
    match load_progression("no_such_directory_anywhere_here/bookmark.yml", &story, "Start") {
        Err(BridgeError::Io(_)) => {}
        other => panic!("expected an io error, got {:?}", other),
    }
}

#[test]
fn loading_progression_seeds_the_declared_variables() {
    let mut state = kataru::Map::new();
    state.insert("coins".to_string(), kataru::Value::Number(3.0));
    let config = Config {
        namespace: "global".to_string(),
        state,
        ..Default::default()
    };
    let mut sections = kataru::Map::new();
    sections.insert("global".to_string(), Section { config, passages: kataru::Map::new() });
    let story = Story::from(sections);
    let bookmark = load_progression("/tmp/kataru_bridge_progression_seed.yml", &story, "Start")
        .unwrap();
    // The state carries the story's declared default, as validation and
    // execution expect.
    assert_eq!(bookmark.value("coins").unwrap(), &kataru::Value::Number(3.0));
    assert_eq!(bookmark.passage(), "Start");
}
