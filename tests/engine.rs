use texture::master::{Action, GameMaster, Input, Phase, RegisterError};
use texture::scenario::{GameCommand, Outcome, Scenario};

#[derive(Default)]
struct Log {
    events: Vec<String>,
}

enum Sc {
    // "next" moves to "end"; any other text stays.
    Start,
    // Takes every line and stays.
    End,
    // Every line reloads "start".
    SelfReload,
    // Its load handler forwards to "end".
    Redirect,
    // Every line moves to a scenario that was never registered.
    Broken,
    // Every line is taken as "next" would be by Start, under another name.
    Greedy,
}

impl Scenario<Log> for Sc {
    fn load(&self, state: &mut Log) -> Outcome {
        match self {
            Sc::Start | Sc::SelfReload | Sc::Broken | Sc::Greedy => {
                state.events.push("enter start".to_string());
                Outcome::Continue
            }
            Sc::End => {
                state.events.push("enter end".to_string());
                Outcome::Continue
            }
            Sc::Redirect => {
                state.events.push("enter redirect".to_string());
                Outcome::TransitionTo("end".to_string())
            }
        }
    }

    fn do_action(&self, command: &str, state: &mut Log) -> Outcome {
        match self {
            Sc::Start => {
                state.events.push(format!("input start {}", command));
                if command == "next" {
                    Outcome::TransitionTo("end".to_string())
                } else {
                    Outcome::Continue
                }
            }
            Sc::End => {
                state.events.push(format!("input end {}", command));
                Outcome::Continue
            }
            Sc::SelfReload => {
                state.events.push(format!("input start {}", command));
                Outcome::TransitionTo("start".to_string())
            }
            Sc::Redirect => Outcome::Continue,
            Sc::Broken => {
                state.events.push(format!("input start {}", command));
                Outcome::TransitionTo("nowhere".to_string())
            }
            Sc::Greedy => {
                state.events.push(format!("input start {}", command));
                Outcome::Terminate
            }
        }
    }
}

enum Cmd {
    Exit,
    Note,
}

impl GameCommand<Log> for Cmd {
    fn execute(&self, state: &mut Log) -> Outcome {
        match self {
            Cmd::Exit => {
                state.events.push("command exit".to_string());
                Outcome::Terminate
            }
            Cmd::Note => {
                state.events.push("command note".to_string());
                Outcome::Continue
            }
        }
    }
}

type Engine = GameMaster<Log, Sc, Cmd>;

// Drives the engine as a host loop would, over a fixed list of lines; the end
// of the list is the end of input.
fn run(gm: &mut Engine, lines: &[&str]) {
    gm.start_game();
    let mut next = 0;
    for _ in 0..1000 {
        match gm.next_action() {
            Action::Load => {
                gm.load_pending();
            }
            Action::ReadLine => {
                let input = if next < lines.len() {
                    next += 1;
                    Input::Line(lines[next - 1].to_string())
                } else {
                    Input::Eof
                };
                gm.turn(input);
            }
            Action::Halt => return,
        }
    }
    panic!("engine did not halt");
}

fn events(gm: &Engine) -> Vec<&str> {
    gm.state().events.iter().map(|s| s.as_str()).collect()
}

#[test]
fn two_scenarios_trace() {
    let mut gm: Engine = GameMaster::new(Log::default(), Sc::Start);
    gm.add_scenario("end".to_string(), Sc::End).unwrap();
    run(&mut gm, &["hello", "next", "anything"]);
    assert_eq!(
        events(&gm),
        vec![
            "enter start",
            "input start hello",
            "input start next",
            "enter end",
            "input end anything",
        ]
    );
    assert_eq!(gm.current_scenario(), Some(&"end".to_string()));
    assert_eq!(gm.phase(), &Phase::Stopped);
}

#[test]
fn exit_command_stops_engine() {
    let mut gm: Engine = GameMaster::new(Log::default(), Sc::Start);
    gm.add_command("exit".to_string(), Cmd::Exit).unwrap();
    run(&mut gm, &["exit", "hello"]);
    assert_eq!(events(&gm), vec!["enter start", "command exit"]);
    assert_eq!(gm.phase(), &Phase::Stopped);
}

#[test]
fn self_reload_calls_load_each_time() {
    let mut gm: Engine = GameMaster::new(Log::default(), Sc::SelfReload);
    run(&mut gm, &["x", "x"]);
    let enters = events(&gm).iter().filter(|e| **e == "enter start").count();
    assert_eq!(enters, 3);
    assert_eq!(
        events(&gm),
        vec!["enter start", "input start x", "enter start", "input start x", "enter start"]
    );
}

#[test]
fn command_takes_precedence_over_scenario() {
    let mut gm: Engine = GameMaster::new(Log::default(), Sc::Greedy);
    gm.add_command("note".to_string(), Cmd::Note).unwrap();
    run(&mut gm, &["note", "note", "other"]);
    assert_eq!(
        events(&gm),
        vec!["enter start", "command note", "command note", "input start other"]
    );
}

#[test]
fn command_name_is_matched_after_trimming() {
    let mut gm: Engine = GameMaster::new(Log::default(), Sc::Start);
    gm.add_command("note".to_string(), Cmd::Note).unwrap();
    gm.add_scenario("end".to_string(), Sc::End).unwrap();
    run(&mut gm, &["\u{3000}note\u{a0}", " next ", "  go on "]);
    assert_eq!(
        events(&gm),
        vec!["enter start", "command note", "input start next", "enter end", "input end go on"]
    );
}

#[test]
fn unregistered_transition_halts() {
    let mut gm: Engine = GameMaster::new(Log::default(), Sc::Broken);
    run(&mut gm, &["go", "more", "lines"]);
    assert_eq!(gm.phase(), &Phase::Misconfigured("nowhere".to_string()));
    assert_eq!(events(&gm), vec!["enter start", "input start go"]);
    assert_eq!(gm.next_action(), Action::Halt);
    assert_eq!(gm.turn(Input::Line("more".to_string())), None);
    assert_eq!(gm.load_pending(), None);
    assert_eq!(events(&gm), vec!["enter start", "input start go"]);
    assert_eq!(gm.current_scenario(), Some(&"start".to_string()));
}

#[test]
fn missing_start_scenario_halts() {
    let mut gm: Engine = GameMaster::new(Log::default(), Sc::Redirect);
    gm.start_game();
    assert_eq!(gm.load_pending(), Some(Outcome::TransitionTo("end".to_string())));
    assert_eq!(gm.load_pending(), None);
    assert_eq!(gm.phase(), &Phase::Misconfigured("end".to_string()));
    assert_eq!(events(&gm), vec!["enter redirect"]);
}

#[test]
fn load_handler_may_redirect() {
    let mut gm: Engine = GameMaster::new(Log::default(), Sc::Redirect);
    gm.add_scenario("end".to_string(), Sc::End).unwrap();
    run(&mut gm, &["a"]);
    assert_eq!(events(&gm), vec!["enter redirect", "enter end", "input end a"]);
    assert_eq!(gm.current_scenario(), Some(&"end".to_string()));
}

#[test]
fn committed_transition_sets_current_until_next() {
    let mut gm: Engine = GameMaster::new(Log::default(), Sc::Start);
    gm.add_scenario("end".to_string(), Sc::End).unwrap();
    assert_eq!(gm.current_scenario(), None);
    assert_eq!(gm.next_action(), Action::Halt);
    gm.start_game();
    assert_eq!(gm.next_action(), Action::Load);
    assert_eq!(gm.load_pending(), Some(Outcome::Continue));
    assert_eq!(gm.current_scenario(), Some(&"start".to_string()));
    assert_eq!(gm.next_action(), Action::ReadLine);
    assert_eq!(
        gm.turn(Input::Line("next".to_string())),
        Some(Outcome::TransitionTo("end".to_string()))
    );
    // The transition is pending, not yet committed.
    assert_eq!(gm.current_scenario(), Some(&"start".to_string()));
    assert_eq!(gm.next_action(), Action::Load);
    // No line is read while a load is pending.
    assert_eq!(gm.turn(Input::Line("ignored".to_string())), None);
    gm.load_pending();
    assert_eq!(gm.current_scenario(), Some(&"end".to_string()));
    gm.turn(Input::Line("stay".to_string()));
    assert_eq!(gm.current_scenario(), Some(&"end".to_string()));
    assert_eq!(
        events(&gm),
        vec!["enter start", "input start next", "enter end", "input end stay"]
    );
}

#[test]
fn no_line_changes_nothing() {
    let mut gm: Engine = GameMaster::new(Log::default(), Sc::Start);
    gm.start_game();
    gm.load_pending();
    assert_eq!(gm.turn(Input::NoLine), None);
    assert_eq!(gm.phase(), &Phase::Active);
    assert_eq!(gm.next_action(), Action::ReadLine);
    assert_eq!(events(&gm), vec!["enter start"]);
}

#[test]
fn end_of_input_stops() {
    let mut gm: Engine = GameMaster::new(Log::default(), Sc::Start);
    gm.start_game();
    gm.load_pending();
    assert_eq!(gm.turn(Input::Eof), None);
    assert_eq!(gm.phase(), &Phase::Stopped);
    assert_eq!(gm.next_action(), Action::Halt);
}

#[test]
fn start_happens_once() {
    let mut gm: Engine = GameMaster::new(Log::default(), Sc::Start);
    gm.start_game();
    gm.load_pending();
    gm.start_game();
    assert_eq!(gm.next_action(), Action::ReadLine);
    assert_eq!(events(&gm), vec!["enter start"]);
}

#[test]
fn registration_refused_after_start() {
    let mut gm: Engine = GameMaster::new(Log::default(), Sc::Start);
    assert_eq!(gm.add_command("note".to_string(), Cmd::Note), Ok(()));
    gm.start_game();
    assert_eq!(
        gm.add_scenario("end".to_string(), Sc::End),
        Err(RegisterError::GameStarted)
    );
    assert_eq!(
        gm.add_command("exit".to_string(), Cmd::Exit),
        Err(RegisterError::GameStarted)
    );
    run(&mut gm, &["exit", "next"]);
    // "exit" was never registered, and "end" neither.
    assert_eq!(gm.phase(), &Phase::Misconfigured("end".to_string()));
}

#[test]
fn last_registration_wins() {
    let mut gm: Engine = GameMaster::new(Log::default(), Sc::Start);
    gm.add_scenario("start".to_string(), Sc::End).unwrap();
    gm.add_command("x".to_string(), Cmd::Exit).unwrap();
    gm.add_command("x".to_string(), Cmd::Note).unwrap();
    run(&mut gm, &["x", "y"]);
    assert_eq!(events(&gm), vec!["enter end", "command note", "input end y"]);
}

#[test]
fn terminate_from_scenario_stops() {
    let mut gm: Engine = GameMaster::new(Log::default(), Sc::Greedy);
    run(&mut gm, &["a", "b"]);
    assert_eq!(events(&gm), vec!["enter start", "input start a"]);
    assert_eq!(gm.phase(), &Phase::Stopped);
    let log = gm.into_state();
    assert_eq!(log.events.len(), 2);
}

#[test]
fn dispatch_takes_text_as_given() {
    let mut gm: Engine = GameMaster::new(Log::default(), Sc::Start);
    gm.add_command("note".to_string(), Cmd::Note).unwrap();
    gm.start_game();
    gm.load_pending();
    assert_eq!(gm.dispatch(" note"), Some(Outcome::Continue));
    assert_eq!(gm.dispatch("note"), Some(Outcome::Continue));
    assert_eq!(
        events(&gm),
        vec!["enter start", "input start  note", "command note"]
    );
}
