use terminal_gpt::errors::CustomError;
use terminal_gpt::interaction::{advance, is_exit, trim_input, LoopAction, LoopEvent, LoopState};

fn line(text: &str) -> LoopEvent {
    LoopEvent::Line(String::from(text))
}

#[test]
fn exit_in_any_case_ends_the_loop() {
    for word in ["exit", "Exit", "EXIT", "eXiT", "exiT", "EXit"] {
        assert!(is_exit(word), "{}", word);
        let (state, action) = advance(LoopState::Running, line(word));
        assert_eq!(state, LoopState::Terminated);
        assert!(matches!(action, LoopAction::Stop), "{}", word);
    }
}

#[test]
fn exit_as_typed_ends_the_loop_once_trimmed() {
    for typed in ["exit\n", "  Exit \r\n", "\tEXIT\t\n"] {
        let (state, action) = advance(LoopState::Running, LoopEvent::Line(trim_input(typed)));
        assert_eq!(state, LoopState::Terminated);
        assert!(matches!(action, LoopAction::Stop));
    }
}

#[test]
fn other_lines_ask_for_an_exchange() {
    let lines =
        ["", "hi", "exit now", "exits", "exi", "e x i t", "quit", "ex\u{131}t", " exit", "exit\n"];
    for text in lines {
        assert!(!is_exit(text), "{}", text);
        let (state, action) = advance(LoopState::Running, line(text));
        assert_eq!(state, LoopState::Running);
        match action {
            LoopAction::Exchange(sent) => assert_eq!(sent, text),
            other => panic!("unexpected action: {:?}", other),
        }
    }
}

#[test]
fn failed_input_ends_the_loop() {
    let (state, action) = advance(LoopState::Running, LoopEvent::InputFailed);
    assert_eq!(state, LoopState::Terminated);
    assert!(matches!(action, LoopAction::Stop));
}

#[test]
fn the_loop_runs_on_after_an_exchange() {
    let (state, action) = advance(LoopState::Running, LoopEvent::TurnSucceeded);
    assert_eq!(state, LoopState::Running);
    assert!(matches!(action, LoopAction::Prompt));

    let (state, action) =
        advance(LoopState::Running, LoopEvent::TurnFailed(CustomError::NoMessageFound));
    assert_eq!(state, LoopState::Running);
    match action {
        LoopAction::Report(text) => assert_eq!(text, "No message found in response."),
        other => panic!("unexpected action: {:?}", other),
    }

    let (state, action) =
        advance(LoopState::Running, LoopEvent::TurnFailed(CustomError::Response(500)));
    assert_eq!(state, LoopState::Running);
    match action {
        LoopAction::Report(text) => {
            assert_eq!(text, "Server responded with status: 500 Internal Server Error")
        }
        other => panic!("unexpected action: {:?}", other),
    }
}

#[test]
fn a_terminated_loop_stays_terminated() {
    let events = vec![
        LoopEvent::InputFailed,
        line("hi"),
        line("exit"),
        LoopEvent::TurnSucceeded,
        LoopEvent::TurnFailed(CustomError::NoMessageFound),
    ];
    for event in events {
        let (state, action) = advance(LoopState::Terminated, event);
        assert_eq!(state, LoopState::Terminated);
        assert!(matches!(action, LoopAction::Stop));
    }
}

#[test]
fn trim_input_removes_surrounding_whitespace() {
    assert_eq!(trim_input("hello\n"), "hello");
    assert_eq!(trim_input("  hello world \t\r\n"), "hello world");
    assert_eq!(trim_input("\u{a0}\u{3000}x\u{2003}"), "x");
    assert_eq!(trim_input("a\tb"), "a\tb");
    assert_eq!(trim_input(""), "");
    assert_eq!(trim_input(" \n\t "), "");
    assert_eq!(trim_input("x"), "x");
}

#[test]
fn is_exit_ignores_only_ascii_case() {
    assert!(is_exit("exit"));
    assert!(is_exit("ExIt"));
    assert!(!is_exit(" exit"));
    assert!(!is_exit("exit "));
    assert!(!is_exit("exit\n"));
    assert!(!is_exit(""));
    assert!(!is_exit("ex\u{130}t"));
    assert!(!is_exit("\u{ff45}xit"));
}
