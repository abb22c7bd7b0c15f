use loading::display::DisplayState;
use loading::signal::Signal;
use loading::status::Status;
use std::sync::mpsc::channel;

const CLEAR: &str = "\x1B[2K\x1B[0G";

fn text(s: &str) -> Signal {
    Signal::Text(s.to_string())
}

#[test]
fn text_then_frame_renders_frame_and_text() {
    let mut display = DisplayState::new();
    let first = display.apply(text("A"));
    assert_eq!(first.output, format!("{} A", CLEAR));
    assert!(first.ack.is_none());
    let second = display.apply(Signal::Frame("⠋"));
    assert_eq!(second.output, format!("{}⠋ A", CLEAR));
    assert_eq!(second.output, "\x1B[2K\x1B[0G⠋ A");
}

#[test]
fn second_text_replaces_the_line() {
    let mut display = DisplayState::new();
    display.apply(Signal::Frame("+"));
    display.apply(text("a long first text"));
    let out = display.apply(text("B"));
    assert_eq!(out.output, "\x1B[2K\x1B[0G+ B");
    let out = display.apply(Signal::Frame("-"));
    assert_eq!(out.output, "\x1B[2K\x1B[0G- B");
}

#[test]
fn frame_before_any_text_renders_glyph_and_space() {
    let mut display = DisplayState::new();
    let out = display.apply(Signal::Frame("+"));
    assert_eq!(out.output, "\x1B[2K\x1B[0G+ ");
}

#[test]
fn commit_success_ends_the_line_and_resets_the_text() {
    let mut display = DisplayState::new();
    display.apply(Signal::Frame("+"));
    display.apply(text("working"));
    let out = display.apply(Signal::Next(Status::Success, "done".to_string()));
    assert_eq!(out.output, "\x1B[2K\x1B[0G\x1B[32m✔\x1B[0m done\n");
    assert!(out.ack.is_none());
    let out = display.apply(Signal::Frame("-"));
    assert_eq!(out.output, "\x1B[2K\x1B[0G- ");
    assert!(!out.output.contains("done"));
    assert!(!out.output.contains("working"));
}

#[test]
fn each_outcome_commits_with_its_mark() {
    let mut display = DisplayState::new();
    let out = display.apply(Signal::Next(Status::Fail, "f".to_string()));
    assert_eq!(out.output, "\x1B[2K\x1B[0G\x1B[31m✖\x1B[0m f\n");
    let out = display.apply(Signal::Next(Status::Warn, "w".to_string()));
    assert_eq!(out.output, "\x1B[2K\x1B[0G\x1B[33m⚠\x1B[0m w\n");
    let out = display.apply(Signal::Next(Status::Info, "i".to_string()));
    assert_eq!(out.output, "\x1B[2K\x1B[0G\x1B[34mℹ\x1B[0m i\n");
}

#[test]
fn commit_keeps_the_glyph_for_a_later_text() {
    let mut display = DisplayState::new();
    display.apply(Signal::Frame("*"));
    display.apply(Signal::Next(Status::Info, "note".to_string()));
    let out = display.apply(text("next"));
    assert_eq!(out.output, "\x1B[2K\x1B[0G* next");
}

#[test]
fn exit_clears_the_line_and_hands_out_the_sender() {
    let mut display = DisplayState::new();
    display.apply(Signal::Frame("+"));
    display.apply(text("x"));
    let (ack, answer) = channel();
    let out = display.apply(Signal::Exit(ack));
    assert_eq!(out.output, "\x1B[2K\x1B[0G");
    let ack = out.ack.expect("an exit hands out its sender");
    ack.send(()).unwrap();
    assert_eq!(answer.recv(), Ok(()));
}

#[test]
fn text_commit_exit_in_order() {
    let mut display = DisplayState::new();
    let (ack, _answer) = channel();
    let signals = vec![
        text("x"),
        Signal::Next(Status::Fail, "y".to_string()),
        Signal::Exit(ack),
    ];
    let mut written = String::new();
    for signal in signals {
        written.push_str(&display.apply(signal).output);
    }
    assert_eq!(
        written,
        "\x1B[2K\x1B[0G x\x1B[2K\x1B[0G\x1B[31m✖\x1B[0m y\n\x1B[2K\x1B[0G"
    );
}

#[test]
fn empty_texts_are_rendered_as_they_are() {
    let mut display = DisplayState::new();
    let out = display.apply(text(""));
    assert_eq!(out.output, "\x1B[2K\x1B[0G ");
    let out = display.apply(Signal::Next(Status::Success, String::new()));
    assert_eq!(out.output, "\x1B[2K\x1B[0G\x1B[32m✔\x1B[0m \n");
}
