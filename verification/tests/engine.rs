use loading::engine::Loading;
use loading::spinner::Spinner;
use std::time::Duration;

const CLEAR: &str = "\x1B[2K\x1B[0G";

#[test]
fn commands_reach_the_renderer_in_order() {
    let (loading, _ticker, mut renderer) = Loading::create(Spinner::new(vec!["+", "-"]));
    loading.text("x");
    loading.fail("y");
    loading.text("z");
    assert_eq!(renderer.step(), Some(format!("{} x", CLEAR)));
    assert_eq!(
        renderer.step(),
        Some(format!("{}\x1B[31m✖\x1B[0m y\n", CLEAR))
    );
    assert_eq!(renderer.step(), Some(format!("{} z", CLEAR)));
}

#[test]
fn each_command_sends_its_own_outcome() {
    let (loading, _ticker, mut renderer) = Loading::create(Spinner::new(vec!["+"]));
    loading.success("a");
    loading.fail("b");
    loading.warn("c");
    loading.info("d");
    assert_eq!(renderer.step().unwrap(), "\x1B[2K\x1B[0G\x1B[32m✔\x1B[0m a\n");
    assert_eq!(renderer.step().unwrap(), "\x1B[2K\x1B[0G\x1B[31m✖\x1B[0m b\n");
    assert_eq!(renderer.step().unwrap(), "\x1B[2K\x1B[0G\x1B[33m⚠\x1B[0m c\n");
    assert_eq!(renderer.step().unwrap(), "\x1B[2K\x1B[0G\x1B[34mℹ\x1B[0m d\n");
}

#[test]
fn ticks_move_the_marker_on_the_line() {
    let (loading, mut ticker, mut renderer) = Loading::create(Spinner::new(vec!["+", "-"]));
    loading.text("A");
    assert!(ticker.tick());
    assert!(ticker.tick());
    assert!(ticker.tick());
    assert_eq!(renderer.step().unwrap(), "\x1B[2K\x1B[0G A");
    assert_eq!(renderer.step().unwrap(), "\x1B[2K\x1B[0G+ A");
    assert_eq!(renderer.step().unwrap(), "\x1B[2K\x1B[0G- A");
    assert_eq!(renderer.step().unwrap(), "\x1B[2K\x1B[0G+ A");
    loading.text("B");
    assert_eq!(renderer.step().unwrap(), "\x1B[2K\x1B[0G+ B");
}

#[test]
fn ticker_keeps_the_pause_of_its_spinner() {
    let mut spinner = Spinner::new(vec!["+"]);
    spinner.interval(Duration::from_millis(5));
    let (_loading, ticker, _renderer) = Loading::create(spinner);
    assert_eq!(ticker.pause(), Duration::from_millis(5));
    let (_loading, ticker, _renderer) = Loading::create(Spinner::default());
    assert_eq!(ticker.pause(), Duration::from_millis(80));
}

#[test]
fn ticker_stops_once_the_renderer_is_gone() {
    let (_loading, mut ticker, renderer) = Loading::create(Spinner::new(vec!["+", "-"]));
    assert!(ticker.tick());
    drop(renderer);
    assert!(!ticker.tick());
    assert!(!ticker.tick());
}

#[test]
fn commands_after_the_renderer_is_gone_are_dropped_silently() {
    let (loading, _ticker, renderer) = Loading::create(Spinner::new(vec!["+"]));
    drop(renderer);
    loading.text("late");
    loading.success("late");
    loading.fail("late");
    loading.warn("late");
    loading.info("late");
    loading.end();
}

#[test]
fn renderer_stops_once_every_sender_is_gone() {
    let (loading, ticker, mut renderer) = Loading::create(Spinner::new(vec!["+"]));
    loading.text("last");
    drop(loading);
    drop(ticker);
    assert_eq!(renderer.step().unwrap(), "\x1B[2K\x1B[0G last");
    assert_eq!(renderer.step(), None);
    assert_eq!(renderer.step(), None);
}
