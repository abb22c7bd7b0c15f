use loading::spinner::Spinner;
use std::time::Duration;

#[test]
fn first_round_hands_out_each_glyph_in_order() {
    let mut spinner = Spinner::new(vec!["+", "-", "*", "/"]);
    assert_eq!(spinner.next(), "+");
    assert_eq!(spinner.next(), "-");
    assert_eq!(spinner.next(), "*");
    assert_eq!(spinner.next(), "/");
}

#[test]
fn wrap_hands_out_first_glyph_then_second() {
    let mut spinner = Spinner::new(vec!["a", "b", "c"]);
    for _ in 0..3 {
        spinner.next();
    }
    assert_eq!(spinner.next(), "a");
    assert_eq!(spinner.next(), "b");
    assert_eq!(spinner.next(), "c");
    assert_eq!(spinner.next(), "a");
    assert_eq!(spinner.next(), "b");
}

#[test]
fn glyphs_repeat_with_the_length_as_period() {
    let frames = vec!["1", "2", "3", "4", "5"];
    let mut spinner = Spinner::new(frames.clone());
    let mut seen = Vec::new();
    for _ in 0..23 {
        seen.push(spinner.next());
    }
    for (k, glyph) in seen.iter().enumerate() {
        assert_eq!(*glyph, frames[k % 5]);
    }
}

#[test]
fn single_glyph_is_handed_out_every_time() {
    let mut spinner = Spinner::new(vec!["o"]);
    for _ in 0..5 {
        assert_eq!(spinner.next(), "o");
    }
}

#[test]
fn two_glyphs_alternate() {
    let mut spinner = Spinner::new(vec!["<", ">"]);
    let seen: Vec<&str> = (0..6).map(|_| spinner.next()).collect();
    assert_eq!(seen, vec!["<", ">", "<", ">", "<", ">"]);
}

#[test]
fn multi_byte_glyphs_are_kept_whole() {
    let mut spinner = Spinner::new(vec!["∙∙∙", "●∙∙", "∙●∙", "∙∙●"]);
    assert_eq!(spinner.next(), "∙∙∙");
    assert_eq!(spinner.next(), "●∙∙");
    assert_eq!(spinner.next(), "∙●∙");
    assert_eq!(spinner.next(), "∙∙●");
    assert_eq!(spinner.next(), "∙∙∙");
}

#[test]
fn default_spinner_is_braille() {
    let mut spinner = Spinner::default();
    let expected = vec!["⠋", "⠙", "⠹", "⠸", "⠼", "⠴", "⠦", "⠧", "⠇", "⠏"];
    for glyph in expected.iter() {
        assert_eq!(spinner.next(), *glyph);
    }
    assert_eq!(spinner.next(), "⠋");
}

#[test]
fn pause_is_80_milliseconds_unless_set() {
    let mut spinner = Spinner::new(vec!["+"]);
    assert_eq!(spinner.pause(), Duration::from_millis(80));
    assert_eq!(Spinner::default().pause(), Duration::from_millis(80));
    spinner.interval(Duration::from_millis(250));
    assert_eq!(spinner.pause(), Duration::from_millis(250));
    assert_eq!(spinner.next(), "+");
}
