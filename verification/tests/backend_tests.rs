use term_color::backend::{
    build_color_sequence, build_reset_sequence, select_backend, ColorBackend, Platform,
};
use term_color::color::Color;
use term_color::screen::ScreenManager;

#[test]
fn escape_sequences_for_named_foregrounds() {
    assert_eq!(build_color_sequence(Color::Black, false), b"\x1b[30m".to_vec());
    assert_eq!(build_color_sequence(Color::Red, false), b"\x1b[31m".to_vec());
    assert_eq!(build_color_sequence(Color::Green, false), b"\x1b[32m".to_vec());
    assert_eq!(build_color_sequence(Color::Yellow, false), b"\x1b[33m".to_vec());
    assert_eq!(build_color_sequence(Color::Blue, false), b"\x1b[34m".to_vec());
    assert_eq!(build_color_sequence(Color::Magenta, false), b"\x1b[35m".to_vec());
    assert_eq!(build_color_sequence(Color::Cyan, false), b"\x1b[36m".to_vec());
    assert_eq!(build_color_sequence(Color::White, false), b"\x1b[37m".to_vec());
    assert_eq!(build_color_sequence(Color::Reset, false), b"\x1b[39m".to_vec());
}

#[test]
fn escape_sequences_for_named_backgrounds() {
    assert_eq!(build_color_sequence(Color::Black, true), b"\x1b[40m".to_vec());
    assert_eq!(build_color_sequence(Color::Blue, true), b"\x1b[44m".to_vec());
    assert_eq!(build_color_sequence(Color::White, true), b"\x1b[47m".to_vec());
    assert_eq!(build_color_sequence(Color::Reset, true), b"\x1b[49m".to_vec());
}

#[test]
fn escape_sequences_for_extended_palette() {
    assert_eq!(build_color_sequence(Color::AnsiValue(200), false), b"\x1b[38;5;200m".to_vec());
    assert_eq!(build_color_sequence(Color::AnsiValue(5), false), b"\x1b[38;5;5m".to_vec());
    assert_eq!(build_color_sequence(Color::AnsiValue(42), false), b"\x1b[38;5;42m".to_vec());
    assert_eq!(build_color_sequence(Color::AnsiValue(0), true), b"\x1b[48;5;0m".to_vec());
    assert_eq!(build_color_sequence(Color::AnsiValue(255), true), b"\x1b[48;5;255m".to_vec());
}

#[test]
fn reset_sequence_is_sgr_zero() {
    assert_eq!(build_reset_sequence(), b"\x1b[0m".to_vec());
}

#[test]
fn selector_prefers_native_when_it_is_the_only_path() {
    let chosen = select_backend(Platform { native_console_available: true, ansi_supported: false });
    assert!(matches!(chosen, Some(ColorBackend::NativeConsole(_))));
}

#[test]
fn selector_falls_back_to_escape_sequences() {
    let ansi_only = select_backend(Platform { native_console_available: false, ansi_supported: true });
    assert!(matches!(ansi_only, Some(ColorBackend::EscapeSequence(_))));
    let both = select_backend(Platform { native_console_available: true, ansi_supported: true });
    assert!(matches!(both, Some(ColorBackend::EscapeSequence(_))));
}

#[test]
fn selector_degrades_to_no_backend() {
    let neither = select_backend(Platform { native_console_available: false, ansi_supported: false });
    assert!(neither.is_none());
}

#[test]
fn escape_backend_appends_one_sequence_per_operation() {
    let mut screen = ScreenManager::new();
    let backend = match select_backend(Platform { native_console_available: false, ansi_supported: true }) {
        Some(b) => b,
        None => panic!("an escape-capable platform always yields a backend"),
    };
    backend.set_foreground(Color::Red, &mut screen);
    assert_eq!(screen.output().as_slice(), b"\x1b[31m");
    backend.set_background(Color::Blue, &mut screen);
    assert_eq!(screen.output().as_slice(), b"\x1b[31m\x1b[44m");
    backend.reset(&mut screen);
    assert_eq!(screen.output().as_slice(), b"\x1b[31m\x1b[44m\x1b[0m");
    assert_eq!(screen.attributes(), 7);
}

#[test]
fn native_backend_sets_attribute_nibbles() {
    let mut screen = ScreenManager::new();
    let backend = match select_backend(Platform { native_console_available: true, ansi_supported: false }) {
        Some(b) => b,
        None => panic!("a native-console platform always yields a backend"),
    };
    assert_eq!(screen.attributes(), 0x07);
    backend.set_foreground(Color::Red, &mut screen);
    assert_eq!(screen.attributes(), 0x04);
    backend.set_background(Color::Blue, &mut screen);
    assert_eq!(screen.attributes(), 0x14);
    backend.set_foreground(Color::AnsiValue(200), &mut screen);
    assert_eq!(screen.attributes(), 0x18);
    backend.reset(&mut screen);
    assert_eq!(screen.attributes(), 0x07);
    assert!(screen.output().is_empty());
}

#[test]
fn native_backend_reset_colors() {
    let mut screen = ScreenManager::new();
    let backend = ColorBackend::NativeConsole(term_color::backend::NativeConsoleBackend);
    backend.set_foreground(Color::Reset, &mut screen);
    assert_eq!(screen.attributes() & 0x0F, 0x07);
    backend.set_background(Color::Reset, &mut screen);
    assert_eq!(screen.attributes() >> 4 & 0x0F, 0x00);
}

#[test]
fn fresh_screen_is_empty_and_default() {
    let screen = ScreenManager::new();
    assert!(screen.output().is_empty());
    assert_eq!(screen.attributes(), 7);
}
