use term_color::backend::{ColorBackend, Platform};
use term_color::color::Color;
use term_color::{color, Context, TerminalColor};

fn ansi_platform() -> Platform {
    Platform { native_console_available: false, ansi_supported: true }
}

fn native_platform() -> Platform {
    Platform { native_console_available: true, ansi_supported: false }
}

fn bare_platform() -> Platform {
    Platform { native_console_available: false, ansi_supported: false }
}

#[test]
fn construction_never_fails() {
    let with_backend = TerminalColor::new(Context::new(ansi_platform()));
    assert!(with_backend.color.is_some());
    let degraded = TerminalColor::new(Context::new(bare_platform()));
    assert!(degraded.color.is_none());
}

#[test]
fn factory_matches_constructor() {
    let boxed = color(Context::new(native_platform()));
    assert!(matches!(boxed.color, Some(ColorBackend::NativeConsole(_))));
    assert!(boxed.screen_manager.output().is_empty());
}

#[test]
fn three_operations_emit_three_sequences() {
    let mut tc = TerminalColor::new(Context::new(ansi_platform()));
    tc.set_fg(Color::Red);
    tc.reset();
    tc.set_bg(Color::Blue);
    assert_eq!(tc.screen_manager.output().as_slice(), b"\x1b[31m\x1b[0m\x1b[44m");
}

#[test]
fn operations_without_backend_are_silent() {
    let mut tc = TerminalColor::new(Context::new(bare_platform()));
    tc.set_fg(Color::Red);
    tc.set_bg(Color::from_text("blue"));
    tc.reset();
    assert!(tc.screen_manager.output().is_empty());
    assert_eq!(tc.screen_manager.attributes(), 7);
    assert!(tc.color.is_none());
}

#[test]
fn color_count_extended_tier() {
    let tc = TerminalColor::new(Context::new(ansi_platform()));
    assert_eq!(tc.get_available_color_count(Some("xterm-256color")), 256);
    assert_eq!(tc.get_available_color_count(Some("screen-256color-bce")), 256);
    assert_eq!(tc.get_available_color_count(Some("256color")), 256);
}

#[test]
fn color_count_base_tier() {
    let tc = TerminalColor::new(Context::new(ansi_platform()));
    assert_eq!(tc.get_available_color_count(None), 8);
    assert_eq!(tc.get_available_color_count(Some("xterm")), 8);
    assert_eq!(tc.get_available_color_count(Some("")), 8);
    assert_eq!(tc.get_available_color_count(Some("xterm-256")), 8);
    assert_eq!(tc.get_available_color_count(Some("dumb")), 8);
}

#[test]
fn parsed_and_named_color_emit_identical_bytes() {
    let mut named = TerminalColor::new(Context::new(ansi_platform()));
    named.set_fg(Color::Red);
    let mut parsed = TerminalColor::new(Context::new(ansi_platform()));
    parsed.set_fg(Color::from_text("red"));
    assert_eq!(named.screen_manager.output(), parsed.screen_manager.output());
    assert_eq!(named.screen_manager.output().as_slice(), b"\x1b[31m");
}

#[test]
fn parsed_and_named_color_set_identical_attributes() {
    let mut named = TerminalColor::new(Context::new(native_platform()));
    named.set_fg(Color::Red);
    let mut parsed = TerminalColor::new(Context::new(native_platform()));
    parsed.set_fg(Color::from_text("red"));
    assert_eq!(named.screen_manager.attributes(), parsed.screen_manager.attributes());
    assert_eq!(named.screen_manager.attributes(), 4);
}

#[test]
fn later_calls_overwrite_earlier_attributes() {
    let mut tc = TerminalColor::new(Context::new(native_platform()));
    tc.set_fg(Color::Green);
    tc.set_fg(Color::Cyan);
    assert_eq!(tc.screen_manager.attributes() & 0x0F, 3);
    tc.set_bg(Color::White);
    tc.set_bg(Color::Magenta);
    assert_eq!(tc.screen_manager.attributes(), 0x53);
}
