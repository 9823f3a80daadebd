use term_color::color::Color;

#[test]
fn parses_every_canonical_name() {
    assert_eq!(Color::from_text("black"), Color::Black);
    assert_eq!(Color::from_text("red"), Color::Red);
    assert_eq!(Color::from_text("green"), Color::Green);
    assert_eq!(Color::from_text("yellow"), Color::Yellow);
    assert_eq!(Color::from_text("blue"), Color::Blue);
    assert_eq!(Color::from_text("magenta"), Color::Magenta);
    assert_eq!(Color::from_text("cyan"), Color::Cyan);
    assert_eq!(Color::from_text("white"), Color::White);
    assert_eq!(Color::from_text("reset"), Color::Reset);
}

#[test]
fn parsing_ignores_case() {
    assert_eq!(Color::from_text("RED"), Color::Red);
    assert_eq!(Color::from_text("Red"), Color::Red);
    assert_eq!(Color::from_text("rEd"), Color::Red);
    assert_eq!(Color::from_text("MAGENTA"), Color::Magenta);
    assert_eq!(Color::from_text("BlAcK"), Color::Black);
}

#[test]
fn parsing_ignores_surrounding_whitespace() {
    assert_eq!(Color::from_text("  red"), Color::Red);
    assert_eq!(Color::from_text("red   "), Color::Red);
    assert_eq!(Color::from_text("\t Red \n"), Color::Red);
    assert_eq!(Color::from_text(" \r\n cyan \t"), Color::Cyan);
}

#[test]
fn parsing_is_idempotent_on_names() {
    let inputs = ["black", " RED ", "Green", "\tyellow\n", "BLUE", "magenta", "CYAN", "white", "Reset"];
    for text in inputs {
        let first = Color::from_text(text);
        let canonical = match first {
            Color::Black => "black",
            Color::Red => "red",
            Color::Green => "green",
            Color::Yellow => "yellow",
            Color::Blue => "blue",
            Color::Magenta => "magenta",
            Color::Cyan => "cyan",
            Color::White => "white",
            Color::Reset => "reset",
            Color::AnsiValue(_) => panic!("parsing never yields the extension variant"),
        };
        assert_eq!(Color::from_text(canonical), first);
    }
}

#[test]
fn unrecognized_text_parses_to_default() {
    assert_eq!(Color::from_text(""), Color::White);
    assert_eq!(Color::from_text("   "), Color::White);
    assert_eq!(Color::from_text("fuchsia"), Color::White);
    assert_eq!(Color::from_text("redd"), Color::White);
    assert_eq!(Color::from_text("re d"), Color::White);
    assert_eq!(Color::from_text("256"), Color::White);
    assert_eq!(Color::from_text("schwarz"), Color::White);
}

#[test]
fn parsing_does_not_trim_inner_whitespace() {
    assert_eq!(Color::from_text("dark red"), Color::White);
}

#[test]
fn non_ascii_text_parses_to_default() {
    assert_eq!(Color::from_text("röt"), Color::White);
    assert_eq!(Color::from_text("červená"), Color::White);
}
