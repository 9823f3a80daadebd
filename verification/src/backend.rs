//! The color backends and the capability selector.
//!
//! A backend translates a requested color into terminal-specific output: the
//! escape-sequence backend writes standard control sequences into the
//! screen's output stream, the native-console backend sets the screen's
//! attribute word as a platform console API would. Each operation takes
//! exclusive access to the screen, performs exactly one attribute mutation,
//! and releases access again; backends themselves hold no state.

use vstd::prelude::*;

use crate::color::Color;
use crate::screen::{ScreenManager, ScreenView, DEFAULT_ATTRIBUTES};

verus! {

/// The escape byte that opens every control sequence.
pub const ESCAPE: u8 = 27;

/// The byte after the escape byte: `[`.
pub const BRACKET: u8 = 91;

/// The byte that closes a select-graphic-rendition sequence: `m`.
pub const FINISH: u8 = 109;

/// The parameter separator: `;`.
pub const SEPARATOR: u8 = 59;

/// The decimal digits of `n`, as ASCII bytes, without leading zeros.
pub open spec fn decimal_digits(n: int) -> Seq<u8>
    recommends
        0 <= n < 1000,
{
    if n < 10 {
        seq![(48 + n) as u8]
    } else if n < 100 {
        seq![(48 + n / 10) as u8, (48 + n % 10) as u8]
    } else {
        seq![(48 + n / 100) as u8, (48 + (n / 10) % 10) as u8, (48 + n % 10) as u8]
    }
}

/// The parameter bytes of the sequence that sets `c` as foreground
/// (`background == false`, codes 30 to 39) or background (`background ==
/// true`, codes 40 to 49). The extension variant selects from the extended
/// palette with the 38/48 parameter form.
pub open spec fn color_params(c: Color, background: bool) -> Seq<u8> {
    let base: int = if background {
        40
    } else {
        30
    };
    match c {
        Color::Black => decimal_digits(base),
        Color::Red => decimal_digits(base + 1),
        Color::Green => decimal_digits(base + 2),
        Color::Yellow => decimal_digits(base + 3),
        Color::Blue => decimal_digits(base + 4),
        Color::Magenta => decimal_digits(base + 5),
        Color::Cyan => decimal_digits(base + 6),
        Color::White => decimal_digits(base + 7),
        Color::Reset => decimal_digits(base + 9),
        Color::AnsiValue(n) => decimal_digits(base + 8) + seq![SEPARATOR] + decimal_digits(5)
            + seq![SEPARATOR] + decimal_digits(n as int),
    }
}

/// The full escape sequence that sets `c` as foreground or background.
pub open spec fn color_sequence(c: Color, background: bool) -> Seq<u8> {
    seq![ESCAPE, BRACKET] + color_params(c, background) + seq![FINISH]
}

/// The escape sequence that resets all attributes to the terminal default.
pub open spec fn reset_sequence() -> Seq<u8> {
    seq![ESCAPE, BRACKET, 48u8, FINISH]
}

/// The native console color value of `c`: a four-bit value with blue, green
/// and red bits, as a console attribute API encodes it. `Reset` restores the
/// default for the side being set; an extended palette index is folded onto
/// the sixteen native colors.
pub open spec fn native_color_value(c: Color, background: bool) -> u16 {
    match c {
        Color::Black => 0,
        Color::Red => 4,
        Color::Green => 2,
        Color::Yellow => 6,
        Color::Blue => 1,
        Color::Magenta => 5,
        Color::Cyan => 3,
        Color::White => 7,
        Color::Reset => if background {
            0
        } else {
            7
        },
        Color::AnsiValue(n) => (n & 15) as u16,
    }
}

/// The attribute word after setting the foreground nibble to `value`.
pub open spec fn with_foreground(attributes: u16, value: u16) -> u16 {
    (attributes & 0xFFF0) | value
}

/// The attribute word after setting the background nibble to `value`.
pub open spec fn with_background(attributes: u16, value: u16) -> u16 {
    (attributes & 0xFF0F) | (value << 4)
}

fn push_decimal(out: &mut Vec<u8>, n: u16)
    requires
        n < 1000,
    ensures
        final(out)@ == old(out)@ + decimal_digits(n as int),
{
    if n >= 100 {
        out.push(48 + (n / 100) as u8);
        out.push(48 + ((n / 10) % 10) as u8);
        out.push(48 + (n % 10) as u8);
        proof {
            assert(final(out)@ =~= old(out)@ + decimal_digits(n as int));
        }
    } else if n >= 10 {
        out.push(48 + (n / 10) as u8);
        out.push(48 + (n % 10) as u8);
        proof {
            assert(final(out)@ =~= old(out)@ + decimal_digits(n as int));
        }
    } else {
        out.push(48 + n as u8);
        proof {
            assert(final(out)@ =~= old(out)@ + decimal_digits(n as int));
        }
    }
}

/// Build the escape sequence that sets `c` as foreground or background.
pub fn build_color_sequence(c: Color, background: bool) -> (v: Vec<u8>)
    ensures
        v@ == color_sequence(c, background),
{
    let mut v: Vec<u8> = Vec::new();
    v.push(ESCAPE);
    v.push(BRACKET);
    let base: u16 = if background {
        40
    } else {
        30
    };
    match c {
        Color::Black => push_decimal(&mut v, base),
        Color::Red => push_decimal(&mut v, base + 1),
        Color::Green => push_decimal(&mut v, base + 2),
        Color::Yellow => push_decimal(&mut v, base + 3),
        Color::Blue => push_decimal(&mut v, base + 4),
        Color::Magenta => push_decimal(&mut v, base + 5),
        Color::Cyan => push_decimal(&mut v, base + 6),
        Color::White => push_decimal(&mut v, base + 7),
        Color::Reset => push_decimal(&mut v, base + 9),
        Color::AnsiValue(n) => {
            push_decimal(&mut v, base + 8);
            v.push(SEPARATOR);
            push_decimal(&mut v, 5);
            v.push(SEPARATOR);
            push_decimal(&mut v, n as u16);
        },
    }
    v.push(FINISH);
    proof {
        assert(v@ =~= color_sequence(c, background));
    }
    v
}

/// The screen after the escape-sequence backend sets `c` as foreground or
/// background: the sequence is appended to the output under one acquisition.
pub open spec fn escape_apply_color(v: ScreenView, c: Color, background: bool) -> ScreenView {
    ScreenView { output: v.output + color_sequence(c, background), lock_count: v.lock_count + 1, ..v }
}

/// The screen after the escape-sequence backend resets the attributes.
pub open spec fn escape_apply_reset(v: ScreenView) -> ScreenView {
    ScreenView { output: v.output + reset_sequence(), lock_count: v.lock_count + 1, ..v }
}

/// The screen after the native-console backend sets `c` as foreground or
/// background: one nibble of the attribute word changes under one
/// acquisition.
pub open spec fn native_apply_color(v: ScreenView, c: Color, background: bool) -> ScreenView {
    let attributes = if background {
        with_background(v.attributes, native_color_value(c, true))
    } else {
        with_foreground(v.attributes, native_color_value(c, false))
    };
    ScreenView { attributes: attributes, lock_count: v.lock_count + 1, ..v }
}

/// The screen after the native-console backend resets the attributes.
pub open spec fn native_apply_reset(v: ScreenView) -> ScreenView {
    ScreenView { attributes: DEFAULT_ATTRIBUTES, lock_count: v.lock_count + 1, ..v }
}

/// Backend variant that writes standard terminal control sequences into the
/// screen's output stream.
#[derive(Clone, Copy, Debug, PartialEq, Eq, Structural)]
pub struct EscapeSequenceBackend;

/// Backend variant that sets the screen's attribute word the way a platform
/// console attribute API would, instead of emitting bytes.
#[derive(Clone, Copy, Debug, PartialEq, Eq, Structural)]
pub struct NativeConsoleBackend;

impl EscapeSequenceBackend {
    /// Set the foreground color: write one control sequence under one
    /// exclusive acquisition of the screen.
    pub fn set_foreground(&self, c: Color, screen: &mut ScreenManager)
        requires
            !old(screen)@.locked,
        ensures
            final(screen)@ == escape_apply_color(old(screen)@, c, false),
    {
        screen.acquire();
        let bytes = build_color_sequence(c, false);
        screen.write_bytes(&bytes);
        screen.release();
    }

    /// Set the background color: write one control sequence under one
    /// exclusive acquisition of the screen.
    pub fn set_background(&self, c: Color, screen: &mut ScreenManager)
        requires
            !old(screen)@.locked,
        ensures
            final(screen)@ == escape_apply_color(old(screen)@, c, true),
    {
        screen.acquire();
        let bytes = build_color_sequence(c, true);
        screen.write_bytes(&bytes);
        screen.release();
    }

    /// Reset all attributes: write the reset sequence under one exclusive
    /// acquisition of the screen.
    pub fn reset(&self, screen: &mut ScreenManager)
        requires
            !old(screen)@.locked,
        ensures
            final(screen)@ == escape_apply_reset(old(screen)@),
    {
        screen.acquire();
        let bytes = build_reset_sequence();
        screen.write_bytes(&bytes);
        screen.release();
    }
}

impl NativeConsoleBackend {
    /// Set the foreground color: change the foreground nibble of the
    /// attribute word under one exclusive acquisition of the screen.
    pub fn set_foreground(&self, c: Color, screen: &mut ScreenManager)
        requires
            !old(screen)@.locked,
        ensures
            final(screen)@ == native_apply_color(old(screen)@, c, false),
    {
        screen.acquire();
        let value = native_color_value_exec(c, false);
        let attributes = screen.attributes();
        screen.set_attributes((attributes & 0xFFF0) | value);
        screen.release();
    }

    /// Set the background color: change the background nibble of the
    /// attribute word under one exclusive acquisition of the screen.
    pub fn set_background(&self, c: Color, screen: &mut ScreenManager)
        requires
            !old(screen)@.locked,
        ensures
            final(screen)@ == native_apply_color(old(screen)@, c, true),
    {
        screen.acquire();
        let value = native_color_value_exec(c, true);
        let attributes = screen.attributes();
        screen.set_attributes((attributes & 0xFF0F) | (value << 4u16));
        screen.release();
    }

    /// Reset the attribute word to the console default under one exclusive
    /// acquisition of the screen.
    pub fn reset(&self, screen: &mut ScreenManager)
        requires
            !old(screen)@.locked,
        ensures
            final(screen)@ == native_apply_reset(old(screen)@),
    {
        screen.acquire();
        screen.set_attributes(DEFAULT_ATTRIBUTES);
        screen.release();
    }
}

fn native_color_value_exec(c: Color, background: bool) -> (value: u16)
    ensures
        value == native_color_value(c, background),
{
    match c {
        Color::Black => 0,
        Color::Red => 4,
        Color::Green => 2,
        Color::Yellow => 6,
        Color::Blue => 1,
        Color::Magenta => 5,
        Color::Cyan => 3,
        Color::White => 7,
        Color::Reset => if background {
            0
        } else {
            7
        },
        Color::AnsiValue(n) => (n & 15) as u16,
    }
}

/// The backend chosen for a facade: one of the two concrete variants.
#[derive(Clone, Copy, Debug, PartialEq, Eq, Structural)]
pub enum ColorBackend {
    EscapeSequence(EscapeSequenceBackend),
    NativeConsole(NativeConsoleBackend),
}

/// The screen after backend `b` sets `c` as foreground or background.
pub open spec fn apply_set_color(b: ColorBackend, c: Color, background: bool, v: ScreenView) -> ScreenView {
    match b {
        ColorBackend::EscapeSequence(_) => escape_apply_color(v, c, background),
        ColorBackend::NativeConsole(_) => native_apply_color(v, c, background),
    }
}

/// The screen after backend `b` resets the attributes.
pub open spec fn apply_reset(b: ColorBackend, v: ScreenView) -> ScreenView {
    match b {
        ColorBackend::EscapeSequence(_) => escape_apply_reset(v),
        ColorBackend::NativeConsole(_) => native_apply_reset(v),
    }
}

impl ColorBackend {
    /// Set the foreground color through the selected variant.
    pub fn set_foreground(&self, c: Color, screen: &mut ScreenManager)
        requires
            !old(screen)@.locked,
        ensures
            final(screen)@ == apply_set_color(*self, c, false, old(screen)@),
    {
        match self {
            ColorBackend::EscapeSequence(b) => b.set_foreground(c, screen),
            ColorBackend::NativeConsole(b) => b.set_foreground(c, screen),
        }
    }

    /// Set the background color through the selected variant.
    pub fn set_background(&self, c: Color, screen: &mut ScreenManager)
        requires
            !old(screen)@.locked,
        ensures
            final(screen)@ == apply_set_color(*self, c, true, old(screen)@),
    {
        match self {
            ColorBackend::EscapeSequence(b) => b.set_background(c, screen),
            ColorBackend::NativeConsole(b) => b.set_background(c, screen),
        }
    }

    /// Reset all attributes through the selected variant.
    pub fn reset(&self, screen: &mut ScreenManager)
        requires
            !old(screen)@.locked,
        ensures
            final(screen)@ == apply_reset(*self, old(screen)@),
    {
        match self {
            ColorBackend::EscapeSequence(b) => b.reset(screen),
            ColorBackend::NativeConsole(b) => b.reset(screen),
        }
    }
}

/// What the runtime platform offers for styling.
#[derive(Clone, Copy, Debug, PartialEq, Eq, Structural)]
pub struct Platform {
    /// A native console attribute API is available.
    pub native_console_available: bool,
    /// The terminal understands standard escape sequences.
    pub ansi_supported: bool,
}

/// The selection policy: on a platform offering only a native console
/// attribute API, the native backend; wherever escape sequences are
/// understood, the escape-sequence backend; no backend when the platform
/// offers neither.
pub open spec fn spec_select_backend(platform: Platform) -> Option<ColorBackend> {
    if platform.native_console_available && !platform.ansi_supported {
        Some(ColorBackend::NativeConsole(NativeConsoleBackend))
    } else if platform.ansi_supported {
        Some(ColorBackend::EscapeSequence(EscapeSequenceBackend))
    } else {
        None
    }
}

/// Choose the backend for a platform, once, at facade construction. Total:
/// it yields a backend or, in the degraded case, no backend, and never fails.
pub fn select_backend(platform: Platform) -> (b: Option<ColorBackend>)
    ensures
        b == spec_select_backend(platform),
{
    if platform.native_console_available && !platform.ansi_supported {
        Some(ColorBackend::NativeConsole(NativeConsoleBackend))
    } else if platform.ansi_supported {
        Some(ColorBackend::EscapeSequence(EscapeSequenceBackend))
    } else {
        None
    }
}

/// Setting the foreground, resetting, then setting the background performs
/// exactly three attribute mutations against the shared screen, each under
/// an exclusive acquisition of its own: the acquisition count grows by
/// exactly three, no acquisition outlives its operation, and with the
/// escape-sequence backend the output grows by exactly the three sequences,
/// in order.
pub proof fn lemma_three_operations_three_acquisitions(
    b: ColorBackend,
    v0: ScreenView,
    fg: Color,
    bg: Color,
)
    requires
        !v0.locked,
    ensures
        ({
            let v1 = apply_set_color(b, fg, false, v0);
            let v2 = apply_reset(b, v1);
            let v3 = apply_set_color(b, bg, true, v2);
            &&& !v1.locked
            &&& !v2.locked
            &&& !v3.locked
            &&& v1.lock_count == v0.lock_count + 1
            &&& v2.lock_count == v0.lock_count + 2
            &&& v3.lock_count == v0.lock_count + 3
            &&& (b is EscapeSequence ==> v3.output == v0.output + color_sequence(fg, false)
                + reset_sequence() + color_sequence(bg, true))
            &&& (b is NativeConsole ==> {
                &&& v1.attributes == with_foreground(v0.attributes, native_color_value(fg, false))
                &&& v2.attributes == DEFAULT_ATTRIBUTES
                &&& v3.attributes == with_background(DEFAULT_ATTRIBUTES, native_color_value(bg, true))
            })
        }),
{
    let v1 = apply_set_color(b, fg, false, v0);
    let v2 = apply_reset(b, v1);
    let v3 = apply_set_color(b, bg, true, v2);
    if b is EscapeSequence {
        assert(v3.output =~= v0.output + color_sequence(fg, false) + reset_sequence()
            + color_sequence(bg, true));
    }
}

/// A native console color value always fits in its four-bit nibble.
pub proof fn lemma_native_value_bounded(c: Color, background: bool)
    ensures
        native_color_value(c, background) < 16,
{
    if let Color::AnsiValue(n) = c {
        assert((n & 15) < 16) by (bit_vector);
    }
}

/// With the native-console backend, a later call simply overwrites the
/// attribute nibble an earlier call of the same operation set: after setting
/// a color twice the screen is exactly as if only the later call had run,
/// apart from the second acquisition on record.
pub proof fn lemma_native_later_call_overwrites(
    c1: Color,
    c2: Color,
    background: bool,
    v: ScreenView,
)
    ensures
        ({
            let b = ColorBackend::NativeConsole(NativeConsoleBackend);
            apply_set_color(b, c2, background, apply_set_color(b, c1, background, v))
                == (ScreenView {
                lock_count: v.lock_count + 2,
                ..apply_set_color(b, c2, background, v)
            })
        }),
{
    lemma_native_value_bounded(c1, background);
    let a = v.attributes;
    let v1 = native_color_value(c1, background);
    let v2 = native_color_value(c2, background);
    if background {
        assert(v1 < 16 ==> ((a & 0xFF0F | (v1 << 4)) & 0xFF0F) | (v2 << 4) == (a & 0xFF0F) | (v2
            << 4)) by (bit_vector);
    } else {
        assert(v1 < 16 ==> ((a & 0xFFF0 | v1) & 0xFFF0) | v2 == (a & 0xFFF0) | v2)
            by (bit_vector);
    }
}

/// Build the escape sequence that resets all attributes.
pub fn build_reset_sequence() -> (v: Vec<u8>)
    ensures
        v@ == reset_sequence(),
{
    let mut v: Vec<u8> = Vec::new();
    v.push(ESCAPE);
    v.push(BRACKET);
    v.push(48);
    v.push(FINISH);
    proof {
        assert(v@ =~= reset_sequence());
    }
    v
}

} // verus!
