//! A terminal color control layer.
//!
//! Callers set foreground and background colors, or reset the terminal's
//! attributes, without knowing whether the terminal understands escape
//! sequences or requires a native console attribute call. A facade owns the
//! backend chosen once for the platform and a handle to the shared screen
//! state; every styling call is forwarded to that backend, which performs
//! exactly one attribute mutation under one exclusive acquisition of the
//! screen state.

pub mod backend;
pub mod capability;
pub mod color;
pub mod screen;

use vstd::prelude::*;

use crate::backend::{
    apply_reset, apply_set_color, spec_select_backend, select_backend, ColorBackend, Platform,
};
use crate::capability::{contains_seq, contains_str};
use crate::color::Color;
use crate::screen::{ScreenManager, ScreenView};

verus! {

/// The number of colors reported for a terminal whose capability signal
/// carries the extended-palette marker.
pub const EXTENDED_COLOR_COUNT: u16 = 256;

/// The number of colors reported for every other terminal, the conservative
/// base tier.
pub const BASE_COLOR_COUNT: u16 = 8;

/// The marker substring in the capability signal that announces an extended
/// palette.
pub const EXTENDED_PALETTE_MARKER: &'static str = "256color";

/// What a caller supplies to construct a facade: the shared screen state and
/// what the runtime platform offers. In the wider system the screen state is
/// held jointly by every styling subsystem; the facade takes this handle over
/// and serializes every mutation through its exclusive-access discipline.
pub struct Context {
    /// The shared screen state the facade will style against.
    pub screen_manager: ScreenManager,
    /// What the runtime platform offers, read once at construction.
    pub platform: Platform,
}

impl Context {
    /// A context around a fresh screen for the given platform.
    pub fn new(platform: Platform) -> (c: Context)
        ensures
            c.platform == platform,
            c.screen_manager@.output == Seq::<u8>::empty(),
            c.screen_manager@.attributes == crate::screen::DEFAULT_ATTRIBUTES,
            !c.screen_manager@.locked,
            c.screen_manager@.lock_count == 0,
    {
        Context { screen_manager: ScreenManager::new(), platform }
    }
}

/// The screen after a facade with backend `b` sets a color: unchanged when no
/// backend was selected, otherwise what the backend performs.
pub open spec fn facade_apply_set_color(
    b: Option<ColorBackend>,
    c: Color,
    background: bool,
    v: ScreenView,
) -> ScreenView {
    match b {
        Some(backend) => apply_set_color(backend, c, background, v),
        None => v,
    }
}

/// The screen after a facade with backend `b` resets the attributes.
pub open spec fn facade_apply_reset(b: Option<ColorBackend>, v: ScreenView) -> ScreenView {
    match b {
        Some(backend) => apply_reset(backend, v),
        None => v,
    }
}

/// The capability tier read from the environment signal: the extended tier
/// exactly when the signal is present and carries the extended-palette
/// marker, the base tier for every other value and for an absent signal.
pub open spec fn spec_color_count(signal: Option<Seq<char>>) -> u16 {
    match signal {
        Some(s) => if contains_seq(s, EXTENDED_PALETTE_MARKER@) {
            EXTENDED_COLOR_COUNT
        } else {
            BASE_COLOR_COUNT
        },
        None => BASE_COLOR_COUNT,
    }
}

/// The facade callers style through. It owns the backend selected once at
/// construction — absent on a platform offering neither styling path, a
/// degraded but non-fatal state — and the shared screen state every
/// operation goes through.
pub struct TerminalColor {
    /// The backend selected at construction; `None` makes every styling call
    /// a silent no-op.
    pub color: Option<ColorBackend>,
    /// The shared screen state all styling acts on.
    pub screen_manager: ScreenManager,
}

impl TerminalColor {
    /// Create a facade for the context's platform. Construction never fails:
    /// on a platform with no usable backend the facade is built without one,
    /// and its operations do nothing.
    pub fn new(context: Context) -> (t: TerminalColor)
        ensures
            t.color == spec_select_backend(context.platform),
            t.screen_manager == context.screen_manager,
    {
        let color = select_backend(context.platform);
        TerminalColor { color, screen_manager: context.screen_manager }
    }

    /// Set the foreground color: one attribute mutation against the shared
    /// screen state under one exclusive acquisition; a silent no-op when no
    /// backend was selected.
    pub fn set_fg(&mut self, color: Color)
        requires
            !old(self).screen_manager@.locked,
        ensures
            final(self).color == old(self).color,
            final(self).screen_manager@ == facade_apply_set_color(
                old(self).color,
                color,
                false,
                old(self).screen_manager@,
            ),
            !final(self).screen_manager@.locked,
            old(self).color is None ==> *final(self) == *old(self),
    {
        if let Some(ref backend) = self.color {
            backend.set_foreground(color, &mut self.screen_manager);
        }
    }

    /// Set the background color: one attribute mutation against the shared
    /// screen state under one exclusive acquisition; a silent no-op when no
    /// backend was selected.
    pub fn set_bg(&mut self, color: Color)
        requires
            !old(self).screen_manager@.locked,
        ensures
            final(self).color == old(self).color,
            final(self).screen_manager@ == facade_apply_set_color(
                old(self).color,
                color,
                true,
                old(self).screen_manager@,
            ),
            !final(self).screen_manager@.locked,
            old(self).color is None ==> *final(self) == *old(self),
    {
        if let Some(ref backend) = self.color {
            backend.set_background(color, &mut self.screen_manager);
        }
    }

    /// Reset the terminal's colors and attributes to their defaults: one
    /// attribute mutation under one exclusive acquisition; a silent no-op
    /// when no backend was selected.
    pub fn reset(&mut self)
        requires
            !old(self).screen_manager@.locked,
        ensures
            final(self).color == old(self).color,
            final(self).screen_manager@ == facade_apply_reset(
                old(self).color,
                old(self).screen_manager@,
            ),
            !final(self).screen_manager@.locked,
            old(self).color is None ==> *final(self) == *old(self),
    {
        if let Some(ref backend) = self.color {
            backend.reset(&mut self.screen_manager);
        }
    }

    /// The available color count: a pure query of the terminal-capability
    /// signal the caller read from the environment. The extended tier is
    /// reported exactly when the signal carries the extended-palette marker;
    /// an absent or unrecognized signal reports the base tier.
    pub fn get_available_color_count(&self, signal: Option<&str>) -> (count: u16)
        ensures
            count == spec_color_count(
                match signal {
                    Some(s) => Some(s@),
                    None => None,
                },
            ),
    {
        match signal {
            Some(s) => {
                if contains_str(s, EXTENDED_PALETTE_MARKER) {
                    EXTENDED_COLOR_COUNT
                } else {
                    BASE_COLOR_COUNT
                }
            },
            None => BASE_COLOR_COUNT,
        }
    }
}

/// `set_fg`, then `reset`, then `set_bg` on a facade holding backend `b`
/// performs exactly three distinct attribute mutations against the shared
/// screen state, each under an exclusive acquisition of its own: the
/// acquisition count grows by exactly three and no acquisition outlives its
/// operation. `backend::lemma_three_operations_three_acquisitions` pins what
/// each of the three mutations is, per backend.
pub proof fn lemma_facade_three_operations(b: ColorBackend, v0: ScreenView, fg: Color, bg: Color)
    requires
        !v0.locked,
    ensures
        ({
            let v1 = facade_apply_set_color(Some(b), fg, false, v0);
            let v2 = facade_apply_reset(Some(b), v1);
            let v3 = facade_apply_set_color(Some(b), bg, true, v2);
            &&& !v1.locked
            &&& !v2.locked
            &&& !v3.locked
            &&& v1.lock_count == v0.lock_count + 1
            &&& v2.lock_count == v0.lock_count + 2
            &&& v3.lock_count == v0.lock_count + 3
        }),
{
    crate::backend::lemma_three_operations_three_acquisitions(b, v0, fg, bg);
}

/// Get a color facade whereon color related actions can be performed: the
/// single construction entry point. It never fails; at worst the facade has
/// no backend and styles nothing.
pub fn color(context: Context) -> (t: Box<TerminalColor>)
    ensures
        t.color == spec_select_backend(context.platform),
        t.screen_manager == context.screen_manager,
{
    Box::new(TerminalColor::new(context))
}

} // verus!
