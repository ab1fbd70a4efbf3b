//! The root container: the size and colour mode its descendants inherit.
use vstd::prelude::*;

use crate::ComputedSize;

verus! {

/// Colour mode asked for by the user of the container.
#[derive(PartialEq, Eq, Structural, Clone, Copy, Debug)]
pub enum Mode {
    /// Light colours.
    Light,
    /// Dark colours.
    Dark,
    /// Whatever the browser prefers.
    Auto,
}

impl Default for Mode {
    fn default() -> (r: Self)
        ensures
            r == Mode::Auto,
    {
        Mode::Auto
    }
}

impl Mode {
    /// The colours used: `Auto` follows the browser's preference.
    pub open spec fn resolved(self, prefers_dark: bool) -> Mode {
        match self {
            Mode::Auto => if prefers_dark {
                Mode::Dark
            } else {
                Mode::Light
            },
            _ => self,
        }
    }

    /// The colours used, given whether the browser prefers dark ones.
    pub fn resolve(&self, prefers_dark: bool) -> (r: Mode)
        ensures
            r == self.resolved(prefers_dark),
            r != Mode::Auto,
    {
        match self {
            Mode::Light => Mode::Light,
            Mode::Dark => Mode::Dark,
            Mode::Auto => if prefers_dark {
                Mode::Dark
            } else {
                Mode::Light
            },
        }
    }
}

/// What a container hands down to the widgets inside it.
#[derive(PartialEq, Eq, Structural, Clone, Copy, Debug)]
pub struct XContainerContext {
    pub size: ComputedSize,
}

/// The root container of the widgets.
#[derive(PartialEq, Eq, Structural, Clone, Copy, Debug)]
pub struct XContainer {
    pub mode: Mode,
    pub size: ComputedSize,
}

impl XContainer {
    pub fn new(mode: Mode, size: ComputedSize) -> (r: XContainer)
        ensures
            r.mode == mode,
            r.size == size,
    {
        XContainer { mode, size }
    }

    /// The context its descendants see.
    pub fn context(&self) -> (r: XContainerContext)
        ensures
            r.size == self.size,
    {
        XContainerContext { size: self.size }
    }
}

} // verus!
