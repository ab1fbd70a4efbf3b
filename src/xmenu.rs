//! A menu holding menu items.
use vstd::prelude::*;

use crate::xmenuitem::XMenuItem;

verus! {

/// The menu widget; it keeps no state of its own.
#[derive(PartialEq, Eq, Structural, Clone, Copy, Debug)]
pub struct XMenu;

/// Edge of the anchor a menu is aligned with.
#[derive(PartialEq, Eq, Structural, Clone, Copy, Debug)]
pub enum XMenuAlign {
    Start,
    End,
}

/// What a menu may hold.
pub enum XMenuChild {
    Item(XMenuItem),
}

} // verus!
