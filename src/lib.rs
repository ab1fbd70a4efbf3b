//! Widgets for a component-based web UI: the pieces whose behaviour can be
//! stated and proved live here, free of any browser or framework type.
//!
//! - [`placement`]: where a floating panel goes next to its trigger.
//! - [`xtooltip`]: the hover-driven open/close controller of a tooltip.
//! - [`xmenuitem`]: the press and ripple controller of a menu item.
//! - [`xmessage`]: the small grammars of a localized message reference.
//! - [`xbutton`], [`xlabel`], [`xmenu`], [`xcontainer`]: the looks and
//!   settings of the other widgets.
//! - [`text`]: white space, trimming and comparison of text.
use vstd::prelude::*;

pub mod placement;
pub mod text;
pub mod xbutton;
pub mod xcontainer;
pub mod xlabel;
pub mod xmenu;
pub mod xmenuitem;
pub mod xmessage;
pub mod xtooltip;

verus! {

/// The size a widget is finally drawn at.
#[derive(PartialEq, Eq, Structural, Clone, Copy, Debug)]
pub enum ComputedSize {
    Small,
    Medium,
    Large,
}

impl Default for ComputedSize {
    fn default() -> (r: Self)
        ensures
            r == ComputedSize::Medium,
    {
        ComputedSize::Medium
    }
}

impl ComputedSize {
    /// The class-name word of this size.
    pub open spec fn name(self) -> Seq<char> {
        match self {
            ComputedSize::Small => "small"@,
            ComputedSize::Medium => "medium"@,
            ComputedSize::Large => "large"@,
        }
    }

    pub fn to_string(&self) -> (r: String)
        ensures
            r@ == self.name(),
    {
        match self {
            ComputedSize::Small => String::from_str("small"),
            ComputedSize::Medium => String::from_str("medium"),
            ComputedSize::Large => String::from_str("large"),
        }
    }
}

/// The size a widget asks for, possibly relative to its container's size.
#[derive(PartialEq, Eq, Structural, Clone, Copy, Debug)]
pub enum XComponentSize {
    Smaller,
    Small,
    Medium,
    Large,
    Larger,
}

impl Default for XComponentSize {
    fn default() -> (r: Self)
        ensures
            r == XComponentSize::Medium,
    {
        XComponentSize::Medium
    }
}

impl XComponentSize {
    /// The class-name word of this size.
    pub open spec fn name(self) -> Seq<char> {
        match self {
            XComponentSize::Smaller => "smaller"@,
            XComponentSize::Small => "small"@,
            XComponentSize::Medium => "medium"@,
            XComponentSize::Large => "large"@,
            XComponentSize::Larger => "larger"@,
        }
    }

    pub fn to_string(&self) -> (r: String)
        ensures
            r@ == self.name(),
    {
        match self {
            XComponentSize::Smaller => String::from_str("smaller"),
            XComponentSize::Small => String::from_str("small"),
            XComponentSize::Medium => String::from_str("medium"),
            XComponentSize::Large => String::from_str("large"),
            XComponentSize::Larger => String::from_str("larger"),
        }
    }
}

/// The size a widget is drawn at, given what it asks for and its container's size.
///
/// `Smaller` and `Larger` step one size away from the container's; the
/// absolute sizes are taken as they are; no request means the container's size.
pub open spec fn computed_size(custom: Option<XComponentSize>, default_size: ComputedSize) -> ComputedSize {
    match custom {
        None => default_size,
        Some(XComponentSize::Smaller) => if default_size == ComputedSize::Large {
            ComputedSize::Medium
        } else {
            ComputedSize::Small
        },
        Some(XComponentSize::Larger) => if default_size == ComputedSize::Small {
            ComputedSize::Medium
        } else {
            ComputedSize::Large
        },
        Some(XComponentSize::Small) => ComputedSize::Small,
        Some(XComponentSize::Medium) => ComputedSize::Medium,
        Some(XComponentSize::Large) => ComputedSize::Large,
    }
}

pub fn calculate_computed_size(opt_custom_size: Option<XComponentSize>, default_size: ComputedSize) -> (r: ComputedSize)
    ensures
        r == computed_size(opt_custom_size, default_size),
{
    match opt_custom_size {
        Some(custom_size) => match custom_size {
            XComponentSize::Smaller => if default_size == ComputedSize::Large {
                ComputedSize::Medium
            } else {
                ComputedSize::Small
            },
            XComponentSize::Larger => if default_size == ComputedSize::Small {
                ComputedSize::Medium
            } else {
                ComputedSize::Large
            },
            XComponentSize::Small => ComputedSize::Small,
            XComponentSize::Medium => ComputedSize::Medium,
            XComponentSize::Large => ComputedSize::Large,
        },
        None => default_size,
    }
}

} // verus!
