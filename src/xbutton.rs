//! The button widget's look.
use vstd::prelude::*;

use crate::text::{append_if, word_if};
use crate::{calculate_computed_size, computed_size, ComputedSize, XComponentSize};

verus! {

/// Visual style of a button.
#[derive(PartialEq, Eq, Structural, Clone, Copy, Debug)]
pub enum XButtonSkin {
    Flat,
    Recessed,
    Nav,
    Dock,
    Circular,
    Default,
}

impl Default for XButtonSkin {
    fn default() -> (r: Self)
        ensures
            r == XButtonSkin::Default,
    {
        XButtonSkin::Default
    }
}

impl XButtonSkin {
    /// The class-name word of this skin.
    pub open spec fn name(self) -> Seq<char> {
        match self {
            XButtonSkin::Flat => "flat"@,
            XButtonSkin::Recessed => "recessed"@,
            XButtonSkin::Nav => "nav"@,
            XButtonSkin::Dock => "dock"@,
            XButtonSkin::Circular => "circular"@,
            XButtonSkin::Default => "default"@,
        }
    }

    pub fn to_string(&self) -> (r: String)
        ensures
            r@ == self.name(),
    {
        match self {
            XButtonSkin::Flat => String::from_str("flat"),
            XButtonSkin::Recessed => String::from_str("recessed"),
            XButtonSkin::Nav => String::from_str("nav"),
            XButtonSkin::Dock => String::from_str("dock"),
            XButtonSkin::Circular => String::from_str("circular"),
            XButtonSkin::Default => String::from_str("default"),
        }
    }
}

/// What the button looks like at a given moment.
#[derive(PartialEq, Eq, Structural, Clone, Copy, Debug)]
pub struct XButtonLook {
    pub toggled: bool,
    pub disabled: bool,
    pub togglable: bool,
    pub condensed: bool,
    pub pressed: bool,
    pub skin: XButtonSkin,
    pub size: Option<XComponentSize>,
}

/// Class list of a button inside a container of size `container`.
pub open spec fn button_class_list(look: XButtonLook, container: ComputedSize) -> Seq<char> {
    "x-button"@ + word_if(look.toggled, " toggled"@) + word_if(look.disabled, " disabled"@)
        + word_if(look.togglable, " togglable"@) + word_if(look.disabled, " disabled"@) + word_if(
        look.condensed,
        " condensed"@,
    ) + word_if(look.pressed, " pressed"@) + " skin-"@ + look.skin.name() + match look.size {
        Some(s) => " size-"@ + s.name(),
        None => Seq::empty(),
    } + " computedsize-"@ + computed_size(look.size, container).name()
}

/// The class list of a button.
pub fn button_classes(look: &XButtonLook, container: ComputedSize) -> (r: String)
    ensures
        r@ == button_class_list(*look, container),
{
    let mut classes = String::from_str("x-button");
    append_if(&mut classes, look.toggled, " toggled");
    append_if(&mut classes, look.disabled, " disabled");
    append_if(&mut classes, look.togglable, " togglable");
    append_if(&mut classes, look.disabled, " disabled");
    append_if(&mut classes, look.condensed, " condensed");
    append_if(&mut classes, look.pressed, " pressed");
    classes.append(" skin-");
    let skin = look.skin.to_string();
    classes.append(skin.as_str());
    let ghost before_size = classes@;
    if let Some(size) = look.size {
        classes.append(" size-");
        let name = size.to_string();
        classes.append(name.as_str());
        assert(classes@ =~= before_size + (" size-"@ + size.name()));
    } else {
        assert(classes@ =~= before_size + Seq::<char>::empty());
    }
    classes.append(" computedsize-");
    let computed = calculate_computed_size(look.size, container).to_string();
    classes.append(computed.as_str());
    assert(classes@ =~= button_class_list(*look, container));
    classes
}

/// What a click on a button does.
#[derive(PartialEq, Eq, Structural, Clone, Copy, Debug)]
pub enum ButtonClick {
    /// Report a toggle to the toggle listener.
    Toggle,
    /// Tell the button's children and report the click to the click listener.
    Click,
    /// Nobody listens.
    Ignore,
}

/// A togglable button reports toggles; another one reports clicks, when
/// someone listens.
pub fn click_action(togglable: bool, has_ontoggle: bool, has_onclick: bool) -> (r: ButtonClick)
    ensures
        togglable ==> r == if has_ontoggle {
            ButtonClick::Toggle
        } else {
            ButtonClick::Ignore
        },
        !togglable ==> r == if has_onclick {
            ButtonClick::Click
        } else {
            ButtonClick::Ignore
        },
{
    if togglable {
        if has_ontoggle {
            ButtonClick::Toggle
        } else {
            ButtonClick::Ignore
        }
    } else if has_onclick {
        ButtonClick::Click
    } else {
        ButtonClick::Ignore
    }
}

} // verus!
