//! A label usable anywhere, not only in forms.
use vstd::prelude::*;

use crate::text::{append_if, push_user_class, user_class, word_if};

verus! {

/// The label widget; it keeps no state of its own.
#[derive(PartialEq, Eq, Structural, Clone, Copy, Debug)]
pub struct XLabel;

/// Class list of a label.
pub open spec fn label_class_list(class: Option<String>, disabled: bool, hidden: bool) -> Seq<char> {
    "x-label"@ + user_class(class) + word_if(disabled, " disabled"@) + word_if(hidden, " hidden"@)
}

/// The class list of a label.
pub fn label_classes(class: &Option<String>, disabled: bool, hidden: bool) -> (r: String)
    ensures
        r@ == label_class_list(*class, disabled, hidden),
{
    let mut classes = String::from_str("x-label");
    push_user_class(&mut classes, class);
    append_if(&mut classes, disabled, " disabled");
    append_if(&mut classes, hidden, " hidden");
    assert(classes@ =~= label_class_list(*class, disabled, hidden));
    classes
}

} // verus!
