//! What every animation feature has in common: the control action an input
//! event produces, the input model the features inspect, and the registry of
//! selectable features.

use vstd::prelude::*;

verus! {

/// The control signal one input event produces: keep going, leave the loop,
/// or advance to the next feature.
#[derive(Clone, Copy, PartialEq, Eq, Structural, Debug)]
pub enum ScreensaverAction {
    Continue,
    Exit,
    NextScreen,
}

/// The part of an input event the features inspect: the key's discriminant,
/// and the literal character for character keys.
#[derive(Clone, Copy, PartialEq, Eq, Structural, Debug)]
pub enum KeyPress {
    Esc,
    Enter,
    Char(char),
    Other,
}

/// Whether two texts are the same sequence of characters.
pub fn str_eq(a: &str, b: &str) -> (r: bool)
    ensures
        r == (a@ == b@),
{
    let alen = a.unicode_len();
    let blen = b.unicode_len();
    if alen != blen {
        return false;
    }
    let mut i: usize = 0;
    while i < alen
        invariant
            i <= alen,
            alen == a@.len(),
            alen == b@.len(),
            forall|j: int| 0 <= j < i ==> a@[j] == b@[j],
        decreases alen - i,
    {
        if a.get_char(i) != b.get_char(i) {
            return false;
        }
        i = i + 1;
    }
    proof {
        assert(a@ =~= b@);
    }
    true
}

/// The features a user can select.
pub fn get_available_features() -> (r: Vec<&'static str>)
    ensures
        r@.len() == 2,
        r@[0]@ == "text_display"@,
        r@[1]@ == "bouncing_logo"@,
{
    let r: Vec<&'static str> = vec!["text_display", "bouncing_logo"];
    r
}

/// A one-line description of a selectable feature; `None` for a name that
/// is not in the registry.
pub fn get_feature_description(feature_name: &str) -> (r: Option<&'static str>)
    ensures
        feature_name@ == "text_display"@ ==> r is Some && r.unwrap()@
            == "Static and animated text display with customizable content"@,
        feature_name@ == "bouncing_logo"@ ==> r is Some && r.unwrap()@
            == "Animated bouncing text or logo with physics"@,
        feature_name@ != "text_display"@ && feature_name@ != "bouncing_logo"@ ==> r is None,
{
    proof {
        reveal_strlit("text_display");
        reveal_strlit("bouncing_logo");
        assert("text_display"@.len() != "bouncing_logo"@.len());
    }
    if str_eq(feature_name, "text_display") {
        Some("Static and animated text display with customizable content")
    } else if str_eq(feature_name, "bouncing_logo") {
        Some("Animated bouncing text or logo with physics")
    } else {
        None
    }
}

} // verus!
