use vstd::prelude::*;

verus! {

/// Whether computed styles leave an element visible: its `display` is not
/// `none` and its `visibility` is not `hidden` (a missing value hides nothing).
pub open spec fn spec_styles_visible(display: Option<Seq<char>>, visibility: Option<Seq<char>>) -> bool {
    &&& display != Some("none"@)
    &&& visibility != Some("hidden"@)
}

/// The text of an optional string.
pub open spec fn opt_text(s: Option<String>) -> Option<Seq<char>> {
    match s {
        Some(t) => Some(t@),
        None => None,
    }
}

/// Whether an element with the computed `display` and `visibility` values is
/// visible.
pub fn styles_visible(display: Option<String>, visibility: Option<String>) -> (visible: bool)
    ensures
        visible == spec_styles_visible(opt_text(display), opt_text(visibility)),
        visible == (opt_text(display) != Some("none"@) && opt_text(visibility) != Some("hidden"@)),
{
    if let Some(style) = display {
        if style == "none".to_string() {
            return false;
        }
    }
    if let Some(style) = visibility {
        if style == "hidden".to_string() {
            return false;
        }
    }
    true
}

/// Only a display of `none` or a visibility of `hidden` hides an element:
/// every other display (`block`, `inline`, `flex`, ...) and every other
/// visibility, given or not, leaves it visible.
pub proof fn lemma_only_none_or_hidden_hides(display: Option<Seq<char>>, visibility: Option<Seq<char>>)
    ensures
        display == Some("none"@) ==> !spec_styles_visible(display, visibility),
        visibility == Some("hidden"@) ==> !spec_styles_visible(display, visibility),
        display != Some("none"@) && visibility != Some("hidden"@) ==> spec_styles_visible(display, visibility),
        spec_styles_visible(None, None),
{
}

} // verus!
