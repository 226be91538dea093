//! The inline style strings the widget composes: the container's width plus
//! the caller's own style, the clickable header's transition, and the frame
//! around the body content.

use vstd::prelude::*;

use crate::common::align_style_spec;
use crate::common::size_style_spec;
use crate::common::Align;
use crate::common::Size;
use crate::text::dec_digits;
use crate::text::u64_to_dec;

verus! {

/// The container's style: the width the size stands for, a space, then the
/// caller's own style.
pub open spec fn container_style_spec(size: Size, style: Seq<char>) -> Seq<char> {
    size_style_spec(size) + " "@ + style
}

/// Composes the accordion container's style.
pub fn container_style(size: &Size, style: &'static str) -> (r: String)
    ensures
        r@ == container_style_spec(*size, style@),
{
    let mut s = size.to_style();
    s.append(" ");
    s.append(style);
    s
}

/// The clickable header's style: a pointer cursor and a transition over
/// `duration` milliseconds, then the style of the current state.
pub open spec fn header_style_spec(duration: u64, state_style: Seq<char>) -> Seq<char> {
    "cursor: pointer; transition: all "@ + dec_digits(duration as nat) + "ms; "@ + state_style
}

/// Composes the header's style.
pub fn header_style(duration: u64, state_style: &'static str) -> (r: String)
    ensures
        r@ == header_style_spec(duration, state_style@),
{
    let mut s = "cursor: pointer; transition: all ".to_owned();
    let d = u64_to_dec(duration);
    s.append(d.as_str());
    s.append("ms; ");
    s.append(state_style);
    s
}

/// The body frame's style: hidden overflow and a transition over `duration`
/// milliseconds, then the caller's own content style.
pub open spec fn content_style_spec(duration: u64, content_style: Seq<char>) -> Seq<char> {
    "overflow: hidden; transition: all "@ + dec_digits(duration as nat) + "ms; "@ + content_style
}

/// Composes the body frame's style.
pub fn content_style(duration: u64, content_css: &'static str) -> (r: String)
    ensures
        r@ == content_style_spec(duration, content_css@),
{
    let mut s = "overflow: hidden; transition: all ".to_owned();
    let d = u64_to_dec(duration);
    s.append(d.as_str());
    s.append("ms; ");
    s.append(content_css);
    s
}

/// An item's style: the text alignment, a space, then the caller's own style.
pub open spec fn item_style_spec(align: Align, style: Seq<char>) -> Seq<char> {
    align_style_spec(align) + " "@ + style
}

/// Composes an item's style.
pub fn item_style(align: &Align, style: &'static str) -> (r: String)
    ensures
        r@ == item_style_spec(*align, style@),
{
    let mut s = align.to_style();
    s.append(" ");
    s.append(style);
    s
}

} // verus!
