//! Display configuration shared by every part of the widget: the width
//! preset of the accordion container and the text alignment of an item.

use vstd::prelude::*;

verus! {

/// Width preset for the accordion container.
#[derive(Clone, Copy, PartialEq, Debug)]
pub enum Size {
    Small,
    Medium,
    Large,
    XSmall,
    XLarge,
    XXLarge,
    Custom(&'static str),
}

/// The inline style that a [`Size`] stands for: a `width` declaration.
pub open spec fn size_style_spec(s: Size) -> Seq<char> {
    match s {
        Size::Small => "width: 7rem;"@,
        Size::Medium => "width: 10rem;"@,
        Size::Large => "width: 20rem;"@,
        Size::XSmall => "width: 5rem;"@,
        Size::XLarge => "width: 25rem;"@,
        Size::XXLarge => "width: 30rem;"@,
        Size::Custom(c) => "width: "@ + c@ + "; "@,
    }
}

impl Size {
    /// Renders the size as its inline `width` style.
    pub fn to_style(&self) -> (r: String)
        ensures
            r@ == size_style_spec(*self),
    {
        match self {
            Size::Small => "width: 7rem;".to_owned(),
            Size::Medium => "width: 10rem;".to_owned(),
            Size::Large => "width: 20rem;".to_owned(),
            Size::XSmall => "width: 5rem;".to_owned(),
            Size::XLarge => "width: 25rem;".to_owned(),
            Size::XXLarge => "width: 30rem;".to_owned(),
            Size::Custom(c) => {
                let mut s = "width: ".to_owned();
                s.append(c);
                s.append("; ");
                s
            },
        }
    }
}

impl Default for Size {
    /// The widest preset is the default.
    fn default() -> (r: Self)
        ensures
            r == Size::XXLarge,
    {
        Size::XXLarge
    }
}

/// Text alignment of an accordion item.
#[derive(Clone, Copy, PartialEq, Debug)]
pub enum Align {
    Left,
    Center,
    Right,
    Justify,
    Start,
    End,
    MatchParent,
    Custom(&'static str),
}

/// The inline style that an [`Align`] stands for: a `text-align` declaration.
pub open spec fn align_style_spec(a: Align) -> Seq<char> {
    match a {
        Align::Left => "text-align: left;"@,
        Align::Center => "text-align: center;"@,
        Align::Right => "text-align: right;"@,
        Align::Justify => "text-align: justify;"@,
        Align::Start => "text-align: start;"@,
        Align::End => "text-align: end;"@,
        Align::MatchParent => "text-align: match-parent;"@,
        Align::Custom(c) => "text-align: "@ + c@ + "; "@,
    }
}

impl Align {
    /// Renders the alignment as its inline `text-align` style.
    pub fn to_style(&self) -> (r: String)
        ensures
            r@ == align_style_spec(*self),
    {
        match self {
            Align::Left => "text-align: left;".to_owned(),
            Align::Center => "text-align: center;".to_owned(),
            Align::Right => "text-align: right;".to_owned(),
            Align::Justify => "text-align: justify;".to_owned(),
            Align::Start => "text-align: start;".to_owned(),
            Align::End => "text-align: end;".to_owned(),
            Align::MatchParent => "text-align: match-parent;".to_owned(),
            Align::Custom(c) => {
                let mut s = "text-align: ".to_owned();
                s.append(c);
                s.append("; ");
                s
            },
        }
    }
}

impl Default for Align {
    /// Items align to the left unless told otherwise.
    fn default() -> (r: Self)
        ensures
            r == Align::Left,
    {
        Align::Left
    }
}

} // verus!
