//! The accordion itself: the props of each component, the markup each one
//! renders, and the toggle plan that a host runs when the header is clicked.

use vstd::prelude::*;

use crate::common::Align;
use crate::common::Size;
use crate::markup::attr;
use crate::markup::attr_is;
use crate::markup::Attr;
use crate::markup::Node;
use crate::style::container_style;
use crate::style::container_style_spec;
use crate::style::content_style;
use crate::style::content_style_spec;
use crate::style::header_style;
use crate::style::header_style_spec;
use crate::style::item_style;
use crate::style::item_style_spec;
use crate::text::bool_chars;
use crate::text::bool_str;

verus! {

/// What the accordion container is told to render.
pub struct AccordionProps {
    /// Whether the panel is expanded.
    pub expand: bool,
    /// The header's content while the panel is expanded.
    pub expanded: Node,
    /// The header's content while the panel is collapsed.
    pub collapsed: Node,
    /// The body, shown only while the panel is expanded.
    pub children: Node,
    /// Width preset of the container.
    pub size: Size,
    /// Value of the header's `aria-controls` attribute, and the id of the
    /// body it points at.
    pub aria_controls: &'static str,
    /// The container's own inline style.
    pub style: &'static str,
    /// The header's inline style while expanded.
    pub expanded_style: &'static str,
    /// The header's inline style while collapsed.
    pub collapsed_style: &'static str,
    /// The body frame's inline style.
    pub content_style: &'static str,
    /// The container's class.
    pub class: &'static str,
    /// The header's class while expanded.
    pub expanded_class: &'static str,
    /// The header's class while collapsed.
    pub collapsed_class: &'static str,
    /// The body frame's class.
    pub content_class: &'static str,
    /// Whether the header carries its accessibility attributes.
    pub aria_enabled: bool,
    /// Length of the expand and collapse transition, in milliseconds.
    pub duration: u64,
}

impl Default for AccordionProps {
    /// A collapsed panel of the default size with empty content, empty
    /// styles and classes, accessibility attributes on, and a transition of
    /// 600 milliseconds.
    fn default() -> (r: Self)
        ensures
            r.expand == false,
            r.expanded == Node::Empty,
            r.collapsed == Node::Empty,
            r.children == Node::Empty,
            r.size == Size::XXLarge,
            r.aria_controls@ == ""@,
            r.style@ == ""@,
            r.expanded_style@ == ""@,
            r.collapsed_style@ == ""@,
            r.content_style@ == ""@,
            r.class@ == ""@,
            r.expanded_class@ == ""@,
            r.collapsed_class@ == ""@,
            r.content_class@ == ""@,
            r.aria_enabled == true,
            r.duration == 600,
    {
        AccordionProps {
            expand: false,
            expanded: Node::Empty,
            collapsed: Node::Empty,
            children: Node::Empty,
            size: Size::XXLarge,
            aria_controls: "",
            style: "",
            expanded_style: "",
            collapsed_style: "",
            content_style: "",
            class: "",
            expanded_class: "",
            collapsed_class: "",
            content_class: "",
            aria_enabled: true,
            duration: 600,
        }
    }
}

/// The header's class: the one of the current state.
pub open spec fn header_class_spec(p: AccordionProps) -> Seq<char> {
    if p.expand {
        p.expanded_class@
    } else {
        p.collapsed_class@
    }
}

/// The header's state style: the one of the current state.
pub open spec fn header_state_style_spec(p: AccordionProps) -> Seq<char> {
    if p.expand {
        p.expanded_style@
    } else {
        p.collapsed_style@
    }
}

/// The clickable header: a `div` that shows the expanded or the collapsed
/// content, carries the state's class and transition style, and, when
/// accessibility is on, says what it controls and whether it is open.
pub open spec fn header_markup(p: AccordionProps, n: Node) -> bool {
    &&& n matches Node::Element { tag, attrs, children }
    &&& tag@ == "div"@
    &&& attrs@.len() == (if p.aria_enabled {
        4int
    } else {
        2int
    })
    &&& p.aria_enabled ==> attr_is(attrs@[0], "aria-expanded"@, bool_chars(p.expand))
    &&& p.aria_enabled ==> attr_is(attrs@[1], "aria-controls"@, p.aria_controls@)
    &&& attr_is(attrs@[attrs@.len() - 2], "class"@, header_class_spec(p))
    &&& attr_is(
        attrs@[attrs@.len() - 1],
        "style"@,
        header_style_spec(p.duration, header_state_style_spec(p)),
    )
    &&& children@.len() == 1
    &&& children@[0] == (if p.expand {
        p.expanded
    } else {
        p.collapsed
    })
}

/// The body frame: a `div` around the children, carrying the id the header
/// points at, the content class, and the hidden-overflow transition style.
pub open spec fn content_markup(p: AccordionProps, n: Node) -> bool {
    &&& n matches Node::Element { tag, attrs, children }
    &&& tag@ == "div"@
    &&& attrs@.len() == 3
    &&& attr_is(attrs@[0], "id"@, p.aria_controls@)
    &&& attr_is(attrs@[1], "class"@, p.content_class@)
    &&& attr_is(attrs@[2], "style"@, content_style_spec(p.duration, p.content_style@))
    &&& children@.len() == 1
    &&& children@[0] == p.children
}

/// The whole accordion: a container `div` with the sized style and the
/// caller's class, holding the header and, only while expanded, the body.
pub open spec fn accordion_markup(p: AccordionProps, n: Node) -> bool {
    &&& n matches Node::Element { tag, attrs, children }
    &&& tag@ == "div"@
    &&& attrs@.len() == 2
    &&& attr_is(attrs@[0], "style"@, container_style_spec(p.size, p.style@))
    &&& attr_is(attrs@[1], "class"@, p.class@)
    &&& children@.len() == (if p.expand {
        2int
    } else {
        1int
    })
    &&& header_markup(p, children@[0])
    &&& p.expand ==> content_markup(p, children@[1])
}

/// Renders the accordion container.
#[allow(non_snake_case)]
pub fn Accordion(props: AccordionProps) -> (r: Node)
    ensures
        accordion_markup(props, r),
{
    let AccordionProps {
        expand,
        expanded,
        collapsed,
        children,
        size,
        aria_controls,
        style,
        expanded_style,
        collapsed_style,
        content_style: content_css,
        class,
        expanded_class,
        collapsed_class,
        content_class,
        aria_enabled,
        duration,
    } = props;

    let header_body = if expand {
        expanded
    } else {
        collapsed
    };
    let header_class = if expand {
        expanded_class
    } else {
        collapsed_class
    };
    let header_state_style = if expand {
        expanded_style
    } else {
        collapsed_style
    };

    let mut header_attrs: Vec<Attr> = Vec::new();
    if aria_enabled {
        header_attrs.push(attr("aria-expanded", bool_str(expand).to_owned()));
        header_attrs.push(attr("aria-controls", aria_controls.to_owned()));
    }
    header_attrs.push(attr("class", header_class.to_owned()));
    header_attrs.push(attr("style", header_style(duration, header_state_style)));
    let mut header_children: Vec<Node> = Vec::new();
    header_children.push(header_body);
    let header = Node::Element {
        tag: "div".to_owned(),
        attrs: header_attrs,
        children: header_children,
    };

    let mut top_children: Vec<Node> = Vec::new();
    top_children.push(header);
    if expand {
        let mut content_attrs: Vec<Attr> = Vec::new();
        content_attrs.push(attr("id", aria_controls.to_owned()));
        content_attrs.push(attr("class", content_class.to_owned()));
        content_attrs.push(attr("style", content_style(duration, content_css)));
        let mut content_children: Vec<Node> = Vec::new();
        content_children.push(children);
        top_children.push(
            Node::Element {
                tag: "div".to_owned(),
                attrs: content_attrs,
                children: content_children,
            },
        );
    }

    let mut top_attrs: Vec<Attr> = Vec::new();
    top_attrs.push(attr("style", container_style(&size, style)));
    top_attrs.push(attr("class", class.to_owned()));
    Node::Element { tag: "div".to_owned(), attrs: top_attrs, children: top_children }
}

/// What an item is told to render.
pub struct ItemProps {
    /// The item's content.
    pub children: Node,
    /// The item's own inline style.
    pub style: &'static str,
    /// The item's class.
    pub class: &'static str,
    /// Text alignment of the item's content.
    pub align: Align,
    /// A heading shown in bold before the content; empty for none.
    pub title: &'static str,
    /// An icon shown before the title; empty for none.
    pub icon: &'static str,
}

impl Default for ItemProps {
    /// An empty, left-aligned item with no title and no icon.
    fn default() -> (r: Self)
        ensures
            r.children == Node::Empty,
            r.style@ == ""@,
            r.class@ == ""@,
            r.align == Align::Left,
            r.title@ == ""@,
            r.icon@ == ""@,
    {
        ItemProps {
            children: Node::Empty,
            style: "",
            class: "",
            align: Align::Left,
            title: "",
            icon: "",
        }
    }
}

/// The icon's markup: a `span` of class `mr-2` holding the icon text.
pub open spec fn icon_markup(icon: Seq<char>, n: Node) -> bool {
    &&& n matches Node::Element { tag, attrs, children }
    &&& tag@ == "span"@
    &&& attrs@.len() == 1
    &&& attr_is(attrs@[0], "class"@, "mr-2"@)
    &&& children@.len() == 1
    &&& children@[0] matches Node::Text(t) && t@ == icon
}

/// The title's markup: a bare `strong` holding the title text.
pub open spec fn title_markup(title: Seq<char>, n: Node) -> bool {
    &&& n matches Node::Element { tag, attrs, children }
    &&& tag@ == "strong"@
    &&& attrs@.len() == 0
    &&& children@.len() == 1
    &&& children@[0] matches Node::Text(t) && t@ == title
}

/// An item: an `li` with the aligned style, holding the icon if one is
/// given, then the title if one is given, then the content.
pub open spec fn item_markup(p: ItemProps, n: Node) -> bool {
    let icon_count: int = if p.icon@.len() > 0 {
        1int
    } else {
        0int
    };
    let title_count: int = if p.title@.len() > 0 {
        1int
    } else {
        0int
    };
    &&& n matches Node::Element { tag, attrs, children }
    &&& tag@ == "li"@
    &&& attrs@.len() == 2
    &&& attr_is(attrs@[0], "class"@, p.class@)
    &&& attr_is(attrs@[1], "style"@, item_style_spec(p.align, p.style@))
    &&& children@.len() == icon_count + title_count + 1
    &&& p.icon@.len() > 0 ==> icon_markup(p.icon@, children@[0])
    &&& p.title@.len() > 0 ==> title_markup(p.title@, children@[icon_count])
    &&& children@[icon_count + title_count] == p.children
}

/// Renders one accordion item.
#[allow(non_snake_case)]
pub fn Item(props: ItemProps) -> (r: Node)
    ensures
        item_markup(props, r),
{
    let ItemProps { children, style, class, align, title, icon } = props;

    let mut attrs: Vec<Attr> = Vec::new();
    attrs.push(attr("class", class.to_owned()));
    attrs.push(attr("style", item_style(&align, style)));

    let mut kids: Vec<Node> = Vec::new();
    if !icon.is_empty() {
        let mut icon_attrs: Vec<Attr> = Vec::new();
        icon_attrs.push(attr("class", "mr-2".to_owned()));
        let mut icon_children: Vec<Node> = Vec::new();
        icon_children.push(Node::Text(icon.to_owned()));
        kids.push(
            Node::Element { tag: "span".to_owned(), attrs: icon_attrs, children: icon_children },
        );
    }
    if !title.is_empty() {
        let mut title_children: Vec<Node> = Vec::new();
        title_children.push(Node::Text(title.to_owned()));
        kids.push(
            Node::Element { tag: "strong".to_owned(), attrs: Vec::new(), children: title_children },
        );
    }
    kids.push(children);
    Node::Element { tag: "li".to_owned(), attrs, children: kids }
}

/// What a button is told to render.
pub struct ButtonProps {
    /// The button's content.
    pub children: Node,
    /// The button's own inline style.
    pub style: &'static str,
    /// The button's class.
    pub class: &'static str,
}

impl Default for ButtonProps {
    /// An empty button with no style and no class.
    fn default() -> (r: Self)
        ensures
            r.children == Node::Empty,
            r.style@ == ""@,
            r.class@ == ""@,
    {
        ButtonProps { children: Node::Empty, style: "", class: "" }
    }
}

/// A button: a `button` with the caller's class and style around the content.
pub open spec fn button_markup(p: ButtonProps, n: Node) -> bool {
    &&& n matches Node::Element { tag, attrs, children }
    &&& tag@ == "button"@
    &&& attrs@.len() == 2
    &&& attr_is(attrs@[0], "class"@, p.class@)
    &&& attr_is(attrs@[1], "style"@, p.style@)
    &&& children@.len() == 1
    &&& children@[0] == p.children
}

/// Renders a button.
#[allow(non_snake_case)]
pub fn Button(props: ButtonProps) -> (r: Node)
    ensures
        button_markup(props, r),
{
    let ButtonProps { children, style, class } = props;
    let mut attrs: Vec<Attr> = Vec::new();
    attrs.push(attr("class", class.to_owned()));
    attrs.push(attr("style", style.to_owned()));
    let mut kids: Vec<Node> = Vec::new();
    kids.push(children);
    Node::Element { tag: "button".to_owned(), attrs, children: kids }
}

/// What a list is told to render.
pub struct ListProps {
    /// The list's items.
    pub children: Node,
    /// The list's own inline style.
    pub style: &'static str,
    /// The list's class.
    pub class: &'static str,
}

impl Default for ListProps {
    /// An empty list with no style and no class.
    fn default() -> (r: Self)
        ensures
            r.children == Node::Empty,
            r.style@ == ""@,
            r.class@ == ""@,
    {
        ListProps { children: Node::Empty, style: "", class: "" }
    }
}

/// A list: a `ul` with the caller's class and style around the items.
pub open spec fn list_markup(p: ListProps, n: Node) -> bool {
    &&& n matches Node::Element { tag, attrs, children }
    &&& tag@ == "ul"@
    &&& attrs@.len() == 2
    &&& attr_is(attrs@[0], "class"@, p.class@)
    &&& attr_is(attrs@[1], "style"@, p.style@)
    &&& children@.len() == 1
    &&& children@[0] == p.children
}

/// Renders a list.
#[allow(non_snake_case)]
pub fn List(props: ListProps) -> (r: Node)
    ensures
        list_markup(props, r),
{
    let ListProps { children, style, class } = props;
    let mut attrs: Vec<Attr> = Vec::new();
    attrs.push(attr("class", class.to_owned()));
    attrs.push(attr("style", style.to_owned()));
    let mut kids: Vec<Node> = Vec::new();
    kids.push(children);
    Node::Element { tag: "ul".to_owned(), attrs, children: kids }
}

/// One step of the accordion's lifecycle, announced around a state change.
#[derive(Clone, Copy, PartialEq, Eq, Debug)]
pub enum Lifecycle {
    WillOpen,
    DidOpen,
    WillClose,
    DidClose,
}

/// The plan for one click on the header: announce `before`, set the expand
/// flag to `expand`, then announce `after`.
#[derive(Clone, Copy, PartialEq, Eq, Debug)]
pub struct Toggle {
    pub before: Lifecycle,
    pub expand: bool,
    pub after: Lifecycle,
}

/// Decides what one click on the header does: a collapsed panel opens
/// between the two opening announcements, an expanded one closes between
/// the two closing announcements.
pub fn toggle_expansion(expanded: bool) -> (t: Toggle)
    ensures
        t.expand == !expanded,
        expanded ==> t.before == Lifecycle::WillClose && t.after == Lifecycle::DidClose,
        !expanded ==> t.before == Lifecycle::WillOpen && t.after == Lifecycle::DidOpen,
{
    if expanded {
        Toggle { before: Lifecycle::WillClose, expand: false, after: Lifecycle::DidClose }
    } else {
        Toggle { before: Lifecycle::WillOpen, expand: true, after: Lifecycle::DidOpen }
    }
}

} // verus!
