use accordion_rs::accordion::{
    toggle_expansion, Accordion, AccordionProps, Button, ButtonProps, Item, ItemProps, Lifecycle,
    List, ListProps,
};
use accordion_rs::common::{Align, Size};
use accordion_rs::markup::{Attr, Node};

fn attr(name: &str, value: &str) -> Attr {
    Attr {
        name: name.to_string(),
        value: value.to_string(),
    }
}

fn element(tag: &str, attrs: Vec<Attr>, children: Vec<Node>) -> Node {
    Node::Element {
        tag: tag.to_string(),
        attrs,
        children,
    }
}

#[test]
fn collapsed_accordion_shows_the_collapsed_header_only() {
    let props = AccordionProps {
        expanded: Node::Text("open".to_string()),
        collapsed: Node::Text("shut".to_string()),
        children: Node::Text("body".to_string()),
        aria_controls: "panel-1",
        expanded_class: "on",
        collapsed_class: "off",
        expanded_style: "color: green;",
        collapsed_style: "color: gray;",
        class: "acc",
        style: "margin: 1px;",
        ..AccordionProps::default()
    };
    let rendered = Accordion(props);
    let header = element(
        "div",
        vec![
            attr("aria-expanded", "false"),
            attr("aria-controls", "panel-1"),
            attr("class", "off"),
            attr(
                "style",
                "cursor: pointer; transition: all 600ms; color: gray;",
            ),
        ],
        vec![Node::Text("shut".to_string())],
    );
    let expected = element(
        "div",
        vec![
            attr("style", "width: 30rem; margin: 1px;"),
            attr("class", "acc"),
        ],
        vec![header],
    );
    assert_eq!(rendered, expected);
}

#[test]
fn expanded_accordion_also_renders_the_body() {
    let props = AccordionProps {
        expand: true,
        expanded: Node::Text("open".to_string()),
        collapsed: Node::Text("shut".to_string()),
        children: Node::Text("body".to_string()),
        size: Size::Small,
        aria_controls: "panel-2",
        content_class: "content",
        content_style: "padding: 4px;",
        expanded_class: "on",
        expanded_style: "color: green;",
        duration: 250,
        ..AccordionProps::default()
    };
    let rendered = Accordion(props);
    let header = element(
        "div",
        vec![
            attr("aria-expanded", "true"),
            attr("aria-controls", "panel-2"),
            attr("class", "on"),
            attr(
                "style",
                "cursor: pointer; transition: all 250ms; color: green;",
            ),
        ],
        vec![Node::Text("open".to_string())],
    );
    let body = element(
        "div",
        vec![
            attr("id", "panel-2"),
            attr("class", "content"),
            attr(
                "style",
                "overflow: hidden; transition: all 250ms; padding: 4px;",
            ),
        ],
        vec![Node::Text("body".to_string())],
    );
    let expected = element(
        "div",
        vec![attr("style", "width: 7rem; "), attr("class", "")],
        vec![header, body],
    );
    assert_eq!(rendered, expected);
}

#[test]
fn disabling_aria_drops_the_accessibility_attributes() {
    let props = AccordionProps {
        aria_enabled: false,
        aria_controls: "ignored",
        ..AccordionProps::default()
    };
    let rendered = Accordion(props);
    let header = element(
        "div",
        vec![
            attr("class", ""),
            attr("style", "cursor: pointer; transition: all 600ms; "),
        ],
        vec![Node::Empty],
    );
    let expected = element(
        "div",
        vec![attr("style", "width: 30rem; "), attr("class", "")],
        vec![header],
    );
    assert_eq!(rendered, expected);
}

#[test]
fn item_renders_icon_title_then_content() {
    let props = ItemProps {
        children: Node::Text("text".to_string()),
        style: "margin: 0;",
        class: "item",
        align: Align::Center,
        title: "Heading",
        icon: "*",
    };
    let rendered = Item(props);
    let expected = element(
        "li",
        vec![
            attr("class", "item"),
            attr("style", "text-align: center; margin: 0;"),
        ],
        vec![
            element(
                "span",
                vec![attr("class", "mr-2")],
                vec![Node::Text("*".to_string())],
            ),
            element("strong", vec![], vec![Node::Text("Heading".to_string())]),
            Node::Text("text".to_string()),
        ],
    );
    assert_eq!(rendered, expected);
}

#[test]
fn item_without_icon_or_title_renders_content_alone() {
    let props = ItemProps {
        children: Node::Text("only".to_string()),
        ..ItemProps::default()
    };
    let rendered = Item(props);
    let expected = element(
        "li",
        vec![attr("class", ""), attr("style", "text-align: left; ")],
        vec![Node::Text("only".to_string())],
    );
    assert_eq!(rendered, expected);
}

#[test]
fn item_with_title_but_no_icon_skips_the_icon_span() {
    let props = ItemProps {
        title: "Only title",
        ..ItemProps::default()
    };
    let rendered = Item(props);
    let expected = element(
        "li",
        vec![attr("class", ""), attr("style", "text-align: left; ")],
        vec![
            element("strong", vec![], vec![Node::Text("Only title".to_string())]),
            Node::Empty,
        ],
    );
    assert_eq!(rendered, expected);
}

#[test]
fn item_with_icon_but_no_title_skips_the_strong() {
    let props = ItemProps {
        icon: "!",
        ..ItemProps::default()
    };
    let rendered = Item(props);
    let expected = element(
        "li",
        vec![attr("class", ""), attr("style", "text-align: left; ")],
        vec![
            element(
                "span",
                vec![attr("class", "mr-2")],
                vec![Node::Text("!".to_string())],
            ),
            Node::Empty,
        ],
    );
    assert_eq!(rendered, expected);
}

#[test]
fn button_wraps_its_content() {
    let props = ButtonProps {
        children: Node::Text("press".to_string()),
        style: "border: none;",
        class: "btn",
    };
    let rendered = Button(props);
    let expected = element(
        "button",
        vec![attr("class", "btn"), attr("style", "border: none;")],
        vec![Node::Text("press".to_string())],
    );
    assert_eq!(rendered, expected);
}

#[test]
fn list_wraps_its_items() {
    let props = ListProps {
        children: Node::Text("items".to_string()),
        style: "gap: 2px;",
        class: "lst",
    };
    let rendered = List(props);
    let expected = element(
        "ul",
        vec![attr("class", "lst"), attr("style", "gap: 2px;")],
        vec![Node::Text("items".to_string())],
    );
    assert_eq!(rendered, expected);
}

#[test]
fn clicking_a_collapsed_accordion_opens_it() {
    let plan = toggle_expansion(false);
    assert!(plan.expand);
    assert_eq!(plan.before, Lifecycle::WillOpen);
    assert_eq!(plan.after, Lifecycle::DidOpen);
}

#[test]
fn clicking_an_expanded_accordion_closes_it() {
    let plan = toggle_expansion(true);
    assert!(!plan.expand);
    assert_eq!(plan.before, Lifecycle::WillClose);
    assert_eq!(plan.after, Lifecycle::DidClose);
}

#[test]
fn toggling_twice_restores_the_state() {
    for start in [false, true] {
        let once = toggle_expansion(start);
        let twice = toggle_expansion(once.expand);
        assert_eq!(twice.expand, start);
    }
}

#[test]
fn default_props_describe_a_collapsed_silent_panel() {
    let p = AccordionProps::default();
    assert!(!p.expand);
    assert!(p.aria_enabled);
    assert_eq!(p.duration, 600);
    assert_eq!(p.size, Size::XXLarge);
    assert_eq!(p.style, "");
    assert_eq!(p.class, "");
    assert_eq!(p.aria_controls, "");
    assert_eq!(p.expanded, Node::Empty);
    assert_eq!(p.collapsed, Node::Empty);
    assert_eq!(p.children, Node::Empty);

    let i = ItemProps::default();
    assert_eq!(i.align, Align::Left);
    assert_eq!(i.title, "");
    assert_eq!(i.icon, "");

    let b = ButtonProps::default();
    assert_eq!(b.class, "");
    assert_eq!(b.style, "");

    let l = ListProps::default();
    assert_eq!(l.class, "");
    assert_eq!(l.style, "");
}
