use ludtwig::ast::{HtmlAttribute, HtmlComment, HtmlNode, HtmlPlain, HtmlTag, TwigBlock, TwigComment, VueBlock};
use ludtwig::writer::{print_node, render_tree, PrintingContext};

fn b(s: &str) -> Vec<u8> {
    s.as_bytes().to_vec()
}

fn render_to_string(tree: &HtmlNode) -> String {
    String::from_utf8(render_tree(tree)).unwrap()
}

fn attr(key: &str, value: &str) -> HtmlAttribute {
    HtmlAttribute { key: b(key), value: b(value) }
}

fn tag(name: &str, attributes: Vec<HtmlAttribute>, children: Vec<HtmlNode>, self_closed: bool) -> HtmlNode {
    HtmlNode::Tag(HtmlTag { name: b(name), attributes, children, self_closed })
}

#[test]
fn test_write_simple_twig_block() {
    let tree = HtmlNode::TwigBlock(TwigBlock {
        name: b("some_twig_block"),
        children: vec![
            HtmlNode::Whitespace,
            HtmlNode::Plain(HtmlPlain { plain: b("Hello world") }),
            HtmlNode::Whitespace,
        ],
    });

    let mut writer_raw: Vec<u8> = Vec::new();
    print_node(&mut writer_raw, &tree, &PrintingContext::default());
    let res = String::from_utf8(writer_raw).unwrap();

    assert_eq!(
        res,
        "{% block some_twig_block %}\r\n    Hello world\r\n{% endblock %}".to_string()
    );
}

#[test]
fn test_double_break_after_twig_block() {
    let tree = HtmlNode::Root(vec![
        HtmlNode::TwigBlock(TwigBlock { name: b("x"), children: vec![] }),
        HtmlNode::Whitespace,
        HtmlNode::Plain(HtmlPlain { plain: b("after") }),
    ]);
    assert_eq!(render_to_string(&tree), "{% block x %}{% endblock %}\r\n\r\nafter");
}

#[test]
fn test_single_break_after_plain() {
    let tree = HtmlNode::Root(vec![
        HtmlNode::Plain(HtmlPlain { plain: b("a") }),
        HtmlNode::Whitespace,
        HtmlNode::Plain(HtmlPlain { plain: b("b") }),
    ]);
    assert_eq!(render_to_string(&tree), "a\r\nb");
}

#[test]
fn test_three_attributes_wrap() {
    let tree = tag(
        "div",
        vec![attr("a", "1"), attr("b", "2"), attr("c", "3")],
        vec![],
        false,
    );
    assert_eq!(
        render_to_string(&tree),
        "<div\n        a=\"1\"\n        b=\"2\"\n        c=\"3\"></div>"
    );
}

#[test]
fn test_two_attributes_stay_inline() {
    let tree = tag("div", vec![attr("a", "1"), attr("b", "2")], vec![], false);
    assert_eq!(render_to_string(&tree), "<div a=\"1\" b=\"2\"></div>");
}

#[test]
fn test_long_tag_name_wraps_attributes() {
    let tree = tag(
        "averyveryverylongtagname24x",
        vec![attr("a", "1")],
        vec![],
        false,
    );
    assert_eq!(
        render_to_string(&tree),
        "<averyveryverylongtagname24x\n        a=\"1\"></averyveryverylongtagname24x>"
    );
}

#[test]
fn test_empty_value_attribute_renders_bare() {
    let tree = tag("input", vec![attr("disabled", ""), attr("a", "1")], vec![], false);
    assert_eq!(render_to_string(&tree), "<input disabled a=\"1\"></input>");
}

#[test]
fn test_self_closed_tag_has_no_closing_tag() {
    let tree = tag("br", vec![], vec![], true);
    assert_eq!(render_to_string(&tree), "<br/>");
}

#[test]
fn test_self_closed_tag_with_children_still_has_no_closing_tag() {
    let tree = tag(
        "weird",
        vec![],
        vec![HtmlNode::Plain(HtmlPlain { plain: b("x") })],
        true,
    );
    assert_eq!(render_to_string(&tree), "<weird/>    x");
}

#[test]
fn test_tag_with_children_indents_and_closes_on_fresh_line() {
    let tree = tag(
        "div",
        vec![],
        vec![
            HtmlNode::Whitespace,
            HtmlNode::Plain(HtmlPlain { plain: b("Hi") }),
            HtmlNode::Whitespace,
        ],
        false,
    );
    assert_eq!(render_to_string(&tree), "<div>\r\n    Hi\r\n</div>");
}

#[test]
fn test_nested_blocks_indent_two_levels() {
    let tree = HtmlNode::TwigBlock(TwigBlock {
        name: b("outer"),
        children: vec![
            HtmlNode::Whitespace,
            HtmlNode::TwigBlock(TwigBlock {
                name: b("inner"),
                children: vec![
                    HtmlNode::Whitespace,
                    HtmlNode::Plain(HtmlPlain { plain: b("deep") }),
                    HtmlNode::Whitespace,
                ],
            }),
            HtmlNode::Whitespace,
        ],
    });
    assert_eq!(
        render_to_string(&tree),
        "{% block outer %}\r\n    {% block inner %}\r\n        deep\r\n    {% endblock %}\r\n\r\n{% endblock %}"
    );
}

#[test]
fn test_comment_vue_twig_comment_parent_call() {
    let tree = HtmlNode::Root(vec![
        HtmlNode::Comment(HtmlComment { content: b("note") }),
        HtmlNode::Whitespace,
        HtmlNode::VueBlock(VueBlock { content: b("expr") }),
        HtmlNode::Whitespace,
        HtmlNode::TwigComment(TwigComment { content: b("hidden") }),
        HtmlNode::Whitespace,
        HtmlNode::TwigParentCall,
    ]);
    assert_eq!(
        render_to_string(&tree),
        "<!-- note -->\r\n{{ expr }}\r\n{# hidden #}\r\n{% parent %}"
    );
}

#[test]
fn test_root_concatenates_children_without_separator() {
    let tree = HtmlNode::Root(vec![
        HtmlNode::Plain(HtmlPlain { plain: b("a") }),
        HtmlNode::Plain(HtmlPlain { plain: b("b") }),
    ]);
    assert_eq!(render_to_string(&tree), "ab");
}
