use vstd::prelude::*;

use crate::ast::{HtmlAttribute, HtmlComment, HtmlNode, HtmlPlain, HtmlTag, NodeKind, TwigBlock, TwigComment, VueBlock};
use crate::emit::{push_all, SP, LF, CR, LT, GT, SLASH, BANG, DASH, EQ, QUOTE, LBRACE, RBRACE, PERCENT, HASH};

verus! {

// ---------------------------------------------------------------------------
// The rendered form of a tree, as a mathematical function.
//
// The serializer reconstructs formatted text from the tree: it is a
// formatter, re-deriving indentation and line breaks from structure, not a
// byte-for-byte copy of the original source. The spec functions below define
// the exact byte sequence produced for every node, and each printing
// function's contract ties its output to them.
// ---------------------------------------------------------------------------

/// A Windows-style line break, the break the serializer emits for
/// `Whitespace` nodes.
pub open spec fn crlf() -> Seq<u8> {
    seq![CR, LF]
}

/// `ind` copies of the fixed 4-space indentation unit.
pub open spec fn indent_text(ind: int) -> Seq<u8>
    decreases ind,
{
    if ind <= 0 {
        Seq::empty()
    } else {
        indent_text(ind - 1) + seq![SP, SP, SP, SP]
    }
}

/// The opening of an HTML comment: `<!-- `.
pub open spec fn lit_comment_open() -> Seq<u8> {
    seq![LT, BANG, DASH, DASH, SP]
}

/// The closing of an HTML comment: ` -->`.
pub open spec fn lit_comment_close() -> Seq<u8> {
    seq![SP, DASH, DASH, GT]
}

/// The opening of a Vue interpolation: `{{ `.
pub open spec fn lit_vue_open() -> Seq<u8> {
    seq![LBRACE, LBRACE, SP]
}

/// The closing of a Vue interpolation: ` }}`.
pub open spec fn lit_vue_close() -> Seq<u8> {
    seq![SP, RBRACE, RBRACE]
}

/// The opening of a Twig block: `{% block `.
pub open spec fn lit_block_open() -> Seq<u8> {
    seq![LBRACE, PERCENT, SP, 98u8, 108u8, 111u8, 99u8, 107u8, SP]
}

/// The closing of a Twig statement: ` %}`.
pub open spec fn lit_stmt_close() -> Seq<u8> {
    seq![SP, PERCENT, RBRACE]
}

/// The Twig block terminator: `{% endblock %}`.
pub open spec fn lit_endblock() -> Seq<u8> {
    seq![LBRACE, PERCENT, SP, 101u8, 110u8, 100u8, 98u8, 108u8, 111u8, 99u8, 107u8, SP, PERCENT, RBRACE]
}

/// The Twig parent call: `{% parent %}`.
pub open spec fn lit_parent() -> Seq<u8> {
    seq![LBRACE, PERCENT, SP, 112u8, 97u8, 114u8, 101u8, 110u8, 116u8, SP, PERCENT, RBRACE]
}

/// The opening of a Twig comment: `{# `.
pub open spec fn lit_twig_comment_open() -> Seq<u8> {
    seq![LBRACE, HASH, SP]
}

/// The closing of a Twig comment: ` #}`.
pub open spec fn lit_twig_comment_close() -> Seq<u8> {
    seq![SP, HASH, RBRACE]
}

/// The body of one rendered attribute: the bare key when the value is the
/// empty string, `key="value"` otherwise. The value is written verbatim; no
/// escaping is performed by the serializer.
pub open spec fn render_attr_body(a: HtmlAttribute) -> Seq<u8> {
    if a.value@.len() == 0 {
        a.key@
    } else {
        a.key@ + seq![EQ, QUOTE] + a.value@ + seq![QUOTE]
    }
}

/// One rendered attribute with its separator: on its own line, indented two
/// levels deeper, when the tag wraps its attributes; after a single space
/// otherwise.
pub open spec fn render_attr(a: HtmlAttribute, wrapped: bool, ind: int) -> Seq<u8> {
    (if wrapped {
        seq![LF] + indent_text(ind + 2)
    } else {
        seq![SP]
    }) + render_attr_body(a)
}

/// The rendered attributes of a tag from index `i` on, in insertion order.
pub open spec fn render_attrs(attrs: Seq<HtmlAttribute>, i: int, wrapped: bool, ind: int) -> Seq<u8>
    decreases attrs.len() - i,
{
    if 0 <= i < attrs.len() {
        render_attr(attrs[i], wrapped, ind) + render_attrs(attrs, i + 1, wrapped, ind)
    } else {
        Seq::empty()
    }
}

/// Whether a tag wraps each attribute onto its own line: it does when it has
/// more than 2 attributes or its name is longer than 24 bytes.
pub open spec fn tag_wraps(t: HtmlTag) -> bool {
    t.attributes@.len() > 2 || t.name@.len() > 24
}

/// The sibling kind seen by the node at index `i` of a sibling list: the
/// variant of its immediately preceding sibling, if any.
pub open spec fn prev_kind_of(ns: Seq<HtmlNode>, i: int) -> Option<NodeKind> {
    if i > 0 {
        Some(ns[i - 1].spec_kind())
    } else {
        None
    }
}

/// The rendered form of one node. `prev` is the variant of the node's
/// immediately preceding sibling; only `Whitespace` rendering reads it, and
/// the following sibling is never consulted.
pub open spec fn render_node(n: HtmlNode, prev: Option<NodeKind>, ind: int) -> Seq<u8>
    decreases n, 1int,
{
    match n {
        HtmlNode::Root(children) => render_list(children@, 0, ind),
        HtmlNode::Tag(t) => render_tag(t, ind),
        HtmlNode::Plain(p) => indent_text(ind) + p.plain@,
        HtmlNode::Comment(c) => indent_text(ind) + lit_comment_open() + c.content@
            + lit_comment_close(),
        HtmlNode::VueBlock(v) => indent_text(ind) + lit_vue_open() + v.content@ + lit_vue_close(),
        HtmlNode::TwigBlock(t) => indent_text(ind) + lit_block_open() + t.name@ + lit_stmt_close()
            + render_list(t.children@, 0, ind + 1) + indent_text(ind) + lit_endblock(),
        HtmlNode::TwigParentCall => indent_text(ind) + lit_parent(),
        HtmlNode::TwigComment(c) => indent_text(ind) + lit_twig_comment_open() + c.content@
            + lit_twig_comment_close(),
        HtmlNode::Whitespace => (if prev == Some(NodeKind::TwigBlock) {
            crlf()
        } else {
            Seq::empty()
        }) + crlf(),
    }
}

/// The rendered form of a tag: indentation, `<`, the name, the attributes,
/// `/>` or `>`, the children one level deeper, a fresh indented line before
/// the closing tag when there were children, and the closing tag unless the
/// tag is self-closed.
pub open spec fn render_tag(t: HtmlTag, ind: int) -> Seq<u8>
    decreases t, 3int,
{
    indent_text(ind) + seq![LT] + t.name@ + render_attrs(t.attributes@, 0, tag_wraps(t), ind)
        + (if t.self_closed {
        seq![SLASH, GT]
    } else {
        seq![GT]
    }) + render_list(t.children@, 0, ind + 1) + (if t.children@.len() > 0 {
        indent_text(ind)
    } else {
        Seq::empty()
    }) + (if !t.self_closed {
        seq![LT, SLASH] + t.name@ + seq![GT]
    } else {
        Seq::empty()
    })
}

/// The rendered form of a sibling list from index `i` on, each node seeing
/// the variant of its predecessor.
pub open spec fn render_list(ns: Seq<HtmlNode>, i: int, ind: int) -> Seq<u8>
    decreases ns, ns.len() - i,
{
    if 0 <= i < ns.len() {
        render_node(ns[i], prev_kind_of(ns, i), ind) + render_list(ns, i + 1, ind)
    } else {
        Seq::empty()
    }
}

// ---------------------------------------------------------------------------
// Indentation headroom.
//
// The traversal deepens the indentation by 1 for children and by 2 for
// wrapped attributes; `indent_gain` bounds the largest increase a subtree
// can ask for, so that the `u16` indentation counter is proved not to
// overflow.
// ---------------------------------------------------------------------------

/// The largest amount by which rendering `n` increases the indentation
/// counter beyond the level `n` itself is rendered at.
pub open spec fn indent_gain(n: HtmlNode) -> nat
    decreases n, 1int,
{
    match n {
        HtmlNode::Root(children) => indent_gain_list(children@, 0),
        HtmlNode::Tag(t) => {
            let c = 1 + indent_gain_list(t.children@, 0);
            if c >= 2 {
                c
            } else {
                2
            }
        },
        HtmlNode::TwigBlock(t) => 1 + indent_gain_list(t.children@, 0),
        _ => 0,
    }
}

/// The largest `indent_gain` among the nodes of `ns` from index `i` on.
pub open spec fn indent_gain_list(ns: Seq<HtmlNode>, i: int) -> nat
    decreases ns, ns.len() - i,
{
    if 0 <= i < ns.len() {
        let h = indent_gain(ns[i]);
        let r = indent_gain_list(ns, i + 1);
        if h >= r {
            h
        } else {
            r
        }
    } else {
        0
    }
}

/// Every node of a sibling list asks for at most the list's headroom.
pub proof fn lemma_indent_gain_list_ge(ns: Seq<HtmlNode>, i: int, k: int)
    requires
        0 <= i <= k < ns.len(),
    ensures
        indent_gain_list(ns, i) >= indent_gain(ns[k]),
    decreases k - i,
{
    if i < k {
        lemma_indent_gain_list_ge(ns, i + 1, k);
    }
}

// ---------------------------------------------------------------------------
// Traversal state.
// ---------------------------------------------------------------------------

/// Per-call traversal state, recomputed for each sibling list: the variants
/// of the previous and next siblings, and the indentation depth in tab-stop
/// counts. Only `Whitespace` rendering reads the sibling information, and it
/// reads the previous sibling alone.
#[derive(Debug, Clone, Copy, PartialEq)]
pub struct PrintingContext {
    pub previous_kind: Option<NodeKind>,
    pub next_kind: Option<NodeKind>,
    /// in tab count
    pub indentation: u16,
}

impl PrintingContext {
    /// Copies the current context and returns a new one with the increased
    /// indentation.
    pub fn increase_indentation_by(&self, increase: u16) -> (r: Self)
        requires
            self.indentation + increase <= u16::MAX,
        ensures
            r.previous_kind == self.previous_kind,
            r.next_kind == self.next_kind,
            r.indentation == self.indentation + increase,
    {
        PrintingContext {
            previous_kind: self.previous_kind,
            next_kind: self.next_kind,
            indentation: self.indentation + increase,
        }
    }
}

impl Default for PrintingContext {
    /// The state rendering starts from: no siblings seen, indentation zero.
    fn default() -> (r: Self)
        ensures
            r.previous_kind is None,
            r.next_kind is None,
            r.indentation == 0,
    {
        PrintingContext { previous_kind: None, next_kind: None, indentation: 0 }
    }
}

// ---------------------------------------------------------------------------
// Printing.
// ---------------------------------------------------------------------------

/// Writes `context.indentation` copies of the 4-space unit.
pub fn print_indentation(out: &mut Vec<u8>, context: &PrintingContext)
    ensures
        final(out)@ == old(out)@ + indent_text(context.indentation as int),
{
    let mut i: u16 = 0;
    while i < context.indentation
        invariant
            i <= context.indentation,
            out@ == old(out)@ + indent_text(i as int),
        decreases context.indentation - i,
    {
        out.push(SP);
        out.push(SP);
        out.push(SP);
        out.push(SP);
        proof {
            assert(out@ =~= old(out)@ + indent_text(i + 1));
        }
        i = i + 1;
    }
}

/// Writes one CRLF line break.
fn emit_crlf(out: &mut Vec<u8>)
    ensures
        final(out)@ == old(out)@ + crlf(),
{
    out.push(CR);
    out.push(LF);
    proof {
        assert(out@ =~= old(out)@ + crlf());
    }
}

/// Writes `<!-- `.
fn emit_comment_open(out: &mut Vec<u8>)
    ensures
        final(out)@ == old(out)@ + lit_comment_open(),
{
    out.push(LT);
    out.push(BANG);
    out.push(DASH);
    out.push(DASH);
    out.push(SP);
    proof {
        assert(out@ =~= old(out)@ + lit_comment_open());
    }
}

/// Writes ` -->`.
fn emit_comment_close(out: &mut Vec<u8>)
    ensures
        final(out)@ == old(out)@ + lit_comment_close(),
{
    out.push(SP);
    out.push(DASH);
    out.push(DASH);
    out.push(GT);
    proof {
        assert(out@ =~= old(out)@ + lit_comment_close());
    }
}

/// Writes `{{ `.
fn emit_vue_open(out: &mut Vec<u8>)
    ensures
        final(out)@ == old(out)@ + lit_vue_open(),
{
    out.push(LBRACE);
    out.push(LBRACE);
    out.push(SP);
    proof {
        assert(out@ =~= old(out)@ + lit_vue_open());
    }
}

/// Writes ` }}`.
fn emit_vue_close(out: &mut Vec<u8>)
    ensures
        final(out)@ == old(out)@ + lit_vue_close(),
{
    out.push(SP);
    out.push(RBRACE);
    out.push(RBRACE);
    proof {
        assert(out@ =~= old(out)@ + lit_vue_close());
    }
}

/// Writes `{% block `.
fn emit_block_open(out: &mut Vec<u8>)
    ensures
        final(out)@ == old(out)@ + lit_block_open(),
{
    out.push(LBRACE);
    out.push(PERCENT);
    out.push(SP);
    out.push(98);
    out.push(108);
    out.push(111);
    out.push(99);
    out.push(107);
    out.push(SP);
    proof {
        assert(out@ =~= old(out)@ + lit_block_open());
    }
}

/// Writes ` %}`.
fn emit_stmt_close(out: &mut Vec<u8>)
    ensures
        final(out)@ == old(out)@ + lit_stmt_close(),
{
    out.push(SP);
    out.push(PERCENT);
    out.push(RBRACE);
    proof {
        assert(out@ =~= old(out)@ + lit_stmt_close());
    }
}

/// Writes `{% endblock %}`.
fn emit_endblock(out: &mut Vec<u8>)
    ensures
        final(out)@ == old(out)@ + lit_endblock(),
{
    out.push(LBRACE);
    out.push(PERCENT);
    out.push(SP);
    out.push(101);
    out.push(110);
    out.push(100);
    out.push(98);
    out.push(108);
    out.push(111);
    out.push(99);
    out.push(107);
    out.push(SP);
    out.push(PERCENT);
    out.push(RBRACE);
    proof {
        assert(out@ =~= old(out)@ + lit_endblock());
    }
}

/// Writes `{% parent %}`.
fn emit_parent(out: &mut Vec<u8>)
    ensures
        final(out)@ == old(out)@ + lit_parent(),
{
    out.push(LBRACE);
    out.push(PERCENT);
    out.push(SP);
    out.push(112);
    out.push(97);
    out.push(114);
    out.push(101);
    out.push(110);
    out.push(116);
    out.push(SP);
    out.push(PERCENT);
    out.push(RBRACE);
    proof {
        assert(out@ =~= old(out)@ + lit_parent());
    }
}

/// Writes `{# `.
fn emit_twig_comment_open(out: &mut Vec<u8>)
    ensures
        final(out)@ == old(out)@ + lit_twig_comment_open(),
{
    out.push(LBRACE);
    out.push(HASH);
    out.push(SP);
    proof {
        assert(out@ =~= old(out)@ + lit_twig_comment_open());
    }
}

/// Writes ` #}`.
fn emit_twig_comment_close(out: &mut Vec<u8>)
    ensures
        final(out)@ == old(out)@ + lit_twig_comment_close(),
{
    out.push(SP);
    out.push(HASH);
    out.push(RBRACE);
    proof {
        assert(out@ =~= old(out)@ + lit_twig_comment_close());
    }
}

/// Renders raw text: indentation, then the text verbatim.
pub fn print_plain(out: &mut Vec<u8>, plain: &HtmlPlain, context: &PrintingContext)
    ensures
        final(out)@ == old(out)@ + indent_text(context.indentation as int) + plain.plain@,
{
    print_indentation(out, context);
    push_all(out, &plain.plain);
}

/// Renders an HTML comment: `<!-- content -->`, indented.
pub fn print_html_comment(
    out: &mut Vec<u8>,
    comment: &HtmlComment,
    context: &PrintingContext,
)
    ensures
        final(out)@ == old(out)@ + indent_text(context.indentation as int) + lit_comment_open()
            + comment.content@ + lit_comment_close(),
{
    print_indentation(out, context);
    emit_comment_open(out);
    push_all(out, &comment.content);
    emit_comment_close(out);
}

/// Renders a Vue interpolation: `{{ content }}`, indented.
pub fn print_vue_block(out: &mut Vec<u8>, vue: &VueBlock, context: &PrintingContext)
    ensures
        final(out)@ == old(out)@ + indent_text(context.indentation as int) + lit_vue_open()
            + vue.content@ + lit_vue_close(),
{
    print_indentation(out, context);
    emit_vue_open(out);
    push_all(out, &vue.content);
    emit_vue_close(out);
}

/// Renders a Twig parent call: `{% parent %}`, indented.
pub fn print_twig_parent_call(out: &mut Vec<u8>, context: &PrintingContext)
    ensures
        final(out)@ == old(out)@ + indent_text(context.indentation as int) + lit_parent(),
{
    print_indentation(out, context);
    emit_parent(out);
}

/// Renders a Twig comment: `{# content #}`, indented.
pub fn print_twig_comment(
    out: &mut Vec<u8>,
    comment: &TwigComment,
    context: &PrintingContext,
)
    ensures
        final(out)@ == old(out)@ + indent_text(context.indentation as int)
            + lit_twig_comment_open() + comment.content@ + lit_twig_comment_close(),
{
    print_indentation(out, context);
    emit_twig_comment_open(out);
    push_all(out, &comment.content);
    emit_twig_comment_close(out);
}

/// Renders a `Whitespace` node: one line break, or two when the immediately
/// preceding sibling is a `TwigBlock` — a deliberate rule that visually
/// separates a just-closed block from what follows. Only the preceding
/// sibling is consulted, never the following one.
pub fn print_whitespace(out: &mut Vec<u8>, context: &PrintingContext)
    ensures
        final(out)@ == old(out)@ + (if context.previous_kind == Some(NodeKind::TwigBlock) {
            crlf() + crlf()
        } else {
            crlf()
        }),
{
    match context.previous_kind {
        Some(NodeKind::TwigBlock) => {
            // print another line break before the usual one.
            emit_crlf(out);
        },
        _ => {},
    }
    emit_crlf(out);
}

/// Renders one node, dispatching on its variant.
pub fn print_node(out: &mut Vec<u8>, node: &HtmlNode, context: &PrintingContext)
    requires
        context.indentation + indent_gain(*node) <= u16::MAX,
    ensures
        final(out)@ == old(out)@ + render_node(
            *node,
            context.previous_kind,
            context.indentation as int,
        ),
    decreases *node, 1int,
{
    let ghost pre = out@;
    let ghost ind = context.indentation as int;
    match node {
        HtmlNode::Root(root) => {
            print_node_list(out, root, context);
        },
        HtmlNode::Tag(tag) => {
            print_tag(out, tag, context);
        },
        HtmlNode::Plain(plain) => {
            print_plain(out, plain, context);
            proof {
                assert(out@ =~= pre + render_node(*node, context.previous_kind, ind));
            }
        },
        HtmlNode::Comment(comment) => {
            print_html_comment(out, comment, context);
            proof {
                assert(out@ =~= pre + render_node(*node, context.previous_kind, ind));
            }
        },
        HtmlNode::VueBlock(vue) => {
            print_vue_block(out, vue, context);
            proof {
                assert(out@ =~= pre + render_node(*node, context.previous_kind, ind));
            }
        },
        HtmlNode::TwigBlock(twig) => {
            print_twig_block(out, twig, context);
        },
        HtmlNode::TwigParentCall => {
            print_twig_parent_call(out, context);
            proof {
                assert(out@ =~= pre + render_node(*node, context.previous_kind, ind));
            }
        },
        HtmlNode::TwigComment(comment) => {
            print_twig_comment(out, comment, context);
            proof {
                assert(out@ =~= pre + render_node(*node, context.previous_kind, ind));
            }
        },
        HtmlNode::Whitespace => {
            print_whitespace(out, context);
            proof {
                assert(out@ =~= pre + render_node(*node, context.previous_kind, ind));
            }
        },
    }
}

/// Renders a sibling list in order; each node is handed a fresh context in
/// which it sees the variants of its immediate neighbours and the list's
/// indentation.
#[verifier::loop_isolation(false)]
pub fn print_node_list(out: &mut Vec<u8>, nodes: &Vec<HtmlNode>, context: &PrintingContext)
    requires
        context.indentation + indent_gain_list(nodes@, 0) <= u16::MAX,
    ensures
        final(out)@ == old(out)@ + render_list(nodes@, 0, context.indentation as int),
    decreases nodes@, 0int,
{
    let ghost ind = context.indentation as int;
    let mut idx: usize = 0;
    while idx < nodes.len()
        invariant
            idx <= nodes.len(),
            out@ + render_list(nodes@, idx as int, ind) == old(out)@ + render_list(nodes@, 0, ind),
        decreases nodes@.len() - idx,
    {
        let previous = if idx > 0 {
            Some(nodes[idx - 1].kind())
        } else {
            None
        };
        let after = if idx + 1 < nodes.len() {
            Some(nodes[idx + 1].kind())
        } else {
            None
        };
        let node_context = PrintingContext {
            previous_kind: previous,
            next_kind: after,
            indentation: context.indentation,
        };
        proof {
            lemma_indent_gain_list_ge(nodes@, 0, idx as int);
            assert(node_context.previous_kind == prev_kind_of(nodes@, idx as int));
        }
        let ghost mid = out@;
        print_node(out, &nodes[idx], &node_context);
        proof {
            assert(render_list(nodes@, idx as int, ind) == render_node(
                nodes@[idx as int],
                prev_kind_of(nodes@, idx as int),
                ind,
            ) + render_list(nodes@, idx as int + 1, ind));
            assert(out@ + render_list(nodes@, idx as int + 1, ind) =~= mid + render_list(
                nodes@,
                idx as int,
                ind,
            ));
        }
        idx = idx + 1;
    }
    proof {
        assert(render_list(nodes@, nodes@.len() as int, ind) =~= Seq::<u8>::empty());
        assert(out@ =~= out@ + Seq::<u8>::empty());
    }
}

/// Renders an HTML element. Attributes wrap onto their own lines, two levels
/// deeper, when the tag has more than 2 attributes or a name longer than 24
/// bytes; children are rendered one level deeper; a self-closed tag closes
/// with `/>` and never emits a closing tag.
#[verifier::loop_isolation(false)]
#[verifier::rlimit(100)]
pub fn print_tag(out: &mut Vec<u8>, tag: &HtmlTag, context: &PrintingContext)
    requires
        context.indentation + 2 <= u16::MAX,
        context.indentation + 1 + indent_gain_list(tag.children@, 0) <= u16::MAX,
    ensures
        final(out)@ == old(out)@ + render_tag(*tag, context.indentation as int),
    decreases *tag, 3int,
{
    let ghost pre = out@;
    let ghost ind = context.indentation as int;
    print_indentation(out, context);
    out.push(LT);
    push_all(out, &tag.name);
    let ghost open_part = indent_text(ind) + seq![LT] + tag.name@;
    proof {
        assert(out@ =~= pre + open_part);
    }

    // attributes
    let wrapped = tag.attributes.len() > 2 || tag.name.len() > 24;
    let mut i: usize = 0;
    while i < tag.attributes.len()
        invariant
            i <= tag.attributes.len(),
            out@ + render_attrs(tag.attributes@, i as int, wrapped, ind) == pre + open_part
                + render_attrs(tag.attributes@, 0, wrapped, ind),
        decreases tag.attributes@.len() - i,
    {
        let ghost mid = out@;
        if wrapped {
            out.push(LF);
            let deeper = context.increase_indentation_by(2);
            print_indentation(out, &deeper);
            proof {
                assert(out@ =~= mid + (seq![LF] + indent_text(ind + 2)));
            }
        } else {
            out.push(SP);
            proof {
                assert(out@ =~= mid + seq![SP]);
            }
        }
        let attribute = &tag.attributes[i];
        push_all(out, &attribute.key);
        if attribute.value.len() != 0 {
            out.push(EQ);
            out.push(QUOTE);
            push_all(out, &attribute.value);
            out.push(QUOTE);
            proof {
                assert(render_attr_body(tag.attributes@[i as int]) == attribute.key@ + seq![
                    EQ,
                    QUOTE,
                ] + attribute.value@ + seq![QUOTE]);
            }
        }
        proof {
            assert(out@ =~= mid + render_attr(tag.attributes@[i as int], wrapped, ind));
            assert(render_attrs(tag.attributes@, i as int, wrapped, ind) == render_attr(
                tag.attributes@[i as int],
                wrapped,
                ind,
            ) + render_attrs(tag.attributes@, i as int + 1, wrapped, ind));
            assert(out@ + render_attrs(tag.attributes@, i as int + 1, wrapped, ind) =~= mid
                + render_attrs(tag.attributes@, i as int, wrapped, ind));
        }
        i = i + 1;
    }
    let ghost attr_part = render_attrs(tag.attributes@, 0, wrapped, ind);
    proof {
        assert(render_attrs(tag.attributes@, tag.attributes@.len() as int, wrapped, ind)
            =~= Seq::<u8>::empty());
        assert(out@ =~= out@ + Seq::<u8>::empty());
        assert(out@ =~= pre + open_part + attr_part);
    }

    if tag.self_closed {
        out.push(SLASH);
        out.push(GT);
    } else {
        out.push(GT);
    }
    let ghost close_mark = if tag.self_closed {
        seq![SLASH, GT]
    } else {
        seq![GT]
    };
    proof {
        assert(out@ =~= pre + open_part + attr_part + close_mark);
    }

    let child_context = context.increase_indentation_by(1);
    print_node_list(out, &tag.children, &child_context);
    let ghost child_part = render_list(tag.children@, 0, ind + 1);
    proof {
        assert(out@ =~= pre + open_part + attr_part + close_mark + child_part);
    }

    if !tag.children.is_empty() {
        print_indentation(out, context);
    }
    let ghost break_part = if tag.children@.len() > 0 {
        indent_text(ind)
    } else {
        Seq::<u8>::empty()
    };
    proof {
        assert(out@ =~= pre + open_part + attr_part + close_mark + child_part + break_part);
    }

    if !tag.self_closed {
        out.push(LT);
        out.push(SLASH);
        push_all(out, &tag.name);
        out.push(GT);
    }
    let ghost end_part = if !tag.self_closed {
        seq![LT, SLASH] + tag.name@ + seq![GT]
    } else {
        Seq::<u8>::empty()
    };
    proof {
        assert(out@ =~= pre + open_part + attr_part + close_mark + child_part + break_part
            + end_part);
        assert(wrapped == tag_wraps(*tag));
        assert(out@ =~= pre + render_tag(*tag, ind));
    }
}

/// Renders a Twig block: `{% block name %}`, the children one level deeper,
/// then a fresh indented `{% endblock %}`.
pub fn print_twig_block(out: &mut Vec<u8>, twig: &TwigBlock, context: &PrintingContext)
    requires
        context.indentation + 1 + indent_gain_list(twig.children@, 0) <= u16::MAX,
    ensures
        final(out)@ == old(out)@ + indent_text(context.indentation as int) + lit_block_open()
            + twig.name@ + lit_stmt_close() + render_list(
            twig.children@,
            0,
            context.indentation as int + 1,
        ) + indent_text(context.indentation as int) + lit_endblock(),
    decreases *twig, 3int,
{
    let ghost pre = out@;
    let ghost ind = context.indentation as int;
    print_indentation(out, context);
    emit_block_open(out);
    push_all(out, &twig.name);
    emit_stmt_close(out);

    let child_context = context.increase_indentation_by(1);
    print_node_list(out, &twig.children, &child_context);

    print_indentation(out, context);
    emit_endblock(out);
    proof {
        assert(out@ =~= pre + indent_text(ind) + lit_block_open() + twig.name@ + lit_stmt_close()
            + render_list(twig.children@, 0, ind + 1) + indent_text(ind) + lit_endblock());
    }
}

// ---------------------------------------------------------------------------
// Laws of the rendering rules.
// ---------------------------------------------------------------------------

/// A `Whitespace` node whose immediately preceding sibling is a `TwigBlock`
/// emits two line breaks; with any other preceding sibling (or none) it
/// emits exactly one. The following sibling never plays a part.
pub proof fn lemma_double_break_after_twig_block(prev: Option<NodeKind>, ind: int)
    ensures
        prev == Some(NodeKind::TwigBlock) ==> render_node(HtmlNode::Whitespace, prev, ind) == crlf()
            + crlf(),
        prev != Some(NodeKind::TwigBlock) ==> render_node(HtmlNode::Whitespace, prev, ind)
            == crlf(),
{
    if prev == Some(NodeKind::TwigBlock) {
        assert(render_node(HtmlNode::Whitespace, prev, ind) =~= crlf() + crlf());
    } else {
        assert(render_node(HtmlNode::Whitespace, prev, ind) =~= crlf());
    }
}

/// A tag wraps its attributes exactly when it has more than 2 of them or its
/// name is longer than 24 bytes. A wrapped attribute stands on its own line,
/// indented two levels deeper than the tag; an unwrapped one follows a single
/// space.
pub proof fn lemma_attribute_wrapping(t: HtmlTag, i: int, ind: int)
    requires
        0 <= i < t.attributes@.len(),
    ensures
        tag_wraps(t) <==> (t.attributes@.len() > 2 || t.name@.len() > 24),
        tag_wraps(t) ==> render_attr(t.attributes@[i], tag_wraps(t), ind) == seq![LF] + indent_text(
            ind + 2,
        ) + render_attr_body(t.attributes@[i]),
        !tag_wraps(t) ==> render_attr(t.attributes@[i], tag_wraps(t), ind) == seq![SP]
            + render_attr_body(t.attributes@[i]),
        render_tag(t, ind) == indent_text(ind) + seq![LT] + t.name@ + render_attrs(
            t.attributes@,
            0,
            tag_wraps(t),
            ind,
        ) + (if t.self_closed {
            seq![SLASH, GT]
        } else {
            seq![GT]
        }) + render_list(t.children@, 0, ind + 1) + (if t.children@.len() > 0 {
            indent_text(ind)
        } else {
            Seq::<u8>::empty()
        }) + (if !t.self_closed {
            seq![LT, SLASH] + t.name@ + seq![GT]
        } else {
            Seq::<u8>::empty()
        }),
{
}

/// An attribute whose value is the empty string renders as the bare key,
/// with no `="..."` suffix; any other attribute renders as `key="value"`.
pub proof fn lemma_empty_value_attribute(a: HtmlAttribute)
    ensures
        a.value@.len() == 0 ==> render_attr_body(a) == a.key@,
        a.value@.len() > 0 ==> render_attr_body(a) == a.key@ + seq![EQ, QUOTE] + a.value@ + seq![
            QUOTE,
        ],
{
}

/// A self-closed tag closes its opening with `/>` and never emits a closing
/// tag, whatever its children are: its rendering ends with the children and
/// the optional fresh indented line, with no `</name>` segment.
pub proof fn lemma_self_closed_tag_omits_closing(t: HtmlTag, ind: int)
    requires
        t.self_closed,
    ensures
        render_tag(t, ind) == indent_text(ind) + seq![LT] + t.name@ + render_attrs(
            t.attributes@,
            0,
            tag_wraps(t),
            ind,
        ) + seq![SLASH, GT] + render_list(t.children@, 0, ind + 1) + (if t.children@.len() > 0 {
            indent_text(ind)
        } else {
            Seq::<u8>::empty()
        }),
{
    assert(render_tag(t, ind) =~= indent_text(ind) + seq![LT] + t.name@ + render_attrs(
        t.attributes@,
        0,
        tag_wraps(t),
        ind,
    ) + seq![SLASH, GT] + render_list(t.children@, 0, ind + 1) + (if t.children@.len() > 0 {
        indent_text(ind)
    } else {
        Seq::<u8>::empty()
    }));
}

/// Renders a whole tree from indentation zero into a fresh byte buffer.
pub fn render_tree(tree: &HtmlNode) -> (out: Vec<u8>)
    requires
        indent_gain(*tree) <= u16::MAX,
    ensures
        out@ == render_node(*tree, None, 0),
{
    let mut out: Vec<u8> = Vec::new();
    let context = PrintingContext { previous_kind: None, next_kind: None, indentation: 0 };
    print_node(&mut out, tree, &context);
    proof {
        assert(out@ =~= render_node(*tree, None, 0));
    }
    out
}

} // verus!
