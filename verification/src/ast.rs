use vstd::prelude::*;

verus! {

/// One element of the parsed template tree. The tree is produced once by
/// parsing and is immutable afterwards; it is either inspected or handed to
/// the serializer. All text is carried as raw bytes of the source.
#[derive(Debug, PartialEq)]
pub enum HtmlNode {
    /// Top-level container.
    Root(Vec<HtmlNode>),
    /// An HTML element.
    Tag(HtmlTag),
    /// Raw text content.
    Plain(HtmlPlain),
    /// An HTML comment.
    Comment(HtmlComment),
    /// A Vue-style interpolation expression.
    VueBlock(VueBlock),
    /// A named Twig block construct with nested content.
    TwigBlock(TwigBlock),
    /// A Twig "parent" marker; no payload.
    TwigParentCall,
    /// A Twig comment.
    TwigComment(TwigComment),
    /// An explicit, semantically meaningful line break marker, distinct from
    /// incidental text.
    Whitespace,
}

/// One attribute of an HTML element. Insertion order of attributes is
/// preserved in `HtmlTag::attributes` and is semantically relevant to output.
#[derive(Debug, PartialEq)]
pub struct HtmlAttribute {
    pub key: Vec<u8>,
    pub value: Vec<u8>,
}

/// An HTML element: name, attributes in insertion order, children, and
/// whether the tag was written self-closing.
#[derive(Debug, PartialEq)]
pub struct HtmlTag {
    pub name: Vec<u8>,
    pub attributes: Vec<HtmlAttribute>,
    pub children: Vec<HtmlNode>,
    pub self_closed: bool,
}

/// Raw text content.
#[derive(Debug, PartialEq)]
pub struct HtmlPlain {
    pub plain: Vec<u8>,
}

/// An HTML comment.
#[derive(Debug, PartialEq)]
pub struct HtmlComment {
    pub content: Vec<u8>,
}

/// A Vue-style interpolation expression.
#[derive(Debug, PartialEq)]
pub struct VueBlock {
    pub content: Vec<u8>,
}

/// A named Twig block construct with nested content.
#[derive(Debug, PartialEq)]
pub struct TwigBlock {
    pub name: Vec<u8>,
    pub children: Vec<HtmlNode>,
}

/// A Twig comment.
#[derive(Debug, PartialEq)]
pub struct TwigComment {
    pub content: Vec<u8>,
}

/// The variant of a node, as plain data. Sibling information threaded
/// through the serializer is recorded as a `NodeKind` rather than as a
/// reference into the tree.
#[derive(Debug, Clone, Copy, PartialEq, Eq, Structural)]
pub enum NodeKind {
    Root,
    Tag,
    Plain,
    Comment,
    VueBlock,
    TwigBlock,
    TwigParentCall,
    TwigComment,
    Whitespace,
}

impl HtmlNode {
    /// The variant of this node.
    pub open spec fn spec_kind(&self) -> NodeKind {
        match self {
            HtmlNode::Root(_) => NodeKind::Root,
            HtmlNode::Tag(_) => NodeKind::Tag,
            HtmlNode::Plain(_) => NodeKind::Plain,
            HtmlNode::Comment(_) => NodeKind::Comment,
            HtmlNode::VueBlock(_) => NodeKind::VueBlock,
            HtmlNode::TwigBlock(_) => NodeKind::TwigBlock,
            HtmlNode::TwigParentCall => NodeKind::TwigParentCall,
            HtmlNode::TwigComment(_) => NodeKind::TwigComment,
            HtmlNode::Whitespace => NodeKind::Whitespace,
        }
    }

    /// Returns the variant of this node.
    pub fn kind(&self) -> (k: NodeKind)
        ensures
            k == self.spec_kind(),
    {
        match self {
            HtmlNode::Root(_) => NodeKind::Root,
            HtmlNode::Tag(_) => NodeKind::Tag,
            HtmlNode::Plain(_) => NodeKind::Plain,
            HtmlNode::Comment(_) => NodeKind::Comment,
            HtmlNode::VueBlock(_) => NodeKind::VueBlock,
            HtmlNode::TwigBlock(_) => NodeKind::TwigBlock,
            HtmlNode::TwigParentCall => NodeKind::TwigParentCall,
            HtmlNode::TwigComment(_) => NodeKind::TwigComment,
            HtmlNode::Whitespace => NodeKind::Whitespace,
        }
    }
}

} // verus!
