//! The composite rendering: every annotation as a text node of its own, which
//! the reader can select and copy from.
//!
//! The library lays the rendering out; the host that owns the surface carries
//! it out.

use vstd::prelude::*;
use crate::css::px;
use crate::model::{Annotation, FontStyle, ImageAttributes};

verus! {

/// The text of the label that is put on the surface beside the container. It
/// tells the reader that the elements can be copied from.
pub const COMPOSITE_LABEL: &'static str = "VIP 专用：可复制的普通元素";

/// The CSS `position` of the container: its children are placed relative to it.
pub const CONTAINER_POSITIONING: &'static str = "relative";

/// The CSS `position` of every text node: placed at its own offsets.
pub const NODE_POSITIONING: &'static str = "absolute";

/// One text node of the composite rendering.
#[derive(Clone, Debug)]
pub struct TextNode {
    /// The plain text that the node shows.
    pub text: String,
    /// The CSS `left` offset of the node within the container.
    pub left: String,
    /// The CSS `top` offset of the node within the container.
    pub top: String,
    /// The size that the node's CSS `font-size` is set from, in pixels.
    pub font_style: FontStyle,
}

/// The mathematical value of a [`TextNode`].
pub struct Node {
    pub text: Seq<char>,
    pub left: Seq<char>,
    pub top: Seq<char>,
    pub font_style: FontStyle,
}

impl View for TextNode {
    type V = Node;

    open spec fn view(&self) -> Node {
        Node { text: self.text@, left: self.left@, top: self.top@, font_style: self.font_style }
    }
}

/// A composite rendering, laid out: a container of the surface's dimensions,
/// its child nodes in document order, and the label that goes with it.
#[derive(Clone, Debug)]
pub struct CompositePlan {
    /// The CSS `width` of the container.
    pub width: String,
    /// The CSS `height` of the container.
    pub height: String,
    pub children: Vec<TextNode>,
    pub label: String,
}

/// The mathematical value of a [`CompositePlan`].
pub struct Composite {
    pub width: Seq<char>,
    pub height: Seq<char>,
    pub children: Seq<Node>,
    pub label: Seq<char>,
}

impl View for CompositePlan {
    type V = Composite;

    open spec fn view(&self) -> Composite {
        Composite {
            width: self.width@,
            height: self.height@,
            children: Seq::new(self.children@.len(), |i: int| self.children@[i]@),
            label: self.label@,
        }
    }
}

/// The node that shows one annotation: its plain text, offset by its
/// position, at its size.
pub open spec fn node_of(annotation: Annotation) -> Node {
    Node {
        text: annotation.text,
        left: px(annotation.position.x as int),
        top: px(annotation.position.y as int),
        font_style: annotation.font_style,
    }
}

/// The composite rendering of `annotations` on a surface of the given
/// dimensions: one node per annotation, in the same order.
pub open spec fn composite_of(annotations: Seq<Annotation>, surface: ImageAttributes) -> Composite {
    Composite {
        width: px(surface.width as int),
        height: px(surface.height as int),
        children: Seq::new(annotations.len(), |i: int| node_of(annotations[i])),
        label: COMPOSITE_LABEL@,
    }
}

/// The composite rendering holds exactly one node per annotation, and the
/// node at each place shows the annotation at that place.
pub proof fn lemma_one_node_per_annotation(annotations: Seq<Annotation>, surface: ImageAttributes)
    ensures
        composite_of(annotations, surface).children.len() == annotations.len(),
        forall|i: int|
            0 <= i < annotations.len() ==> #[trigger] composite_of(
                annotations,
                surface,
            ).children[i] == node_of(annotations[i]),
{
}

} // verus!
