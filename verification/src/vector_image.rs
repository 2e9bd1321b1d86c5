//! A widget that draws a list of vector primitives.

use vstd::prelude::*;

use crate::node::{UiNode, UiNodeView};
use crate::pool::Handle;
use crate::ui::BuildContext;
use crate::widget::{WidgetBuilder, WidgetView};

verus! {

/// A point in a vector image's own coordinates, in tenths of a pixel.
#[derive(Clone, Copy, PartialEq, Eq, Structural, Debug)]
pub struct Vector2 {
    /// Distance from the left edge.
    pub x: u32,
    /// Distance from the top edge.
    pub y: u32,
}

impl Vector2 {
    /// A point from its two coordinates.
    pub fn new(x: u32, y: u32) -> (v: Vector2)
        ensures
            v == (Vector2 { x, y }),
    {
        Vector2 { x, y }
    }
}

/// One stroke of a vector image. All lengths are in tenths of a pixel.
#[derive(Clone, Copy, PartialEq, Eq, Structural, Debug)]
pub enum Primitive {
    /// An unfilled circle approximated by straight segments.
    WireCircle {
        /// The circle's center.
        center: Vector2,
        /// The circle's radius.
        radius: u32,
        /// Width of the stroke.
        thickness: u32,
        /// How many straight segments approximate the circle.
        segments: u32,
    },
    /// A straight line.
    Line {
        /// Where the line starts.
        begin: Vector2,
        /// Where the line ends.
        end: Vector2,
        /// Width of the stroke.
        thickness: u32,
    },
}

/// Builds a vector image node.
pub struct VectorImageBuilder {
    /// The base widget under construction.
    pub widget_builder: WidgetBuilder,
    /// The strokes to draw.
    pub primitives: Vec<Primitive>,
}

impl VectorImageBuilder {
    /// Starts a vector image with no strokes.
    pub fn new(widget_builder: WidgetBuilder) -> (b: VectorImageBuilder)
        ensures
            b.widget_builder == widget_builder,
            b.primitives@ == Seq::<Primitive>::empty(),
    {
        VectorImageBuilder { widget_builder, primitives: Vec::new() }
    }

    /// Replaces the strokes with the given list.
    pub fn with_primitives(self, primitives: Vec<Primitive>) -> (b: VectorImageBuilder)
        ensures
            b.widget_builder == self.widget_builder,
            b.primitives == primitives,
    {
        VectorImageBuilder { widget_builder: self.widget_builder, primitives }
    }

    /// Finishes the vector image and adds it to the user interface.
    pub fn build(self, ctx: &mut BuildContext) -> (handle: Handle)
        ensures
            handle.0 == old(ctx).nodes@.len(),
            final(ctx).style == old(ctx).style,
            final(ctx).nodes@.len() == old(ctx).nodes@.len() + 1,
            final(ctx).nodes_view() == old(ctx).nodes_view().push(
                Some(
                    (UiNodeView::VectorImage {
                        widget: (WidgetView { handle, ..self.widget_builder@ }),
                        primitives: self.primitives@,
                    }),
                ),
            ),
    {
        let widget = self.widget_builder.build();
        ctx.add_node(UiNode::VectorImage { widget, primitives: self.primitives })
    }
}

} // verus!
