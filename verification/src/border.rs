//! A border: a frame drawn around one child.

use vstd::prelude::*;

use crate::node::{UiNode, UiNodeView};
use crate::pool::Handle;
use crate::ui::BuildContext;
use crate::widget::{Thickness, WidgetBuilder, WidgetView};

verus! {

/// Builds a border node.
pub struct BorderBuilder {
    /// The base widget under construction.
    pub widget_builder: WidgetBuilder,
    /// Radius of the frame's rounded corners, in tenths of a pixel.
    pub corner_radius: u32,
    /// Whether the content is padded inward by the corner radius.
    pub pad_by_corner_radius: bool,
    /// Width of the frame's stroke on each side.
    pub stroke_thickness: Thickness,
}

impl BorderBuilder {
    /// Starts a border with square corners, padding by the corner radius, and
    /// a stroke of one pixel on every side.
    pub fn new(widget_builder: WidgetBuilder) -> (b: BorderBuilder)
        ensures
            b == (BorderBuilder {
                widget_builder,
                corner_radius: 0,
                pad_by_corner_radius: true,
                stroke_thickness: (Thickness { left: 10, top: 10, right: 10, bottom: 10 }),
            }),
    {
        BorderBuilder {
            widget_builder,
            corner_radius: 0,
            pad_by_corner_radius: true,
            stroke_thickness: Thickness::uniform(10),
        }
    }

    /// Sets the radius of the rounded corners.
    pub fn with_corner_radius(self, corner_radius: u32) -> (b: BorderBuilder)
        ensures
            b == (BorderBuilder { corner_radius, ..self }),
    {
        BorderBuilder { corner_radius, ..self }
    }

    /// Sets whether the content is padded inward by the corner radius.
    pub fn with_pad_by_corner_radius(self, pad: bool) -> (b: BorderBuilder)
        ensures
            b == (BorderBuilder { pad_by_corner_radius: pad, ..self }),
    {
        BorderBuilder { pad_by_corner_radius: pad, ..self }
    }

    /// Sets the width of the frame's stroke.
    pub fn with_stroke_thickness(self, stroke_thickness: Thickness) -> (b: BorderBuilder)
        ensures
            b == (BorderBuilder { stroke_thickness, ..self }),
    {
        BorderBuilder { stroke_thickness, ..self }
    }

    /// Finishes the border and adds it to the user interface.
    pub fn build(self, ctx: &mut BuildContext) -> (handle: Handle)
        ensures
            handle.0 == old(ctx).nodes@.len(),
            final(ctx).style == old(ctx).style,
            final(ctx).nodes@.len() == old(ctx).nodes@.len() + 1,
            final(ctx).nodes_view() == old(ctx).nodes_view().push(
                Some(
                    (UiNodeView::Border {
                        widget: (WidgetView { handle, ..self.widget_builder@ }),
                        corner_radius: self.corner_radius,
                        pad_by_corner_radius: self.pad_by_corner_radius,
                        stroke_thickness: self.stroke_thickness,
                    }),
                ),
            ),
    {
        let widget = self.widget_builder.build();
        ctx.add_node(
            UiNode::Border {
                widget,
                corner_radius: self.corner_radius,
                pad_by_corner_radius: self.pad_by_corner_radius,
                stroke_thickness: self.stroke_thickness,
            },
        )
    }
}

} // verus!
