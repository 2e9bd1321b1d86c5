//! A decorator: a border that repaints itself as its owner's state changes.

use vstd::prelude::*;

use crate::border::BorderBuilder;
use crate::brush::Brush;
use crate::node::{UiNode, UiNodeView};
use crate::pool::Handle;
use crate::ui::BuildContext;
use crate::widget::WidgetView;

verus! {

/// Builds a decorator node around the frame of a [`BorderBuilder`].
pub struct DecoratorBuilder {
    /// The frame under construction.
    pub border_builder: BorderBuilder,
    /// The brush painted when the owner is in its normal state; `None` leaves
    /// it to the style.
    pub normal_brush: Option<Brush>,
}

impl DecoratorBuilder {
    /// Starts a decorator around the given frame, with its brushes left to
    /// the style.
    pub fn new(border_builder: BorderBuilder) -> (b: DecoratorBuilder)
        ensures
            b == (DecoratorBuilder { border_builder, normal_brush: None }),
    {
        DecoratorBuilder { border_builder, normal_brush: None }
    }

    /// Sets the brush painted when the owner is in its normal state.
    pub fn with_normal_brush(self, brush: Brush) -> (b: DecoratorBuilder)
        ensures
            b == (DecoratorBuilder { normal_brush: Some(brush), ..self }),
    {
        DecoratorBuilder { normal_brush: Some(brush), ..self }
    }

    /// Finishes the decorator and adds it to the user interface.
    pub fn build(self, ctx: &mut BuildContext) -> (handle: Handle)
        ensures
            handle.0 == old(ctx).nodes@.len(),
            final(ctx).style == old(ctx).style,
            final(ctx).nodes@.len() == old(ctx).nodes@.len() + 1,
            final(ctx).nodes_view() == old(ctx).nodes_view().push(
                Some(
                    (UiNodeView::Decorator {
                        widget: (WidgetView { handle, ..self.border_builder.widget_builder@ }),
                        corner_radius: self.border_builder.corner_radius,
                        pad_by_corner_radius: self.border_builder.pad_by_corner_radius,
                        stroke_thickness: self.border_builder.stroke_thickness,
                        normal_brush: self.normal_brush,
                    }),
                ),
            ),
    {
        let widget = self.border_builder.widget_builder.build();
        ctx.add_node(
            UiNode::Decorator {
                widget,
                corner_radius: self.border_builder.corner_radius,
                pad_by_corner_radius: self.border_builder.pad_by_corner_radius,
                stroke_thickness: self.border_builder.stroke_thickness,
                normal_brush: self.normal_brush,
            },
        )
    }
}

} // verus!
