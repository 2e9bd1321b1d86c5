//! A push button with a decorated back plate and arbitrary content.

use vstd::prelude::*;

use crate::node::{UiNode, UiNodeView};
use crate::pool::Handle;
use crate::ui::BuildContext;
use crate::widget::{WidgetBuilder, WidgetView};

verus! {

/// Messages a button sends and understands.
#[derive(Clone, Copy, PartialEq, Eq, Structural, Debug)]
pub enum ButtonMessage {
    /// The button was clicked.
    Click,
}

/// The children an optional part contributes to a button's widget: one handle
/// when the part is there, none otherwise.
pub open spec fn opt_handle_seq(part: Option<Handle>) -> Seq<Handle> {
    match part {
        Some(handle) => seq![handle],
        None => Seq::empty(),
    }
}

/// Builds a button node.
pub struct ButtonBuilder {
    /// The base widget under construction.
    pub widget_builder: WidgetBuilder,
    /// The back plate behind the content, usually a decorator.
    pub back: Option<Handle>,
    /// The content shown on the button.
    pub content: Option<Handle>,
}

impl ButtonBuilder {
    /// Starts a button with no back plate and no content.
    pub fn new(widget_builder: WidgetBuilder) -> (b: ButtonBuilder)
        ensures
            b == (ButtonBuilder { widget_builder, back: None, content: None }),
    {
        ButtonBuilder { widget_builder, back: None, content: None }
    }

    /// Sets the back plate.
    pub fn with_back(self, back: Handle) -> (b: ButtonBuilder)
        ensures
            b == (ButtonBuilder { back: Some(back), ..self }),
    {
        ButtonBuilder { back: Some(back), ..self }
    }

    /// Sets the content.
    pub fn with_content(self, content: Handle) -> (b: ButtonBuilder)
        ensures
            b == (ButtonBuilder { content: Some(content), ..self }),
    {
        ButtonBuilder { content: Some(content), ..self }
    }

    /// Finishes the button and adds it to the user interface. The back plate
    /// and the content, where given, become the button's children, in that
    /// order, after any children already on the base widget.
    pub fn build(self, ctx: &mut BuildContext) -> (handle: Handle)
        ensures
            handle.0 == old(ctx).nodes@.len(),
            final(ctx).style == old(ctx).style,
            final(ctx).nodes@.len() == old(ctx).nodes@.len() + 1,
            final(ctx).nodes_view() == old(ctx).nodes_view().push(
                Some(
                    (UiNodeView::Button {
                        widget: (WidgetView {
                            handle,
                            children: self.widget_builder@.children + opt_handle_seq(self.back)
                                + opt_handle_seq(self.content),
                            ..self.widget_builder@
                        }),
                        back: self.back,
                        content: self.content,
                    }),
                ),
            ),
    {
        let ButtonBuilder { mut widget_builder, back, content } = self;
        if let Some(back_handle) = back {
            widget_builder = widget_builder.with_child(back_handle);
        }
        if let Some(content_handle) = content {
            widget_builder = widget_builder.with_child(content_handle);
        }
        proof {
            assert(widget_builder@.children =~= self.widget_builder@.children + opt_handle_seq(
                self.back,
            ) + opt_handle_seq(self.content));
        }
        let widget = widget_builder.build();
        ctx.add_node(UiNode::Button { widget, back, content })
    }
}

} // verus!
