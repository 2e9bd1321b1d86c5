//! A single-line text input widget.

use vstd::prelude::*;

use crate::node::{UiNode, UiNodeView};
use crate::pool::Handle;
use crate::ui::BuildContext;
use crate::widget::{VerticalAlignment, WidgetBuilder, WidgetView};

verus! {

/// When a text box commits its text, that is, reports it over the bus.
#[derive(Clone, Copy, PartialEq, Eq, Structural, Debug)]
pub enum TextCommitMode {
    /// Commit on every keystroke.
    Immediate,
    /// Commit when the text box loses focus.
    LostFocus,
    /// Commit when the text box loses focus or the enter key is pressed.
    LostFocusPlusEnter,
}

/// Builds a text box node.
pub struct TextBoxBuilder {
    /// The base widget under construction.
    pub widget_builder: WidgetBuilder,
    /// When the text box commits its text.
    pub text_commit_mode: TextCommitMode,
    /// Vertical placement of the text inside the box.
    pub vertical_text_alignment: VerticalAlignment,
}

impl TextBoxBuilder {
    /// Starts a text box that commits on focus loss or enter, with its text
    /// at the top.
    pub fn new(widget_builder: WidgetBuilder) -> (b: TextBoxBuilder)
        ensures
            b == (TextBoxBuilder {
                widget_builder,
                text_commit_mode: TextCommitMode::LostFocusPlusEnter,
                vertical_text_alignment: VerticalAlignment::Top,
            }),
    {
        TextBoxBuilder {
            widget_builder,
            text_commit_mode: TextCommitMode::LostFocusPlusEnter,
            vertical_text_alignment: VerticalAlignment::Top,
        }
    }

    /// Sets when the text box commits its text.
    pub fn with_text_commit_mode(self, mode: TextCommitMode) -> (b: TextBoxBuilder)
        ensures
            b == (TextBoxBuilder { text_commit_mode: mode, ..self }),
    {
        TextBoxBuilder { text_commit_mode: mode, ..self }
    }

    /// Sets the vertical placement of the text inside the box.
    pub fn with_vertical_text_alignment(self, alignment: VerticalAlignment) -> (b: TextBoxBuilder)
        ensures
            b == (TextBoxBuilder { vertical_text_alignment: alignment, ..self }),
    {
        TextBoxBuilder { vertical_text_alignment: alignment, ..self }
    }

    /// Finishes the text box and adds it to the user interface.
    pub fn build(self, ctx: &mut BuildContext) -> (handle: Handle)
        ensures
            handle.0 == old(ctx).nodes@.len(),
            final(ctx).style == old(ctx).style,
            final(ctx).nodes@.len() == old(ctx).nodes@.len() + 1,
            final(ctx).nodes_view() == old(ctx).nodes_view().push(
                Some(
                    (UiNodeView::TextBox {
                        widget: (WidgetView { handle, ..self.widget_builder@ }),
                        text_commit_mode: self.text_commit_mode,
                        vertical_text_alignment: self.vertical_text_alignment,
                    }),
                ),
            ),
    {
        let widget = self.widget_builder.build();
        ctx.add_node(
            UiNode::TextBox {
                widget,
                text_commit_mode: self.text_commit_mode,
                vertical_text_alignment: self.vertical_text_alignment,
            },
        )
    }
}

} // verus!
