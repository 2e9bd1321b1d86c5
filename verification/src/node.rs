//! The node: one widget of any kind, as it sits in the user interface's pool.

use vstd::prelude::*;

use crate::brush::Brush;
use crate::grid::GridDimension;
use crate::pool::Handle;
use crate::searchbar::{SearchBar, SearchBarView};
use crate::text_box::TextCommitMode;
use crate::vector_image::Primitive;
use crate::widget::{Thickness, VerticalAlignment, Widget, WidgetView};

verus! {

/// One node of the user interface: the base widget and the kind-specific data.
#[derive(Clone, PartialEq, Debug)]
pub enum UiNode {
    /// A frame around one child.
    Border {
        /// The base widget.
        widget: Widget,
        /// Radius of the frame's rounded corners, in tenths of a pixel.
        corner_radius: u32,
        /// Whether the content is padded inward by the corner radius.
        pad_by_corner_radius: bool,
        /// Width of the frame's stroke on each side.
        stroke_thickness: Thickness,
    },
    /// A push button.
    Button {
        /// The base widget.
        widget: Widget,
        /// The back plate behind the content.
        back: Option<Handle>,
        /// The content shown on the button.
        content: Option<Handle>,
    },
    /// A border that repaints itself as its owner's state changes.
    Decorator {
        /// The base widget.
        widget: Widget,
        /// Radius of the frame's rounded corners, in tenths of a pixel.
        corner_radius: u32,
        /// Whether the content is padded inward by the corner radius.
        pad_by_corner_radius: bool,
        /// Width of the frame's stroke on each side.
        stroke_thickness: Thickness,
        /// The brush painted in the owner's normal state; `None` leaves it to
        /// the style.
        normal_brush: Option<Brush>,
    },
    /// A panel that lays its children out on rows and columns.
    Grid {
        /// The base widget.
        widget: Widget,
        /// The rows.
        rows: Vec<GridDimension>,
        /// The columns.
        columns: Vec<GridDimension>,
    },
    /// A single-line text input.
    TextBox {
        /// The base widget.
        widget: Widget,
        /// When the text box commits its text.
        text_commit_mode: TextCommitMode,
        /// Vertical placement of the text inside the box.
        vertical_text_alignment: VerticalAlignment,
    },
    /// A drawing of vector primitives.
    VectorImage {
        /// The base widget.
        widget: Widget,
        /// The strokes to draw.
        primitives: Vec<Primitive>,
    },
    /// A search bar.
    SearchBar(SearchBar),
}

/// The mathematical value of a [`UiNode`].
pub enum UiNodeView {
    /// A frame around one child.
    Border {
        /// The base widget.
        widget: WidgetView,
        /// Radius of the frame's rounded corners.
        corner_radius: u32,
        /// Whether the content is padded inward by the corner radius.
        pad_by_corner_radius: bool,
        /// Width of the frame's stroke on each side.
        stroke_thickness: Thickness,
    },
    /// A push button.
    Button {
        /// The base widget.
        widget: WidgetView,
        /// The back plate behind the content.
        back: Option<Handle>,
        /// The content shown on the button.
        content: Option<Handle>,
    },
    /// A border that repaints itself as its owner's state changes.
    Decorator {
        /// The base widget.
        widget: WidgetView,
        /// Radius of the frame's rounded corners.
        corner_radius: u32,
        /// Whether the content is padded inward by the corner radius.
        pad_by_corner_radius: bool,
        /// Width of the frame's stroke on each side.
        stroke_thickness: Thickness,
        /// The brush painted in the owner's normal state.
        normal_brush: Option<Brush>,
    },
    /// A panel that lays its children out on rows and columns.
    Grid {
        /// The base widget.
        widget: WidgetView,
        /// The rows.
        rows: Seq<GridDimension>,
        /// The columns.
        columns: Seq<GridDimension>,
    },
    /// A single-line text input.
    TextBox {
        /// The base widget.
        widget: WidgetView,
        /// When the text box commits its text.
        text_commit_mode: TextCommitMode,
        /// Vertical placement of the text inside the box.
        vertical_text_alignment: VerticalAlignment,
    },
    /// A drawing of vector primitives.
    VectorImage {
        /// The base widget.
        widget: WidgetView,
        /// The strokes to draw.
        primitives: Seq<Primitive>,
    },
    /// A search bar.
    SearchBar(SearchBarView),
}

impl View for UiNode {
    type V = UiNodeView;

    open spec fn view(&self) -> UiNodeView {
        match self {
            UiNode::Border { widget, corner_radius, pad_by_corner_radius, stroke_thickness } => {
                UiNodeView::Border {
                    widget: widget@,
                    corner_radius: *corner_radius,
                    pad_by_corner_radius: *pad_by_corner_radius,
                    stroke_thickness: *stroke_thickness,
                }
            },
            UiNode::Button { widget, back, content } => {
                UiNodeView::Button { widget: widget@, back: *back, content: *content }
            },
            UiNode::Decorator {
                widget,
                corner_radius,
                pad_by_corner_radius,
                stroke_thickness,
                normal_brush,
            } => {
                UiNodeView::Decorator {
                    widget: widget@,
                    corner_radius: *corner_radius,
                    pad_by_corner_radius: *pad_by_corner_radius,
                    stroke_thickness: *stroke_thickness,
                    normal_brush: *normal_brush,
                }
            },
            UiNode::Grid { widget, rows, columns } => {
                UiNodeView::Grid { widget: widget@, rows: rows@, columns: columns@ }
            },
            UiNode::TextBox { widget, text_commit_mode, vertical_text_alignment } => {
                UiNodeView::TextBox {
                    widget: widget@,
                    text_commit_mode: *text_commit_mode,
                    vertical_text_alignment: *vertical_text_alignment,
                }
            },
            UiNode::VectorImage { widget, primitives } => {
                UiNodeView::VectorImage { widget: widget@, primitives: primitives@ }
            },
            UiNode::SearchBar(bar) => UiNodeView::SearchBar(bar@),
        }
    }
}

impl UiNodeView {
    /// The base widget of the node.
    pub open spec fn widget(self) -> WidgetView {
        match self {
            UiNodeView::Border { widget, .. } => widget,
            UiNodeView::Button { widget, .. } => widget,
            UiNodeView::Decorator { widget, .. } => widget,
            UiNodeView::Grid { widget, .. } => widget,
            UiNodeView::TextBox { widget, .. } => widget,
            UiNodeView::VectorImage { widget, .. } => widget,
            UiNodeView::SearchBar(bar) => bar.widget,
        }
    }
}

/// The same node with its base widget's handle replaced.
pub open spec fn with_handle_view(node: UiNodeView, handle: Handle) -> UiNodeView {
    match node {
        UiNodeView::Border { widget, corner_radius, pad_by_corner_radius, stroke_thickness } => {
            UiNodeView::Border {
                widget: WidgetView { handle, ..widget },
                corner_radius,
                pad_by_corner_radius,
                stroke_thickness,
            }
        },
        UiNodeView::Button { widget, back, content } => {
            UiNodeView::Button { widget: WidgetView { handle, ..widget }, back, content }
        },
        UiNodeView::Decorator {
            widget,
            corner_radius,
            pad_by_corner_radius,
            stroke_thickness,
            normal_brush,
        } => {
            UiNodeView::Decorator {
                widget: WidgetView { handle, ..widget },
                corner_radius,
                pad_by_corner_radius,
                stroke_thickness,
                normal_brush,
            }
        },
        UiNodeView::Grid { widget, rows, columns } => {
            UiNodeView::Grid { widget: WidgetView { handle, ..widget }, rows, columns }
        },
        UiNodeView::TextBox { widget, text_commit_mode, vertical_text_alignment } => {
            UiNodeView::TextBox {
                widget: WidgetView { handle, ..widget },
                text_commit_mode,
                vertical_text_alignment,
            }
        },
        UiNodeView::VectorImage { widget, primitives } => {
            UiNodeView::VectorImage { widget: WidgetView { handle, ..widget }, primitives }
        },
        UiNodeView::SearchBar(bar) => {
            UiNodeView::SearchBar(
                SearchBarView {
                    widget: WidgetView { handle, ..bar.widget },
                    text_box: bar.text_box,
                    clear: bar.clear,
                },
            )
        },
    }
}

impl UiNode {
    /// A borrow of the node's base widget.
    pub fn widget(&self) -> (w: &Widget)
        ensures
            w@ == self@.widget(),
    {
        match self {
            UiNode::Border { widget, .. } => widget,
            UiNode::Button { widget, .. } => widget,
            UiNode::Decorator { widget, .. } => widget,
            UiNode::Grid { widget, .. } => widget,
            UiNode::TextBox { widget, .. } => widget,
            UiNode::VectorImage { widget, .. } => widget,
            UiNode::SearchBar(bar) => &bar.widget,
        }
    }

    /// The same node with its base widget's handle replaced.
    pub fn with_handle(self, handle: Handle) -> (node: UiNode)
        ensures
            node@ == with_handle_view(self@, handle),
    {
        match self {
            UiNode::Border { mut widget, corner_radius, pad_by_corner_radius, stroke_thickness } => {
                widget.handle = handle;
                UiNode::Border { widget, corner_radius, pad_by_corner_radius, stroke_thickness }
            },
            UiNode::Button { mut widget, back, content } => {
                widget.handle = handle;
                UiNode::Button { widget, back, content }
            },
            UiNode::Decorator {
                mut widget,
                corner_radius,
                pad_by_corner_radius,
                stroke_thickness,
                normal_brush,
            } => {
                widget.handle = handle;
                UiNode::Decorator {
                    widget,
                    corner_radius,
                    pad_by_corner_radius,
                    stroke_thickness,
                    normal_brush,
                }
            },
            UiNode::Grid { mut widget, rows, columns } => {
                widget.handle = handle;
                UiNode::Grid { widget, rows, columns }
            },
            UiNode::TextBox { mut widget, text_commit_mode, vertical_text_alignment } => {
                widget.handle = handle;
                UiNode::TextBox { widget, text_commit_mode, vertical_text_alignment }
            },
            UiNode::VectorImage { mut widget, primitives } => {
                widget.handle = handle;
                UiNode::VectorImage { widget, primitives }
            },
            UiNode::SearchBar(mut bar) => {
                bar.widget.handle = handle;
                UiNode::SearchBar(bar)
            },
        }
    }
}

} // verus!
