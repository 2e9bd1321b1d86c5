//! The base widget: the data every node of the user interface shares, and the
//! builder that assembles it.

use vstd::prelude::*;

use crate::brush::{Brush, Color};
use crate::message::{MessageDirection, UiMessage, UiMessageData};
use crate::pool::Handle;
use crate::ui::UserInterface;

verus! {

/// Margins around a widget, one length per side, in tenths of a pixel.
#[derive(Clone, Copy, PartialEq, Eq, Structural, Debug)]
pub struct Thickness {
    /// Length on the left side.
    pub left: u32,
    /// Length on the top side.
    pub top: u32,
    /// Length on the right side.
    pub right: u32,
    /// Length on the bottom side.
    pub bottom: u32,
}

impl Thickness {
    /// A thickness with the same length on all four sides.
    pub fn uniform(length: u32) -> (t: Thickness)
        ensures
            t == (Thickness { left: length, top: length, right: length, bottom: length }),
    {
        Thickness { left: length, top: length, right: length, bottom: length }
    }

    /// The zero thickness.
    pub fn zero() -> (t: Thickness)
        ensures
            t == (Thickness { left: 0, top: 0, right: 0, bottom: 0 }),
    {
        Thickness { left: 0, top: 0, right: 0, bottom: 0 }
    }
}

/// Vertical placement of a widget inside the space its parent grants it.
#[derive(Clone, Copy, PartialEq, Eq, Structural, Debug)]
pub enum VerticalAlignment {
    /// Snap to the top edge.
    Top,
    /// Center between top and bottom.
    Center,
    /// Snap to the bottom edge.
    Bottom,
    /// Fill the granted height.
    Stretch,
}

/// Horizontal placement of a widget inside the space its parent grants it.
#[derive(Clone, Copy, PartialEq, Eq, Structural, Debug)]
pub enum HorizontalAlignment {
    /// Snap to the left edge.
    Left,
    /// Center between left and right.
    Center,
    /// Snap to the right edge.
    Right,
    /// Fill the granted width.
    Stretch,
}

/// Messages every widget understands.
#[derive(Clone, Copy, PartialEq, Eq, Structural, Debug)]
pub enum WidgetMessage {
    /// Asks the widget to take keyboard focus.
    Focus,
}

impl WidgetMessage {
    /// Creates a [`WidgetMessage::Focus`] message.
    pub fn focus(destination: Handle, direction: MessageDirection) -> (m: UiMessage)
        ensures
            m == (UiMessage {
                destination,
                direction,
                data: UiMessageData::Widget(WidgetMessage::Focus),
            }),
    {
        UiMessage { destination, direction, data: UiMessageData::Widget(WidgetMessage::Focus) }
    }
}

/// The data shared by every node of the user interface.
#[derive(Clone, PartialEq, Debug)]
pub struct Widget {
    /// Where this node sits in the pool. Assigned when the node is added;
    /// `Handle(0)` until then.
    pub handle: Handle,
    /// Handles of the node's children.
    pub children: Vec<Handle>,
    /// Desired width in tenths of a pixel; `None` means sized by content.
    pub width: Option<u32>,
    /// Desired height in tenths of a pixel; `None` means sized by content.
    pub height: Option<u32>,
    /// Margin around the widget.
    pub margin: Thickness,
    /// Whether drawing is clipped to the widget's bounds.
    pub clip_to_bounds: bool,
    /// Vertical placement inside the granted space.
    pub vertical_alignment: VerticalAlignment,
    /// Horizontal placement inside the granted space.
    pub horizontal_alignment: HorizontalAlignment,
    /// Brush for foreground strokes.
    pub foreground: Brush,
    /// Brush for the background.
    pub background: Brush,
    /// Position in the keyboard tab order; `None` keeps the widget out of it.
    pub tab_index: Option<usize>,
    /// The grid row the widget is placed on.
    pub row: usize,
    /// The grid column the widget is placed on.
    pub column: usize,
}

/// The mathematical value of a [`Widget`]: the same fields, with the children
/// as a sequence.
pub struct WidgetView {
    /// Where this node sits in the pool.
    pub handle: Handle,
    /// Handles of the node's children.
    pub children: Seq<Handle>,
    /// Desired width; `None` means sized by content.
    pub width: Option<u32>,
    /// Desired height; `None` means sized by content.
    pub height: Option<u32>,
    /// Margin around the widget.
    pub margin: Thickness,
    /// Whether drawing is clipped to the widget's bounds.
    pub clip_to_bounds: bool,
    /// Vertical placement inside the granted space.
    pub vertical_alignment: VerticalAlignment,
    /// Horizontal placement inside the granted space.
    pub horizontal_alignment: HorizontalAlignment,
    /// Brush for foreground strokes.
    pub foreground: Brush,
    /// Brush for the background.
    pub background: Brush,
    /// Position in the keyboard tab order.
    pub tab_index: Option<usize>,
    /// The grid row the widget is placed on.
    pub row: usize,
    /// The grid column the widget is placed on.
    pub column: usize,
}

impl View for Widget {
    type V = WidgetView;

    open spec fn view(&self) -> WidgetView {
        WidgetView {
            handle: self.handle,
            children: self.children@,
            width: self.width,
            height: self.height,
            margin: self.margin,
            clip_to_bounds: self.clip_to_bounds,
            vertical_alignment: self.vertical_alignment,
            horizontal_alignment: self.horizontal_alignment,
            foreground: self.foreground,
            background: self.background,
            tab_index: self.tab_index,
            row: self.row,
            column: self.column,
        }
    }
}

/// The widget a fresh [`WidgetBuilder`] would build: no children, sized by
/// content, zero margin, clipped, stretched both ways, white strokes on a
/// transparent background, outside the tab order, on row and column zero.
pub open spec fn spec_default_widget() -> WidgetView {
    WidgetView {
        handle: Handle(0),
        children: Seq::empty(),
        width: None,
        height: None,
        margin: Thickness { left: 0, top: 0, right: 0, bottom: 0 },
        clip_to_bounds: true,
        vertical_alignment: VerticalAlignment::Stretch,
        horizontal_alignment: HorizontalAlignment::Stretch,
        foreground: Brush::Solid(Color { r: 255, g: 255, b: 255, a: 255 }),
        background: Brush::Solid(Color { r: 0, g: 0, b: 0, a: 0 }),
        tab_index: None,
        row: 0,
        column: 0,
    }
}

impl Widget {
    /// The base reaction to a routed message. The base widget keeps no state
    /// that messages could change, so it reacts to none and sends none;
    /// composite widgets add their own handling on top of this.
    pub fn handle_routed_message(&mut self, ui: &mut UserInterface, message: &mut UiMessage)
        ensures
            *final(self) == *old(self),
            *final(ui) == *old(ui),
            *final(message) == *old(message),
    {
    }
}

/// Assembles the base [`Widget`] of a node, field by field.
pub struct WidgetBuilder {
    /// Handles of the node's children.
    pub children: Vec<Handle>,
    /// Desired width; `None` means sized by content.
    pub width: Option<u32>,
    /// Desired height; `None` means sized by content.
    pub height: Option<u32>,
    /// Margin around the widget.
    pub margin: Thickness,
    /// Whether drawing is clipped to the widget's bounds.
    pub clip_to_bounds: bool,
    /// Vertical placement inside the granted space.
    pub vertical_alignment: VerticalAlignment,
    /// Horizontal placement inside the granted space.
    pub horizontal_alignment: HorizontalAlignment,
    /// Brush for foreground strokes.
    pub foreground: Brush,
    /// Brush for the background.
    pub background: Brush,
    /// Position in the keyboard tab order.
    pub tab_index: Option<usize>,
    /// The grid row the widget is placed on.
    pub row: usize,
    /// The grid column the widget is placed on.
    pub column: usize,
}

impl View for WidgetBuilder {
    type V = WidgetView;

    /// The widget this builder would build. Its handle is the placeholder
    /// `Handle(0)` until the node is added to the pool.
    open spec fn view(&self) -> WidgetView {
        WidgetView {
            handle: Handle(0),
            children: self.children@,
            width: self.width,
            height: self.height,
            margin: self.margin,
            clip_to_bounds: self.clip_to_bounds,
            vertical_alignment: self.vertical_alignment,
            horizontal_alignment: self.horizontal_alignment,
            foreground: self.foreground,
            background: self.background,
            tab_index: self.tab_index,
            row: self.row,
            column: self.column,
        }
    }
}

impl WidgetBuilder {
    /// Starts a builder with the defaults of [`spec_default_widget`].
    pub fn new() -> (b: WidgetBuilder)
        ensures
            b@ == spec_default_widget(),
    {
        WidgetBuilder {
            children: Vec::new(),
            width: None,
            height: None,
            margin: Thickness::zero(),
            clip_to_bounds: true,
            vertical_alignment: VerticalAlignment::Stretch,
            horizontal_alignment: HorizontalAlignment::Stretch,
            foreground: Brush::Solid(Color::opaque_gray(255)),
            background: Brush::Solid(Color::transparent()),
            tab_index: None,
            row: 0,
            column: 0,
        }
    }

    /// Appends one child.
    pub fn with_child(self, child: Handle) -> (b: WidgetBuilder)
        ensures
            b@ == (WidgetView { children: self@.children.push(child), ..self@ }),
    {
        let mut b = self;
        b.children.push(child);
        b
    }

    /// Sets the desired width, in tenths of a pixel.
    pub fn with_width(self, width: u32) -> (b: WidgetBuilder)
        ensures
            b@ == (WidgetView { width: Some(width), ..self@ }),
    {
        WidgetBuilder { width: Some(width), ..self }
    }

    /// Sets the desired height, in tenths of a pixel.
    pub fn with_height(self, height: u32) -> (b: WidgetBuilder)
        ensures
            b@ == (WidgetView { height: Some(height), ..self@ }),
    {
        WidgetBuilder { height: Some(height), ..self }
    }

    /// Sets the margin.
    pub fn with_margin(self, margin: Thickness) -> (b: WidgetBuilder)
        ensures
            b@ == (WidgetView { margin, ..self@ }),
    {
        WidgetBuilder { margin, ..self }
    }

    /// Sets whether drawing is clipped to the widget's bounds.
    pub fn with_clip_to_bounds(self, clip_to_bounds: bool) -> (b: WidgetBuilder)
        ensures
            b@ == (WidgetView { clip_to_bounds, ..self@ }),
    {
        WidgetBuilder { clip_to_bounds, ..self }
    }

    /// Sets the vertical placement.
    pub fn with_vertical_alignment(self, alignment: VerticalAlignment) -> (b: WidgetBuilder)
        ensures
            b@ == (WidgetView { vertical_alignment: alignment, ..self@ }),
    {
        WidgetBuilder { vertical_alignment: alignment, ..self }
    }

    /// Sets the horizontal placement.
    pub fn with_horizontal_alignment(self, alignment: HorizontalAlignment) -> (b: WidgetBuilder)
        ensures
            b@ == (WidgetView { horizontal_alignment: alignment, ..self@ }),
    {
        WidgetBuilder { horizontal_alignment: alignment, ..self }
    }

    /// Sets the foreground brush.
    pub fn with_foreground(self, foreground: Brush) -> (b: WidgetBuilder)
        ensures
            b@ == (WidgetView { foreground, ..self@ }),
    {
        WidgetBuilder { foreground, ..self }
    }

    /// Sets the background brush.
    pub fn with_background(self, background: Brush) -> (b: WidgetBuilder)
        ensures
            b@ == (WidgetView { background, ..self@ }),
    {
        WidgetBuilder { background, ..self }
    }

    /// Sets the position in the keyboard tab order.
    pub fn with_tab_index(self, tab_index: Option<usize>) -> (b: WidgetBuilder)
        ensures
            b@ == (WidgetView { tab_index, ..self@ }),
    {
        WidgetBuilder { tab_index, ..self }
    }

    /// Places the widget on the given grid column.
    pub fn on_column(self, column: usize) -> (b: WidgetBuilder)
        ensures
            b@ == (WidgetView { column, ..self@ }),
    {
        WidgetBuilder { column, ..self }
    }

    /// Places the widget on the given grid row.
    pub fn on_row(self, row: usize) -> (b: WidgetBuilder)
        ensures
            b@ == (WidgetView { row, ..self@ }),
    {
        WidgetBuilder { row, ..self }
    }

    /// Finishes the base widget. Its handle is the placeholder `Handle(0)`
    /// until the node it belongs to is added to the pool.
    pub fn build(self) -> (w: Widget)
        ensures
            w@ == self@,
    {
        Widget {
            handle: Handle(0),
            children: self.children,
            width: self.width,
            height: self.height,
            margin: self.margin,
            clip_to_bounds: self.clip_to_bounds,
            vertical_alignment: self.vertical_alignment,
            horizontal_alignment: self.horizontal_alignment,
            foreground: self.foreground,
            background: self.background,
            tab_index: self.tab_index,
            row: self.row,
            column: self.column,
        }
    }
}

} // verus!
