//! A grid panel: lays its children out on rows and columns.

use vstd::prelude::*;

use crate::node::{UiNode, UiNodeView};
use crate::pool::Handle;
use crate::ui::BuildContext;
use crate::widget::{WidgetBuilder, WidgetView};

verus! {

/// How a grid row or column takes its size.
#[derive(Clone, Copy, PartialEq, Eq, Structural, Debug)]
pub enum GridDimension {
    /// Sized by the content placed on it.
    Auto,
    /// Takes an equal share of the space left over.
    Stretch,
}

/// Shorthand constructors for row dimensions.
pub struct Row;

impl Row {
    /// A row sized by its content.
    pub fn auto() -> (d: GridDimension)
        ensures
            d == GridDimension::Auto,
    {
        GridDimension::Auto
    }

    /// A row that takes an equal share of the space left over.
    pub fn stretch() -> (d: GridDimension)
        ensures
            d == GridDimension::Stretch,
    {
        GridDimension::Stretch
    }
}

/// Shorthand constructors for column dimensions.
pub struct Column;

impl Column {
    /// A column sized by its content.
    pub fn auto() -> (d: GridDimension)
        ensures
            d == GridDimension::Auto,
    {
        GridDimension::Auto
    }

    /// A column that takes an equal share of the space left over.
    pub fn stretch() -> (d: GridDimension)
        ensures
            d == GridDimension::Stretch,
    {
        GridDimension::Stretch
    }
}

/// Builds a grid node.
pub struct GridBuilder {
    /// The base widget under construction.
    pub widget_builder: WidgetBuilder,
    /// The rows added so far.
    pub rows: Vec<GridDimension>,
    /// The columns added so far.
    pub columns: Vec<GridDimension>,
}

impl GridBuilder {
    /// Starts a grid with no rows and no columns.
    pub fn new(widget_builder: WidgetBuilder) -> (b: GridBuilder)
        ensures
            b.widget_builder == widget_builder,
            b.rows@ == Seq::<GridDimension>::empty(),
            b.columns@ == Seq::<GridDimension>::empty(),
    {
        GridBuilder { widget_builder, rows: Vec::new(), columns: Vec::new() }
    }

    /// Appends one row.
    pub fn add_row(self, row: GridDimension) -> (b: GridBuilder)
        ensures
            b.widget_builder == self.widget_builder,
            b.rows@ == self.rows@.push(row),
            b.columns == self.columns,
    {
        let mut b = self;
        b.rows.push(row);
        b
    }

    /// Appends one column.
    pub fn add_column(self, column: GridDimension) -> (b: GridBuilder)
        ensures
            b.widget_builder == self.widget_builder,
            b.rows == self.rows,
            b.columns@ == self.columns@.push(column),
    {
        let mut b = self;
        b.columns.push(column);
        b
    }

    /// Finishes the grid and adds it to the user interface.
    pub fn build(self, ctx: &mut BuildContext) -> (handle: Handle)
        ensures
            handle.0 == old(ctx).nodes@.len(),
            final(ctx).style == old(ctx).style,
            final(ctx).nodes@.len() == old(ctx).nodes@.len() + 1,
            final(ctx).nodes_view() == old(ctx).nodes_view().push(
                Some(
                    (UiNodeView::Grid {
                        widget: (WidgetView { handle, ..self.widget_builder@ }),
                        rows: self.rows@,
                        columns: self.columns@,
                    }),
                ),
            ),
    {
        let widget = self.widget_builder.build();
        ctx.add_node(UiNode::Grid { widget, rows: self.rows, columns: self.columns })
    }
}

} // verus!
