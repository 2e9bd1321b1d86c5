use searchbar::border::BorderBuilder;
use searchbar::grid::{Column, GridBuilder, GridDimension, Row};
use searchbar::node::UiNode;
use searchbar::pool::Handle;
use searchbar::searchbar::SearchBarBuilder;
use searchbar::style::StyleKey;
use searchbar::text_box::TextCommitMode;
use searchbar::ui::UserInterface;
use searchbar::utils::make_cross_primitive;
use searchbar::vector_image::{Primitive, Vector2};
use searchbar::widget::{Thickness, WidgetBuilder};

#[test]
fn test_deletion() {
    let mut ui = UserInterface::new();
    let handle = SearchBarBuilder::new(WidgetBuilder::new()).build(ui.build_ctx());
    assert_eq!(ui.ctx.live_nodes(), 8);
    ui.build_ctx().remove_subtree(handle);
    assert_eq!(ui.ctx.live_nodes(), 0);
}

#[test]
fn search_bar_takes_eight_nodes_and_comes_last() {
    let mut ui = UserInterface::new();
    let handle = SearchBarBuilder::new(WidgetBuilder::new()).build(ui.build_ctx());
    assert_eq!(handle, Handle(7));
    assert_eq!(ui.ctx.nodes.len(), 8);
    match &ui.ctx.nodes[7] {
        Some(UiNode::SearchBar(bar)) => {
            assert_eq!(bar.widget.handle, Handle(7));
            assert_eq!(bar.text_box, Handle(1));
            assert_eq!(bar.clear, Handle(4));
            assert_eq!(bar.widget.children, vec![Handle(6)]);
        }
        other => panic!("expected a search bar node, found {:?}", other),
    }
}

#[test]
fn search_bar_inner_tree_is_wired_up() {
    let mut ui = UserInterface::new();
    SearchBarBuilder::new(WidgetBuilder::new()).build(ui.build_ctx());
    match &ui.ctx.nodes[0] {
        Some(UiNode::VectorImage { widget, primitives }) => {
            assert_eq!(widget.width, Some(120));
            assert_eq!(widget.height, Some(120));
            assert!(!widget.clip_to_bounds);
            assert_eq!(primitives.len(), 2);
        }
        other => panic!("expected the magnifier icon, found {:?}", other),
    }
    match &ui.ctx.nodes[1] {
        Some(UiNode::TextBox { widget, text_commit_mode, .. }) => {
            assert_eq!(*text_commit_mode, TextCommitMode::Immediate);
            assert_eq!(widget.column, 1);
            assert_eq!(widget.margin, Thickness { left: 10, top: 10, right: 10, bottom: 10 });
        }
        other => panic!("expected the text box, found {:?}", other),
    }
    match &ui.ctx.nodes[2] {
        Some(UiNode::Decorator { corner_radius, pad_by_corner_radius, .. }) => {
            assert_eq!(*corner_radius, 40);
            assert!(!pad_by_corner_radius);
        }
        other => panic!("expected the clear button's back plate, found {:?}", other),
    }
    match &ui.ctx.nodes[4] {
        Some(UiNode::Button { widget, back, content }) => {
            assert_eq!(*back, Some(Handle(2)));
            assert_eq!(*content, Some(Handle(3)));
            assert_eq!(widget.children, vec![Handle(2), Handle(3)]);
            assert_eq!(widget.column, 2);
        }
        other => panic!("expected the clear button, found {:?}", other),
    }
    match &ui.ctx.nodes[5] {
        Some(UiNode::Grid { widget, rows, columns }) => {
            assert_eq!(widget.children, vec![Handle(0), Handle(1), Handle(4)]);
            assert_eq!(*rows, vec![GridDimension::Stretch]);
            assert_eq!(
                *columns,
                vec![GridDimension::Auto, GridDimension::Stretch, GridDimension::Auto]
            );
        }
        other => panic!("expected the grid, found {:?}", other),
    }
    match &ui.ctx.nodes[6] {
        Some(UiNode::Border { widget, corner_radius, .. }) => {
            assert_eq!(widget.children, vec![Handle(5)]);
            assert_eq!(*corner_radius, 40);
            assert_eq!(widget.foreground, ui.ctx.style.property(StyleKey::BrushLight));
            assert_eq!(widget.background, ui.ctx.style.property(StyleKey::BrushDarker));
        }
        other => panic!("expected the frame, found {:?}", other),
    }
}

#[test]
fn grid_collects_rows_columns_and_children() {
    let mut ui = UserInterface::new();
    let ctx = ui.build_ctx();
    let item = BorderBuilder::new(WidgetBuilder::new().on_row(0).on_column(1)).build(ctx);
    let grid = GridBuilder::new(WidgetBuilder::new().with_child(item))
        .add_row(Row::auto())
        .add_row(Row::stretch())
        .add_column(Column::stretch())
        .build(ctx);
    match &ui.ctx.nodes[grid.0] {
        Some(UiNode::Grid { widget, rows, columns }) => {
            assert_eq!(*rows, vec![GridDimension::Auto, GridDimension::Stretch]);
            assert_eq!(*columns, vec![GridDimension::Stretch]);
            assert_eq!(widget.children, vec![item]);
        }
        other => panic!("expected a grid, found {:?}", other),
    }
    match &ui.ctx.nodes[item.0] {
        Some(UiNode::Border { widget, .. }) => {
            assert_eq!(widget.row, 0);
            assert_eq!(widget.column, 1);
        }
        other => panic!("expected a border, found {:?}", other),
    }
}

#[test]
fn subtree_removal_spares_unrelated_nodes() {
    let mut ui = UserInterface::new();
    let first = SearchBarBuilder::new(WidgetBuilder::new()).build(ui.build_ctx());
    let second = SearchBarBuilder::new(WidgetBuilder::new()).build(ui.build_ctx());
    ui.build_ctx().remove_subtree(first);
    assert_eq!(ui.ctx.live_nodes(), 8);
    assert!(ui.ctx.nodes[first.0].is_none());
    assert!(ui.ctx.nodes[second.0].is_some());
}

#[test]
fn tab_index_moves_to_the_text_box() {
    let mut ui = UserInterface::new();
    let handle =
        SearchBarBuilder::new(WidgetBuilder::new().with_tab_index(Some(3))).build(ui.build_ctx());
    match &ui.ctx.nodes[1] {
        Some(UiNode::TextBox { widget, .. }) => assert_eq!(widget.tab_index, Some(3)),
        other => panic!("expected the text box, found {:?}", other),
    }
    match &ui.ctx.nodes[handle.0] {
        Some(UiNode::SearchBar(bar)) => assert_eq!(bar.widget.tab_index, None),
        other => panic!("expected the search bar, found {:?}", other),
    }
}

#[test]
fn second_search_bar_builds_behind_the_first() {
    let mut ui = UserInterface::new();
    let first = SearchBarBuilder::new(WidgetBuilder::new()).build(ui.build_ctx());
    let second = SearchBarBuilder::new(WidgetBuilder::new()).build(ui.build_ctx());
    assert_eq!(first, Handle(7));
    assert_eq!(second, Handle(15));
    match &ui.ctx.nodes[15] {
        Some(UiNode::SearchBar(bar)) => {
            assert_eq!(bar.text_box, Handle(9));
            assert_eq!(bar.clear, Handle(12));
        }
        other => panic!("expected a search bar node, found {:?}", other),
    }
}

#[test]
fn removing_one_node_keeps_the_rest() {
    let mut ui = UserInterface::new();
    SearchBarBuilder::new(WidgetBuilder::new()).build(ui.build_ctx());
    ui.build_ctx().remove_node(Handle(3));
    assert_eq!(ui.ctx.live_nodes(), 7);
    assert!(ui.ctx.nodes[3].is_none());
    assert!(ui.ctx.nodes[4].is_some());
}

#[test]
fn cross_is_two_diagonal_lines() {
    let cross = make_cross_primitive(80, 20);
    assert_eq!(
        cross,
        vec![
            Primitive::Line {
                begin: Vector2 { x: 0, y: 0 },
                end: Vector2 { x: 80, y: 80 },
                thickness: 20,
            },
            Primitive::Line {
                begin: Vector2 { x: 80, y: 0 },
                end: Vector2 { x: 0, y: 80 },
                thickness: 20,
            },
        ]
    );
}

#[test]
fn uniform_thickness_covers_all_sides() {
    assert_eq!(
        Thickness::uniform(10),
        Thickness { left: 10, top: 10, right: 10, bottom: 10 }
    );
}
