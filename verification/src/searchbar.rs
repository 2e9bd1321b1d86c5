//! The search bar widget: a text box with a magnifier icon and a "clear text"
//! button. It provides no searching by itself: it reports what the user typed
//! over the bus, and whoever listens does the searching.

use vstd::prelude::*;

use crate::border::BorderBuilder;
use crate::brush::{Brush, Color};
use crate::button::{ButtonBuilder, ButtonMessage};
use crate::decorator::DecoratorBuilder;
use crate::grid::{Column, GridBuilder, GridDimension, Row};
use crate::message::{
    MessageDirection, UiMessage, UiMessageData, UiMessageDataView, UiMessageView,
};
use crate::node::{UiNode, UiNodeView};
use crate::pool::Handle;
use crate::style::{Style, StyleKey};
use crate::text::TextMessage;
use crate::text_box::{TextBoxBuilder, TextCommitMode};
use crate::ui::{BuildContext, UserInterface};
use crate::utils::{make_cross_primitive, spec_cross_primitives};
use crate::vector_image::{Primitive, Vector2, VectorImageBuilder};
use crate::widget::{
    spec_default_widget, HorizontalAlignment, Thickness, VerticalAlignment, Widget, WidgetBuilder,
    WidgetMessage, WidgetView,
};

verus! {

/// Messages a search bar sends and understands.
#[derive(Clone, PartialEq, Debug)]
pub enum SearchBarMessage {
    /// The search text. Sent down, it fills the text box; sent up, it reports
    /// what the user typed.
    Text(String),
}

impl SearchBarMessage {
    /// Creates a [`SearchBarMessage::Text`] message.
    pub fn text(destination: Handle, direction: MessageDirection, text: String) -> (m: UiMessage)
        ensures
            m == (UiMessage {
                destination,
                direction,
                data: UiMessageData::SearchBar(SearchBarMessage::Text(text)),
            }),
    {
        UiMessage {
            destination,
            direction,
            data: UiMessageData::SearchBar(SearchBarMessage::Text(text)),
        }
    }
}

/// The search bar node's data.
#[derive(Clone, PartialEq, Debug)]
pub struct SearchBar {
    /// The base widget of the search bar.
    pub widget: Widget,
    /// The handle of the text box the user types into.
    pub text_box: Handle,
    /// The handle of the button that clears the text.
    pub clear: Handle,
}

/// The mathematical value of a [`SearchBar`].
pub struct SearchBarView {
    /// The base widget of the search bar.
    pub widget: WidgetView,
    /// The handle of the text box the user types into.
    pub text_box: Handle,
    /// The handle of the button that clears the text.
    pub clear: Handle,
}

impl View for SearchBar {
    type V = SearchBarView;

    open spec fn view(&self) -> SearchBarView {
        SearchBarView { widget: self.widget@, text_box: self.text_box, clear: self.clear }
    }
}

/// What the search bar sends when a message addressed to the bar itself
/// arrives travelling down: its text is forwarded to the text box, and a
/// focus request is forwarded to the text box.
pub open spec fn spec_own_response(bar: SearchBarView, message: UiMessageView) -> Seq<
    UiMessageView,
> {
    if message.destination == bar.widget.handle && message.direction is ToWidget {
        match message.data {
            UiMessageDataView::SearchBarText(text) => seq![
                (UiMessageView {
                    destination: bar.text_box,
                    direction: MessageDirection::ToWidget,
                    data: UiMessageDataView::TextText(text),
                }),
            ],
            UiMessageDataView::WidgetFocus => seq![
                (UiMessageView {
                    destination: bar.text_box,
                    direction: MessageDirection::ToWidget,
                    data: UiMessageDataView::WidgetFocus,
                }),
            ],
            _ => Seq::empty(),
        }
    } else {
        Seq::empty()
    }
}

/// What the search bar sends when its clear button reports a click: it asks
/// itself to set the empty text.
pub open spec fn spec_clear_response(bar: SearchBarView, message: UiMessageView) -> Seq<
    UiMessageView,
> {
    if message.destination == bar.clear && message.data is ButtonClick {
        seq![
            (UiMessageView {
                destination: bar.widget.handle,
                direction: MessageDirection::ToWidget,
                data: UiMessageDataView::SearchBarText(Seq::empty()),
            }),
        ]
    } else {
        Seq::empty()
    }
}

/// What the search bar sends when its text box reports new text: it reports
/// the same text upward under its own name.
pub open spec fn spec_text_box_response(bar: SearchBarView, message: UiMessageView) -> Seq<
    UiMessageView,
> {
    if message.destination == bar.text_box && message.direction is FromWidget {
        match message.data {
            UiMessageDataView::TextText(text) => seq![
                (UiMessageView {
                    destination: bar.widget.handle,
                    direction: MessageDirection::FromWidget,
                    data: UiMessageDataView::SearchBarText(text),
                }),
            ],
            _ => Seq::empty(),
        }
    } else {
        Seq::empty()
    }
}

/// Everything the search bar sends in reaction to one routed message: the
/// reactions to its own messages, to its clear button, and to its text box,
/// in that order. At most one of the three is non-empty, since they react to
/// different payloads.
pub open spec fn spec_routed_response(bar: SearchBarView, message: UiMessageView) -> Seq<
    UiMessageView,
> {
    spec_own_response(bar, message) + spec_clear_response(bar, message) + spec_text_box_response(
        bar,
        message,
    )
}

/// One routed message draws at most one message in response: the three
/// reactions of [`spec_routed_response`] answer different payload cases, so
/// no two of them can both be non-empty.
pub proof fn lemma_response_is_at_most_one_message(bar: SearchBarView, message: UiMessageView)
    ensures
        spec_routed_response(bar, message).len() <= 1,
{
}

/// A click on the clear button comes full circle: the bar answers it by
/// asking itself for the empty text, and when the bus routes that answer back
/// to the bar, the bar forwards the empty text to its text box.
pub proof fn lemma_clear_click_empties_the_text_box(bar: SearchBarView, click: UiMessageView)
    requires
        click.destination == bar.clear,
        click.data is ButtonClick,
    ensures
        spec_routed_response(bar, click) == seq![
            (UiMessageView {
                destination: bar.widget.handle,
                direction: MessageDirection::ToWidget,
                data: UiMessageDataView::SearchBarText(Seq::empty()),
            }),
        ],
        spec_routed_response(bar, spec_routed_response(bar, click)[0]) == seq![
            (UiMessageView {
                destination: bar.text_box,
                direction: MessageDirection::ToWidget,
                data: UiMessageDataView::TextText(Seq::empty()),
            }),
        ],
{
    let ask = UiMessageView {
        destination: bar.widget.handle,
        direction: MessageDirection::ToWidget,
        data: UiMessageDataView::SearchBarText(Seq::empty()),
    };
    assert(spec_routed_response(bar, click) =~= seq![ask]);
    let forward = UiMessageView {
        destination: bar.text_box,
        direction: MessageDirection::ToWidget,
        data: UiMessageDataView::TextText(Seq::empty()),
    };
    assert(spec_routed_response(bar, ask) =~= seq![forward]);
}

impl SearchBar {
    /// Reacts to one message routed through the search bar: sends exactly
    /// [`spec_routed_response`] over the bus, and changes nothing else.
    pub fn handle_routed_message(&mut self, ui: &mut UserInterface, message: &mut UiMessage)
        ensures
            *final(self) == *old(self),
            *final(message) == *old(message),
            final(ui).ctx == old(ui).ctx,
            final(ui).queued() == old(ui).queued() + spec_routed_response(
                old(self)@,
                old(message)@,
            ),
    {
        self.widget.handle_routed_message(ui, message);

        if message.destination() == self.widget.handle && message.direction()
            == MessageDirection::ToWidget {
            match message.data() {
                UiMessageData::SearchBar(SearchBarMessage::Text(text)) => {
                    let forwarded = text.clone();
                    ui.send_message(
                        TextMessage::text(self.text_box, MessageDirection::ToWidget, forwarded),
                    );
                },
                UiMessageData::Widget(WidgetMessage::Focus) => {
                    ui.send_message(
                        WidgetMessage::focus(self.text_box, MessageDirection::ToWidget),
                    );
                },
                _ => {},
            }
        }

        if message.destination() == self.clear {
            if let UiMessageData::Button(ButtonMessage::Click) = message.data() {
                ui.send_message(
                    SearchBarMessage::text(
                        self.widget.handle,
                        MessageDirection::ToWidget,
                        String::new(),
                    ),
                );
            }
        }

        if message.destination() == self.text_box && message.direction()
            == MessageDirection::FromWidget {
            if let UiMessageData::Text(TextMessage::Text(text)) = message.data() {
                let reported = text.clone();
                ui.send_message(
                    SearchBarMessage::text(
                        self.widget.handle,
                        MessageDirection::FromWidget,
                        reported,
                    ),
                );
            }
        }

        proof {
            assert(ui.queued() =~= old(ui).queued() + spec_routed_response(
                old(self)@,
                old(message)@,
            ));
        }
    }
}

/// The magnifier icon of a search bar built into slot `base`.
pub open spec fn spec_search_icon(style: Style, base: int) -> UiNodeView {
    UiNodeView::VectorImage {
        widget: WidgetView {
            handle: Handle(base as usize),
            clip_to_bounds: false,
            width: Some(120),
            height: Some(120),
            vertical_alignment: VerticalAlignment::Center,
            foreground: style.spec_property(StyleKey::BrushBright),
            margin: Thickness { left: 40, top: 20, right: 0, bottom: 0 },
            ..spec_default_widget()
        },
        primitives: seq![
            (Primitive::WireCircle {
                center: Vector2 { x: 40, y: 40 },
                radius: 40,
                thickness: 15,
                segments: 16,
            }),
            (Primitive::Line {
                begin: Vector2 { x: 60, y: 60 },
                end: Vector2 { x: 110, y: 110 },
                thickness: 15,
            }),
        ],
    }
}

/// The text box of a search bar built into slot `base`, carrying the tab
/// index the bar's own builder gave up.
pub open spec fn spec_text_field(tab_index: Option<usize>, base: int) -> UiNodeView {
    UiNodeView::TextBox {
        widget: WidgetView {
            handle: Handle((base + 1) as usize),
            tab_index,
            column: 1,
            margin: Thickness { left: 10, top: 10, right: 10, bottom: 10 },
            ..spec_default_widget()
        },
        text_commit_mode: TextCommitMode::Immediate,
        vertical_text_alignment: VerticalAlignment::Center,
    }
}

/// The back plate of the clear button of a search bar built into slot `base`.
pub open spec fn spec_clear_back(base: int) -> UiNodeView {
    UiNodeView::Decorator {
        widget: WidgetView { handle: Handle((base + 2) as usize), ..spec_default_widget() },
        corner_radius: 40,
        pad_by_corner_radius: false,
        stroke_thickness: Thickness { left: 10, top: 10, right: 10, bottom: 10 },
        normal_brush: Some(Brush::Solid(Color { r: 0, g: 0, b: 0, a: 0 })),
    }
}

/// The cross icon of the clear button of a search bar built into slot `base`.
pub open spec fn spec_clear_icon(style: Style, base: int) -> UiNodeView {
    UiNodeView::VectorImage {
        widget: WidgetView {
            handle: Handle((base + 3) as usize),
            horizontal_alignment: HorizontalAlignment::Center,
            vertical_alignment: VerticalAlignment::Center,
            width: Some(80),
            height: Some(80),
            foreground: style.spec_property(StyleKey::BrushBrightest),
            ..spec_default_widget()
        },
        primitives: spec_cross_primitives(80, 20),
    }
}

/// The clear button of a search bar built into slot `base`.
pub open spec fn spec_clear_button(base: int) -> UiNodeView {
    UiNodeView::Button {
        widget: WidgetView {
            handle: Handle((base + 4) as usize),
            width: Some(180),
            height: Some(180),
            column: 2,
            children: seq![Handle((base + 2) as usize), Handle((base + 3) as usize)],
            ..spec_default_widget()
        },
        back: Some(Handle((base + 2) as usize)),
        content: Some(Handle((base + 3) as usize)),
    }
}

/// The grid of a search bar built into slot `base`: icon, text box and clear
/// button on one stretched row, with the text box's column stretched.
pub open spec fn spec_search_grid(base: int) -> UiNodeView {
    UiNodeView::Grid {
        widget: WidgetView {
            handle: Handle((base + 5) as usize),
            children: seq![
                Handle(base as usize),
                Handle((base + 1) as usize),
                Handle((base + 4) as usize),
            ],
            ..spec_default_widget()
        },
        rows: seq![GridDimension::Stretch],
        columns: seq![GridDimension::Auto, GridDimension::Stretch, GridDimension::Auto],
    }
}

/// The rounded frame of a search bar built into slot `base`.
pub open spec fn spec_search_frame(style: Style, base: int) -> UiNodeView {
    UiNodeView::Border {
        widget: WidgetView {
            handle: Handle((base + 6) as usize),
            foreground: style.spec_property(StyleKey::BrushLight),
            background: style.spec_property(StyleKey::BrushDarker),
            children: seq![Handle((base + 5) as usize)],
            ..spec_default_widget()
        },
        corner_radius: 40,
        pad_by_corner_radius: false,
        stroke_thickness: Thickness { left: 10, top: 10, right: 10, bottom: 10 },
    }
}

/// The search bar node built into slot `base + 7`: the builder's base widget
/// with the frame appended as its last child and the tab index given up to
/// the text box.
pub open spec fn spec_search_bar_node(builder: WidgetView, base: int) -> UiNodeView {
    UiNodeView::SearchBar(
        SearchBarView {
            widget: WidgetView {
                handle: Handle((base + 7) as usize),
                children: builder.children.push(Handle((base + 6) as usize)),
                tab_index: None,
                ..builder
            },
            text_box: Handle((base + 1) as usize),
            clear: Handle((base + 4) as usize),
        },
    )
}

/// The eight nodes a search bar's builder adds to a pool holding `base`
/// slots, in the order it adds them.
pub open spec fn spec_search_bar_nodes(builder: WidgetView, style: Style, base: int) -> Seq<
    Option<UiNodeView>,
> {
    seq![
        Some(spec_search_icon(style, base)),
        Some(spec_text_field(builder.tab_index, base)),
        Some(spec_clear_back(base)),
        Some(spec_clear_icon(style, base)),
        Some(spec_clear_button(base)),
        Some(spec_search_grid(base)),
        Some(spec_search_frame(style, base)),
        Some(spec_search_bar_node(builder, base)),
    ]
}

/// Builds [`SearchBar`] widgets and adds them to the user interface.
pub struct SearchBarBuilder {
    /// The base widget under construction.
    pub widget_builder: WidgetBuilder,
}

impl SearchBarBuilder {
    /// Creates a new builder instance.
    pub fn new(widget_builder: WidgetBuilder) -> (b: SearchBarBuilder)
        ensures
            b == (SearchBarBuilder { widget_builder }),
    {
        SearchBarBuilder { widget_builder }
    }

    /// Finishes search bar building and adds the new instance to the user
    /// interface: exactly the eight nodes of [`spec_search_bar_nodes`], with
    /// the bar itself last. Focusing the bar itself would be useless, so the
    /// tab index moves from the bar's base widget to the inner text box.
    #[verifier::rlimit(100)]
    pub fn build(self, ctx: &mut BuildContext) -> (handle: Handle)
        ensures
            final(ctx).style == old(ctx).style,
            handle.0 == old(ctx).nodes@.len() + 7,
            final(ctx).nodes_view() == old(ctx).nodes_view() + spec_search_bar_nodes(
                self.widget_builder@,
                old(ctx).style,
                old(ctx).nodes@.len() as int,
            ),
    {
        let SearchBarBuilder { mut widget_builder } = self;
        let tab_index = widget_builder.tab_index.take();

        let icon = VectorImageBuilder::new(
            WidgetBuilder::new()
                .with_clip_to_bounds(false)
                .with_width(120)
                .with_height(120)
                .with_vertical_alignment(VerticalAlignment::Center)
                .with_foreground(ctx.style.property(StyleKey::BrushBright))
                .with_margin(Thickness { left: 40, top: 20, right: 0, bottom: 0 }),
        );
        let mut primitives: Vec<Primitive> = Vec::new();
        primitives.push(
            Primitive::WireCircle {
                center: Vector2::new(40, 40),
                radius: 40,
                thickness: 15,
                segments: 16,
            },
        );
        primitives.push(
            Primitive::Line { begin: Vector2::new(60, 60), end: Vector2::new(110, 110), thickness: 15 },
        );
        proof {
            assert(primitives@ =~= seq![
                (Primitive::WireCircle {
                    center: Vector2 { x: 40, y: 40 },
                    radius: 40,
                    thickness: 15,
                    segments: 16,
                }),
                (Primitive::Line {
                    begin: Vector2 { x: 60, y: 60 },
                    end: Vector2 { x: 110, y: 110 },
                    thickness: 15,
                }),
            ]);
        }
        let icon = icon.with_primitives(primitives).build(ctx);

        let text_box = TextBoxBuilder::new(
            WidgetBuilder::new().with_tab_index(tab_index).on_column(1).with_margin(
                Thickness::uniform(10),
            ),
        ).with_text_commit_mode(TextCommitMode::Immediate).with_vertical_text_alignment(
            VerticalAlignment::Center,
        ).build(ctx);

        let back = DecoratorBuilder::new(
            BorderBuilder::new(WidgetBuilder::new()).with_pad_by_corner_radius(
                false,
            ).with_corner_radius(40),
        ).with_normal_brush(Brush::Solid(Color::transparent())).build(ctx);

        let cross = VectorImageBuilder::new(
            WidgetBuilder::new()
                .with_horizontal_alignment(HorizontalAlignment::Center)
                .with_vertical_alignment(VerticalAlignment::Center)
                .with_height(80)
                .with_width(80)
                .with_foreground(ctx.style.property(StyleKey::BrushBrightest)),
        ).with_primitives(make_cross_primitive(80, 20)).build(ctx);

        let clear = ButtonBuilder::new(
            WidgetBuilder::new().with_width(180).with_height(180).on_column(2),
        ).with_back(back).with_content(cross).build(ctx);

        let grid = GridBuilder::new(
            WidgetBuilder::new().with_child(icon).with_child(text_box).with_child(clear),
        ).add_row(Row::stretch()).add_column(Column::auto()).add_column(Column::stretch()).add_column(
            Column::auto(),
        ).build(ctx);

        let content = BorderBuilder::new(
            WidgetBuilder::new()
                .with_foreground(ctx.style.property(StyleKey::BrushLight))
                .with_background(ctx.style.property(StyleKey::BrushDarker))
                .with_child(grid),
        ).with_corner_radius(40).with_pad_by_corner_radius(false).with_stroke_thickness(
            Thickness::uniform(10),
        ).build(ctx);

        let widget = widget_builder.with_child(content).build();
        let handle = ctx.add_node(
            UiNode::SearchBar(SearchBar { widget, text_box, clear }),
        );

        proof {
            let base = old(ctx).nodes@.len() as int;
            let style = old(ctx).style;
            let builder = self.widget_builder@;
            assert(icon == Handle(base as usize));
            assert(text_box == Handle((base + 1) as usize));
            assert(back == Handle((base + 2) as usize));
            assert(cross == Handle((base + 3) as usize));
            assert(clear == Handle((base + 4) as usize));
            assert(grid == Handle((base + 5) as usize));
            assert(content == Handle((base + 6) as usize));
            assert(handle == Handle((base + 7) as usize));
            assert(Seq::<Handle>::empty() + crate::button::opt_handle_seq(Some(back))
                + crate::button::opt_handle_seq(Some(cross)) =~= seq![back, cross]);
            assert(Seq::<Handle>::empty().push(icon).push(text_box).push(clear) =~= seq![
                icon,
                text_box,
                clear,
            ]);
            assert(Seq::<Handle>::empty().push(grid) =~= seq![grid]);
            assert(ctx.nodes_view()[base] == Some(spec_search_icon(style, base)));
            assert(ctx.nodes_view()[base + 1] == Some(spec_text_field(builder.tab_index, base)));
            assert(ctx.nodes_view()[base + 2] == Some(spec_clear_back(base)));
            assert(ctx.nodes_view()[base + 3] == Some(spec_clear_icon(style, base)));
            assert(ctx.nodes_view()[base + 4] == Some(spec_clear_button(base)));
            assert(spec_default_widget().children.push(icon).push(text_box).push(clear) =~= seq![
                Handle(base as usize),
                Handle((base + 1) as usize),
                Handle((base + 4) as usize),
            ]);
            assert(Seq::<GridDimension>::empty().push(GridDimension::Stretch) =~= seq![
                GridDimension::Stretch,
            ]);
            assert(Seq::<GridDimension>::empty().push(GridDimension::Auto).push(
                GridDimension::Stretch,
            ).push(GridDimension::Auto) =~= seq![
                GridDimension::Auto,
                GridDimension::Stretch,
                GridDimension::Auto,
            ]);
            assert(ctx.nodes_view()[base + 5] == Some(spec_search_grid(base)));
            assert(ctx.nodes_view()[base + 6] == Some(spec_search_frame(style, base)));
            assert(ctx.nodes_view()[base + 7] == Some(spec_search_bar_node(builder, base)));
            assert(ctx.nodes_view() =~= old(ctx).nodes_view() + spec_search_bar_nodes(
                builder,
                style,
                base,
            ));
        }
        handle
    }
}

} // verus!
