use searchbar::button::ButtonMessage;
use searchbar::message::{MessageDirection, UiMessage, UiMessageData};
use searchbar::pool::Handle;
use searchbar::searchbar::{SearchBar, SearchBarMessage};
use searchbar::text::TextMessage;
use searchbar::ui::UserInterface;
use searchbar::widget::{WidgetBuilder, WidgetMessage};

fn sample_bar() -> SearchBar {
    let mut widget = WidgetBuilder::new().build();
    widget.handle = Handle(10);
    SearchBar { widget, text_box: Handle(11), clear: Handle(12) }
}

#[test]
fn text_sent_to_the_bar_fills_the_text_box() {
    let mut ui = UserInterface::new();
    let mut bar = sample_bar();
    let mut message = SearchBarMessage::text(
        Handle(10),
        MessageDirection::ToWidget,
        String::from("abc"),
    );
    bar.handle_routed_message(&mut ui, &mut message);
    assert_eq!(
        ui.messages,
        vec![TextMessage::text(Handle(11), MessageDirection::ToWidget, String::from("abc"))]
    );
}

#[test]
fn focus_sent_to_the_bar_moves_to_the_text_box() {
    let mut ui = UserInterface::new();
    let mut bar = sample_bar();
    let mut message = WidgetMessage::focus(Handle(10), MessageDirection::ToWidget);
    bar.handle_routed_message(&mut ui, &mut message);
    assert_eq!(
        ui.messages,
        vec![WidgetMessage::focus(Handle(11), MessageDirection::ToWidget)]
    );
}

#[test]
fn clear_click_asks_the_bar_for_empty_text() {
    let mut ui = UserInterface::new();
    let mut bar = sample_bar();
    let mut message = UiMessage {
        destination: Handle(12),
        direction: MessageDirection::FromWidget,
        data: UiMessageData::Button(ButtonMessage::Click),
    };
    bar.handle_routed_message(&mut ui, &mut message);
    assert_eq!(
        ui.messages,
        vec![SearchBarMessage::text(Handle(10), MessageDirection::ToWidget, String::new())]
    );
}

#[test]
fn text_box_report_is_forwarded_under_the_bar_name() {
    let mut ui = UserInterface::new();
    let mut bar = sample_bar();
    let mut message = TextMessage::text(
        Handle(11),
        MessageDirection::FromWidget,
        String::from("query"),
    );
    bar.handle_routed_message(&mut ui, &mut message);
    assert_eq!(
        ui.messages,
        vec![SearchBarMessage::text(
            Handle(10),
            MessageDirection::FromWidget,
            String::from("query")
        )]
    );
}

#[test]
fn message_for_another_widget_is_ignored() {
    let mut ui = UserInterface::new();
    let mut bar = sample_bar();
    let mut message = SearchBarMessage::text(
        Handle(99),
        MessageDirection::ToWidget,
        String::from("abc"),
    );
    bar.handle_routed_message(&mut ui, &mut message);
    assert!(ui.messages.is_empty());
}

#[test]
fn text_in_the_wrong_direction_is_ignored() {
    let mut ui = UserInterface::new();
    let mut bar = sample_bar();
    let mut upward = SearchBarMessage::text(
        Handle(10),
        MessageDirection::FromWidget,
        String::from("abc"),
    );
    bar.handle_routed_message(&mut ui, &mut upward);
    let mut downward = TextMessage::text(
        Handle(11),
        MessageDirection::ToWidget,
        String::from("abc"),
    );
    bar.handle_routed_message(&mut ui, &mut downward);
    assert!(ui.messages.is_empty());
}

#[test]
fn handling_leaves_the_message_and_the_bar_alone() {
    let mut ui = UserInterface::new();
    let mut bar = sample_bar();
    let expected_bar = sample_bar();
    let mut message = SearchBarMessage::text(
        Handle(10),
        MessageDirection::ToWidget,
        String::from("abc"),
    );
    let expected_message = message.clone();
    bar.handle_routed_message(&mut ui, &mut message);
    assert_eq!(message, expected_message);
    assert_eq!(bar, expected_bar);
}

#[test]
fn message_accessors_report_the_fields() {
    let message = SearchBarMessage::text(
        Handle(5),
        MessageDirection::FromWidget,
        String::from("x"),
    );
    assert_eq!(message.destination(), Handle(5));
    assert_eq!(message.direction(), MessageDirection::FromWidget);
    assert_eq!(
        *message.data(),
        UiMessageData::SearchBar(SearchBarMessage::Text(String::from("x")))
    );
}
