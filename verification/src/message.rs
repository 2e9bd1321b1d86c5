//! Messages that travel over the user interface's message bus.

use vstd::prelude::*;

use crate::button::ButtonMessage;
use crate::pool::Handle;
use crate::searchbar::SearchBarMessage;
use crate::text::TextMessage;
use crate::widget::WidgetMessage;

verus! {

/// The way a message travels: down to a widget, or up from one.
#[derive(Clone, Copy, PartialEq, Eq, Structural, Debug)]
pub enum MessageDirection {
    /// From the outside world down to the widget.
    ToWidget,
    /// From the widget up to the outside world.
    FromWidget,
}

/// The payload of a [`UiMessage`]: one of the widget-specific message sets.
#[derive(Clone, PartialEq, Debug)]
pub enum UiMessageData {
    /// A message of the base widget.
    Widget(WidgetMessage),
    /// A message of a button.
    Button(ButtonMessage),
    /// A message of a text widget.
    Text(TextMessage),
    /// A message of a search bar.
    SearchBar(SearchBarMessage),
}

/// The mathematical value of a [`UiMessageData`]: the same cases, with text
/// as a sequence of characters.
pub enum UiMessageDataView {
    /// The base widget was asked to take focus.
    WidgetFocus,
    /// A button was clicked.
    ButtonClick,
    /// A text widget's text, with its characters.
    TextText(Seq<char>),
    /// A search bar's text, with its characters.
    SearchBarText(Seq<char>),
}

impl View for UiMessageData {
    type V = UiMessageDataView;

    open spec fn view(&self) -> UiMessageDataView {
        match self {
            UiMessageData::Widget(WidgetMessage::Focus) => UiMessageDataView::WidgetFocus,
            UiMessageData::Button(ButtonMessage::Click) => UiMessageDataView::ButtonClick,
            UiMessageData::Text(TextMessage::Text(text)) => UiMessageDataView::TextText(text@),
            UiMessageData::SearchBar(SearchBarMessage::Text(text)) => UiMessageDataView::SearchBarText(
                text@,
            ),
        }
    }
}

/// One message on the bus: a payload addressed to a widget, together with the
/// direction it travels.
#[derive(Clone, PartialEq, Debug)]
pub struct UiMessage {
    /// The widget the message is addressed to.
    pub destination: Handle,
    /// The way the message travels.
    pub direction: MessageDirection,
    /// The payload.
    pub data: UiMessageData,
}

/// The mathematical value of a [`UiMessage`].
pub struct UiMessageView {
    /// The widget the message is addressed to.
    pub destination: Handle,
    /// The way the message travels.
    pub direction: MessageDirection,
    /// The payload.
    pub data: UiMessageDataView,
}

impl View for UiMessage {
    type V = UiMessageView;

    open spec fn view(&self) -> UiMessageView {
        UiMessageView { destination: self.destination, direction: self.direction, data: self.data@ }
    }
}

impl UiMessage {
    /// The widget the message is addressed to.
    pub fn destination(&self) -> (h: Handle)
        ensures
            h == self.destination,
    {
        self.destination
    }

    /// The way the message travels.
    pub fn direction(&self) -> (d: MessageDirection)
        ensures
            d == self.direction,
    {
        self.direction
    }

    /// The payload.
    pub fn data(&self) -> (d: &UiMessageData)
        ensures
            d == &self.data,
    {
        &self.data
    }
}

} // verus!
