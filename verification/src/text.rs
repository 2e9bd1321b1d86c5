//! Messages of text widgets.

use vstd::prelude::*;

use crate::message::{MessageDirection, UiMessage, UiMessageData};
use crate::pool::Handle;

verus! {

/// Messages a text widget sends and understands.
#[derive(Clone, PartialEq, Debug)]
pub enum TextMessage {
    /// The widget's text.
    Text(String),
}

impl TextMessage {
    /// Creates a [`TextMessage::Text`] message.
    pub fn text(destination: Handle, direction: MessageDirection, text: String) -> (m: UiMessage)
        ensures
            m == (UiMessage {
                destination,
                direction,
                data: UiMessageData::Text(TextMessage::Text(text)),
            }),
    {
        UiMessage { destination, direction, data: UiMessageData::Text(TextMessage::Text(text)) }
    }
}

} // verus!
