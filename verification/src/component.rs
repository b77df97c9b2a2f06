//! Message components as plain data: a button and a row of buttons, holding
//! exactly what a chat client needs to draw them.

use vstd::prelude::*;

verus! {

/// The look of a button.
#[derive(Clone, Copy, Debug, PartialEq, Eq, Structural)]
pub enum ButtonStyle {
    Primary,
    Secondary,
    Success,
    Danger,
    Link,
}

/// A button of a message. `style` and `emoji` are `None` until they are set.
#[derive(Debug)]
pub struct Button {
    pub label: String,
    pub custom_id: String,
    pub style: Option<ButtonStyle>,
    pub emoji: Option<String>,
    pub disabled: bool,
}

/// What a [`Button`] holds, as mathematical values.
pub struct ButtonView {
    pub label: Seq<char>,
    pub custom_id: Seq<char>,
    pub style: Option<ButtonStyle>,
    pub emoji: Option<Seq<char>>,
    pub disabled: bool,
}

impl View for Button {
    type V = ButtonView;

    open spec fn view(&self) -> ButtonView {
        ButtonView {
            label: self.label@,
            custom_id: self.custom_id@,
            style: self.style,
            emoji: match self.emoji {
                Some(e) => Some(e@),
                None => None,
            },
            disabled: self.disabled,
        }
    }
}

/// One row of buttons of a message.
#[derive(Debug)]
pub struct ActionRow {
    pub buttons: Vec<Button>,
}

impl View for ActionRow {
    type V = Seq<ButtonView>;

    open spec fn view(&self) -> Seq<ButtonView> {
        Seq::new(self.buttons@.len(), |i: int| self.buttons@[i]@)
    }
}

/// The rows of a message, as mathematical values.
pub open spec fn rows_view(rows: Seq<ActionRow>) -> Seq<Seq<ButtonView>> {
    Seq::new(rows.len(), |i: int| rows[i]@)
}

} // verus!
