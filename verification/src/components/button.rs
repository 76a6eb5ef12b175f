//! The colours of a button.

use vstd::prelude::*;

verus! {

/// The colour of a button.
#[derive(Clone, Copy, Debug, PartialEq, Eq, Structural)]
pub enum ButtonColour {
    Default,
    White,
    Black,
    Light,
    Dark,
    Text,
    Primary,
    Link,
    Info,
    Success,
    Warning,
    Danger,
    GhostStyle,
}

impl ButtonColour {
    /// The style class of a colour; the default colour has none.
    pub open spec fn spec_class(self) -> Seq<char> {
        match self {
            ButtonColour::Default => ""@,
            ButtonColour::White => "is-white"@,
            ButtonColour::Black => "is-black"@,
            ButtonColour::Light => "is-light"@,
            ButtonColour::Dark => "is-dark"@,
            ButtonColour::Text => "is-text"@,
            ButtonColour::Primary => "is-primary"@,
            ButtonColour::Link => "is-link"@,
            ButtonColour::Info => "is-info"@,
            ButtonColour::Success => "is-success"@,
            ButtonColour::Warning => "is-warning"@,
            ButtonColour::Danger => "is-danger"@,
            ButtonColour::GhostStyle => "is-ghost"@,
        }
    }

    /// The style class of a colour.
    pub fn to_string(&self) -> (class: String)
        ensures
            class@ == self.spec_class(),
    {
        String::from_str(
            match self {
                ButtonColour::Default => "",
                ButtonColour::White => "is-white",
                ButtonColour::Black => "is-black",
                ButtonColour::Light => "is-light",
                ButtonColour::Dark => "is-dark",
                ButtonColour::Text => "is-text",
                ButtonColour::Primary => "is-primary",
                ButtonColour::Link => "is-link",
                ButtonColour::Info => "is-info",
                ButtonColour::Success => "is-success",
                ButtonColour::Warning => "is-warning",
                ButtonColour::Danger => "is-danger",
                ButtonColour::GhostStyle => "is-ghost",
            },
        )
    }
}

} // verus!
