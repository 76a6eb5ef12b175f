//! The notes that stand above a table.

use vstd::prelude::*;
use crate::configuration::Configuration;
use crate::implementations::util::Implementation;

verus! {

/// The colour of a note.
#[derive(Clone, Copy, Debug, PartialEq, Eq, Structural)]
pub enum MessageColour {
    Default,
    White,
    Black,
    Light,
    Dark,
    Text,
    Primary,
    Link,
    Info,
    Success,
    Warning,
    Danger,
}

impl MessageColour {
    /// The style class of a colour; the default colour has none.
    pub open spec fn spec_class(self) -> Seq<char> {
        match self {
            MessageColour::Default => ""@,
            MessageColour::White => "is-white"@,
            MessageColour::Black => "is-black"@,
            MessageColour::Light => "is-light"@,
            MessageColour::Dark => "is-dark"@,
            MessageColour::Text => "is-text"@,
            MessageColour::Primary => "is-primary"@,
            MessageColour::Link => "is-link"@,
            MessageColour::Info => "is-info"@,
            MessageColour::Success => "is-success"@,
            MessageColour::Warning => "is-warning"@,
            MessageColour::Danger => "is-danger"@,
        }
    }

    /// The style class of a colour.
    pub fn to_string(&self) -> (class: String)
        ensures
            class@ == self.spec_class(),
    {
        String::from_str(
            match self {
                MessageColour::Default => "",
                MessageColour::White => "is-white",
                MessageColour::Black => "is-black",
                MessageColour::Light => "is-light",
                MessageColour::Dark => "is-dark",
                MessageColour::Text => "is-text",
                MessageColour::Primary => "is-primary",
                MessageColour::Link => "is-link",
                MessageColour::Info => "is-info",
                MessageColour::Success => "is-success",
                MessageColour::Warning => "is-warning",
                MessageColour::Danger => "is-danger",
            },
        )
    }
}

/// A note: its colour and its texts.
#[derive(Debug, PartialEq, Eq)]
pub struct MessageProperties {
    pub colour: MessageColour,
    pub header: Option<String>,
    pub body: Option<String>,
}

/// A note with its texts as sequences of characters.
pub struct MessageModel {
    pub colour: MessageColour,
    pub header: Option<Seq<char>>,
    pub body: Option<Seq<char>>,
}

impl View for MessageProperties {
    type V = MessageModel;

    open spec fn view(&self) -> MessageModel {
        MessageModel {
            colour: self.colour,
            header: match self.header {
                Some(header) => Some(header@),
                None => None,
            },
            body: match self.body {
                Some(body) => Some(body@),
                None => None,
            },
        }
    }
}

impl DeepView for MessageProperties {
    type V = MessageModel;

    open spec fn deep_view(&self) -> MessageModel {
        self@
    }
}

/// A note that has a text and no header.
pub open spec fn spec_note(colour: MessageColour, body: Seq<char>) -> MessageModel {
    MessageModel { colour, header: None, body: Some(body) }
}

/// What a shop's table shows.
pub open spec fn spec_description(implementation: Implementation) -> Seq<char> {
    match implementation {
        Implementation::TravelingCart => {
            "All stock available from the traveling cart (and night market boat)."@
        },
        Implementation::Krobus => "Random stock from Krobus."@,
        Implementation::Sandy => "Random stock from Sandy."@,
        Implementation::Joja => "Random stock from Joja."@,
        Implementation::Geodes => "Items from geodes."@,
    }
}

/// A warning behind a row of notes where a hint is missing.
pub open spec fn spec_warn(notes: Seq<MessageModel>, missing: bool, body: Seq<char>) -> Seq<
    MessageModel,
> {
    if missing {
        notes.push(spec_note(MessageColour::Warning, body))
    } else {
        notes
    }
}

/// The notes above a shop's table: what the table shows, and a warning for each hint that
/// the shop reads and the configuration lacks.
pub open spec fn spec_messages(implementation: Implementation, configuration: Configuration)
    -> Seq<MessageModel> {
    let description = seq![spec_note(MessageColour::Info, spec_description(implementation))];
    if implementation == Implementation::Geodes {
        spec_warn(
            spec_warn(
                spec_warn(
                    spec_warn(
                        description,
                        configuration.geodes_cracked is None,
                        "Use the geodes cracked optional configuration parameter to always display from there."@,
                    ),
                    configuration.mine_level is None,
                    "The deepest mine level you have reached can be specified using the optional configuration parameter. We assume 120 by default."@,
                ),
                configuration.qis_crop is None,
                "Whether you are on a Qi's crop quest can be specified using the optional configuration parameter. We assume not by default."@,
            ),
            configuration.golden_helmet is None,
            "Whether you have received the golden helmet can be specified using the optional configuration parameter. We assume so by default."@,
        )
    } else {
        spec_warn(
            description,
            configuration.date is None,
            "Use the date optional configuration parameter to always display from that date."@,
        )
    }
}

fn note(colour: MessageColour, body: &str) -> (message: MessageProperties)
    ensures
        message@ == spec_note(colour, body@),
{
    MessageProperties { colour, header: None, body: Some(String::from_str(body)) }
}

fn warn(messages: &mut Vec<MessageProperties>, missing: bool, body: &str)
    ensures
        final(messages).deep_view() == spec_warn(old(messages).deep_view(), missing, body@),
{
    if missing {
        messages.push(note(MessageColour::Warning, body));
    }
}

/// The notes above a shop's table.
pub fn get_messages(implementation: Implementation, configuration: &Configuration) -> (messages:
    Vec<MessageProperties>)
    ensures
        messages.deep_view() == spec_messages(implementation, *configuration),
{
    let mut messages: Vec<MessageProperties> = Vec::new();
    messages.push(
        note(
            MessageColour::Info,
            match implementation {
                Implementation::TravelingCart => {
                    "All stock available from the traveling cart (and night market boat)."
                },
                Implementation::Krobus => "Random stock from Krobus.",
                Implementation::Sandy => "Random stock from Sandy.",
                Implementation::Joja => "Random stock from Joja.",
                Implementation::Geodes => "Items from geodes.",
            },
        ),
    );
    match implementation {
        Implementation::Geodes => {
            warn(
                &mut messages,
                configuration.geodes_cracked.is_none(),
                "Use the geodes cracked optional configuration parameter to always display from there.",
            );
            warn(
                &mut messages,
                configuration.mine_level.is_none(),
                "The deepest mine level you have reached can be specified using the optional configuration parameter. We assume 120 by default.",
            );
            warn(
                &mut messages,
                configuration.qis_crop.is_none(),
                "Whether you are on a Qi's crop quest can be specified using the optional configuration parameter. We assume not by default.",
            );
            warn(
                &mut messages,
                configuration.golden_helmet.is_none(),
                "Whether you have received the golden helmet can be specified using the optional configuration parameter. We assume so by default.",
            );
        },
        _ => {
            warn(
                &mut messages,
                configuration.date.is_none(),
                "Use the date optional configuration parameter to always display from that date.",
            );
        },
    }
    messages
}

} // verus!
