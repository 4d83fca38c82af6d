use vstd::prelude::*;
use crate::coordinates::{Coordinates, CoordinatesView};

verus! {

/// One titled block of a listing.
#[derive(Debug)]
pub struct EmbedField {
    pub name: String,
    pub value: String,
    pub inline: bool,
}

pub type FieldView = (Seq<char>, Seq<char>, bool);

impl View for EmbedField {
    type V = FieldView;

    open spec fn view(&self) -> FieldView {
        (self.name@, self.value@, self.inline)
    }
}

/// What the bot answers to one interaction.
#[derive(Debug)]
pub enum Response {
    /// Acknowledges a ping from the platform.
    Pong,
    /// A plain text message.
    Message(String),
    /// Asks the user to confirm creating `place`; offers accept and refuse buttons.
    CreatePrompt { place: Coordinates, text: String },
    /// Tells the user that `place`'s name is taken and asks whether to overwrite it.
    OverwritePrompt { place: Coordinates, text: String },
    /// A read-only summary of the stored places, one field each.
    Listing(Vec<EmbedField>),
    /// A bare acknowledgement for interactions that have no handler yet.
    Acknowledge,
}

pub enum ResponseView {
    Pong,
    Message(Seq<char>),
    CreatePrompt(CoordinatesView, Seq<char>),
    OverwritePrompt(CoordinatesView, Seq<char>),
    Listing(Seq<FieldView>),
    Acknowledge,
}

impl View for Response {
    type V = ResponseView;

    open spec fn view(&self) -> ResponseView {
        match self {
            Response::Pong => ResponseView::Pong,
            Response::Message(s) => ResponseView::Message(s@),
            Response::CreatePrompt { place, text } => ResponseView::CreatePrompt(place@, text@),
            Response::OverwritePrompt { place, text } => ResponseView::OverwritePrompt(place@, text@),
            Response::Listing(fields) => ResponseView::Listing(fields@.map_values(|f: EmbedField| f@)),
            Response::Acknowledge => ResponseView::Acknowledge,
        }
    }
}

} // verus!
