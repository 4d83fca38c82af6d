use vstd::prelude::*;
use crate::commands::{default_command, fallback_text, mine, ping};
use crate::commands::mine::mine_response;
use crate::coordinates::{same_text, CommandOption};
use crate::response::{Response, ResponseView};
use crate::store::{EntryView, State};

verus! {

/// An invoked slash command: its name and its options in the order given.
#[derive(Debug)]
pub struct CommandPayload {
    pub name: String,
    pub options: Vec<CommandOption>,
}

/// A decoded inbound interaction.
#[derive(Debug)]
pub enum Interaction {
    Ping,
    Command(CommandPayload),
    Autocomplete,
    Component,
    Modal,
}

/// The type tag that the wire format gives each interaction.
#[derive(Clone, Copy, Debug, PartialEq, Eq, Structural)]
pub enum InteractionKind {
    Ping,
    Command,
    Component,
    Autocomplete,
    Modal,
}

impl InteractionKind {
    pub open spec fn spec_code(self) -> u8 {
        match self {
            InteractionKind::Ping => 1,
            InteractionKind::Command => 2,
            InteractionKind::Component => 3,
            InteractionKind::Autocomplete => 4,
            InteractionKind::Modal => 5,
        }
    }

    pub open spec fn spec_from_code(n: u8) -> Option<InteractionKind> {
        if n == 1 {
            Some(InteractionKind::Ping)
        } else if n == 2 {
            Some(InteractionKind::Command)
        } else if n == 3 {
            Some(InteractionKind::Component)
        } else if n == 4 {
            Some(InteractionKind::Autocomplete)
        } else if n == 5 {
            Some(InteractionKind::Modal)
        } else {
            None
        }
    }

    /// The wire tag of this kind.
    pub fn code(&self) -> (r: u8)
        ensures
            r == self.spec_code(),
    {
        match self {
            InteractionKind::Ping => 1,
            InteractionKind::Command => 2,
            InteractionKind::Component => 3,
            InteractionKind::Autocomplete => 4,
            InteractionKind::Modal => 5,
        }
    }

    /// Reads a wire tag; `None` for a tag that names no known kind.
    pub fn from_code(n: u8) -> (r: Option<InteractionKind>)
        ensures
            r == InteractionKind::spec_from_code(n),
    {
        if n == 1 {
            Some(InteractionKind::Ping)
        } else if n == 2 {
            Some(InteractionKind::Command)
        } else if n == 3 {
            Some(InteractionKind::Component)
        } else if n == 4 {
            Some(InteractionKind::Autocomplete)
        } else if n == 5 {
            Some(InteractionKind::Modal)
        } else {
            None
        }
    }
}

/// Reading back the tag written for a kind gives that kind, and a tag that reads
/// as a kind is the one written for it.
pub proof fn lemma_kind_code_round_trip(k: InteractionKind, n: u8)
    ensures
        InteractionKind::spec_from_code(k.spec_code()) == Some(k),
        InteractionKind::spec_from_code(n) is Some ==> InteractionKind::spec_from_code(n)->0.spec_code() == n,
{
}

impl Interaction {
    pub open spec fn spec_kind(&self) -> InteractionKind {
        match self {
            Interaction::Ping => InteractionKind::Ping,
            Interaction::Command(_) => InteractionKind::Command,
            Interaction::Autocomplete => InteractionKind::Autocomplete,
            Interaction::Component => InteractionKind::Component,
            Interaction::Modal => InteractionKind::Modal,
        }
    }

    pub fn kind(&self) -> (r: InteractionKind)
        ensures
            r == self.spec_kind(),
    {
        match self {
            Interaction::Ping => InteractionKind::Ping,
            Interaction::Command(_) => InteractionKind::Command,
            Interaction::Autocomplete => InteractionKind::Autocomplete,
            Interaction::Component => InteractionKind::Component,
            Interaction::Modal => InteractionKind::Modal,
        }
    }
}

/// The answer to a command named `name` with options `opts`.
pub open spec fn command_response(name: Seq<char>, opts: Seq<CommandOption>, es: Seq<EntryView>) -> ResponseView {
    if name == "ping"@ {
        ResponseView::Message("Pong!"@)
    } else if name == "mine"@ {
        mine_response(opts, es)
    } else {
        ResponseView::Message(fallback_text())
    }
}

/// The answer to an interaction: a ping gets `Pong` without any lookup, a
/// command goes to its handler by name, and every other kind is acknowledged.
pub open spec fn dispatch_response(i: Interaction, es: Seq<EntryView>) -> ResponseView {
    match i {
        Interaction::Ping => ResponseView::Pong,
        Interaction::Command(p) => command_response(p.name@, p.options@, es),
        _ => ResponseView::Acknowledge,
    }
}

/// Answers one interaction; the store is only read.
pub fn dispatch(interaction: &Interaction, state: &State) -> (r: Response)
    ensures
        r@ == dispatch_response(*interaction, state@),
{
    match interaction {
        Interaction::Ping => Response::Pong,
        Interaction::Command(payload) => {
            if same_text(payload.name.as_str(), "ping") {
                ping::run()
            } else if same_text(payload.name.as_str(), "mine") {
                mine::run(&payload.options, state)
            } else {
                default_command()
            }
        },
        _ => Response::Acknowledge,
    }
}

/// A ping is answered with `Pong` whatever the store holds.
pub proof fn lemma_ping_is_pong(es: Seq<EntryView>)
    ensures
        dispatch_response(Interaction::Ping, es) == ResponseView::Pong,
{
}

} // verus!
