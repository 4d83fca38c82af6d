use vstd::prelude::*;
use crate::commands::RegisteredCommand;
use crate::response::{Response, ResponseView};

verus! {

/// Answers the `ping` command.
pub fn run() -> (r: Response)
    ensures
        r@ == ResponseView::Message("Pong!"@),
{
    Response::Message("Pong!".to_owned())
}

/// Declares the `ping` command, which takes no options.
pub fn register() -> (r: RegisteredCommand)
    ensures
        r.name@ == "ping"@,
        r.description@ == "A ping command"@,
        r.options@.len() == 0,
{
    RegisteredCommand {
        name: "ping".to_owned(),
        description: "A ping command".to_owned(),
        options: Vec::new(),
    }
}

} // verus!
