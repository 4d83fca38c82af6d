use vstd::prelude::*;
use crate::response::{Response, ResponseView};

pub mod mine;
pub mod ping;

verus! {

/// The fixed answer to a command that has no handler.
pub open spec fn fallback_text() -> Seq<char> {
    "Escreve direito filho da puta"@
}

/// Answers a command whose name is not registered: never an error.
pub fn default_command() -> (r: Response)
    ensures
        r@ == ResponseView::Message(fallback_text()),
{
    Response::Message("Escreve direito filho da puta".to_owned())
}

} // verus!

verus! {

/// The type of a declared command option.
#[derive(Clone, Copy, Debug, PartialEq, Eq, Structural)]
pub enum OptionKind {
    SubCommand,
    Text,
    Integer,
    Attachment,
}

/// One value a text option may take: what users see and what the bot receives.
#[derive(Debug)]
pub struct Choice {
    pub label: String,
    pub value: String,
}

/// The declared shape of one command option.
#[derive(Debug)]
pub struct OptionSchema {
    pub kind: OptionKind,
    pub name: String,
    pub description: String,
    pub required: bool,
    pub choices: Vec<Choice>,
    pub sub_options: Vec<OptionSchema>,
}

/// A slash command as declared to the platform at startup.
#[derive(Debug)]
pub struct RegisteredCommand {
    pub name: String,
    pub description: String,
    pub options: Vec<OptionSchema>,
}

/// Kind, name, description and required flag of a declared option.
pub open spec fn option_sig(o: OptionSchema) -> (OptionKind, Seq<char>, Seq<char>, bool) {
    (o.kind, o.name@, o.description@, o.required)
}

/// The choices of a declared option, as (label, value) pairs.
pub open spec fn choice_pairs(o: OptionSchema) -> Seq<(Seq<char>, Seq<char>)> {
    o.choices@.map_values(|c: Choice| (c.label@, c.value@))
}

/// A plain option with no choices and no sub-options.
pub fn plain_option(kind: OptionKind, name: &str, description: &str, required: bool) -> (r: OptionSchema)
    ensures
        option_sig(r) == (kind, name@, description@, required),
        r.choices@.len() == 0,
        r.sub_options@.len() == 0,
{
    OptionSchema {
        kind,
        name: name.to_owned(),
        description: description.to_owned(),
        required,
        choices: Vec::new(),
        sub_options: Vec::new(),
    }
}

} // verus!
