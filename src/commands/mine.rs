use vstd::prelude::*;
use crate::commands::{choice_pairs, option_sig, plain_option, Choice, OptionKind, OptionSchema, RegisteredCommand};
use crate::coordinates::{CommandOption, Coordinates, CoordinatesView, Dimension, OptionValue, spec_coordinates_of};
use crate::response::{EmbedField, FieldView, Response, ResponseView};
use crate::store::{has_key, store_insert, EntryView, State};
use crate::text::{append_int, int_text};

verus! {

/// Picture linked from prompts and from places that carry an image.
pub open spec fn image_url() -> Seq<char> {
    "https://pbs.twimg.com/media/ETv8NxFXQAcQcfY?format=jpg&name=large"@
}

/// `X: **x** Y: **y** Z: **z**`
pub open spec fn position_text(c: CoordinatesView) -> Seq<char> {
    "X: **"@ + int_text(c.x as int) + "** Y: **"@ + int_text(c.y as int) + "** Z: **"@
        + int_text(c.z as int) + "**"@
}

/// The body of a place's field in a listing: its position (as a link when the
/// place has an image), then its dimension on a line of its own.
pub open spec fn field_text(c: CoordinatesView) -> Seq<char> {
    let pos = if c.image is Some {
        "["@ + position_text(c) + "]("@ + image_url() + ")"@
    } else {
        position_text(c)
    };
    pos + "\n"@ + c.dimension.spec_label()
}

pub open spec fn listing_of(es: Seq<EntryView>) -> Seq<FieldView> {
    es.map_values(|e: EntryView| (e.1.name, field_text(e.1), true))
}

/// Text of the prompt that proposes creating `c`.
pub open spec fn creation_text(c: CoordinatesView) -> Seq<char> {
    "Voce deseja criar a coordenada\n"@ + c.name + ":\n\tX: "@ + int_text(c.x as int)
        + "\n\tY: "@ + int_text(c.y as int) + "\n\tZ: "@ + int_text(c.z as int) + "\n\t"@
        + c.dimension.spec_label()
}

/// Text of the prompt that asks whether to overwrite `c`.
pub open spec fn overwrite_text(c: CoordinatesView) -> Seq<char> {
    "A coordenada "@ + c.name + " já existe, deseja sobrescrever?"@
}

/// The options of the subcommand given first, if the first option is one.
pub open spec fn first_subcommand(opts: Seq<CommandOption>) -> Option<Seq<CommandOption>> {
    if opts.len() > 0 {
        match opts[0].value {
            OptionValue::SubCommand(sub) => Some(sub@),
            _ => None,
        }
    } else {
        None
    }
}

/// The answer to the `mine` command: a complete creation request gets the
/// overwrite prompt when its name is a stored key and the creation prompt
/// otherwise; anything else lists the store.
pub open spec fn mine_response(opts: Seq<CommandOption>, es: Seq<EntryView>) -> ResponseView {
    let listing = ResponseView::Listing(listing_of(es));
    match first_subcommand(opts) {
        Some(sub) => match spec_coordinates_of(sub) {
            Some(c) => if has_key(es, c.name) {
                ResponseView::OverwritePrompt(c, overwrite_text(c))
            } else {
                ResponseView::CreatePrompt(c, creation_text(c))
            },
            None => listing,
        },
        None => listing,
    }
}

pub fn position_string(c: &Coordinates) -> (r: String)
    ensures
        r@ == position_text(c@),
{
    let mut s = String::new();
    s.append("X: **");
    append_int(&mut s, c.x);
    s.append("** Y: **");
    append_int(&mut s, c.y);
    s.append("** Z: **");
    append_int(&mut s, c.z);
    s.append("**");
    proof {
        assert(s@ =~= position_text(c@));
    }
    s
}

pub fn field_string(c: &Coordinates) -> (r: String)
    ensures
        r@ == field_text(c@),
{
    let pos = position_string(c);
    let mut s = String::new();
    if c.image.is_some() {
        s.append("[");
        s.append(pos.as_str());
        s.append("](");
        s.append("https://pbs.twimg.com/media/ETv8NxFXQAcQcfY?format=jpg&name=large");
        s.append(")");
    } else {
        s.append(pos.as_str());
    }
    s.append("\n");
    s.append(c.dimension.label());
    proof {
        assert(s@ =~= field_text(c@));
    }
    s
}

pub fn creation_string(c: &Coordinates) -> (r: String)
    ensures
        r@ == creation_text(c@),
{
    let mut s = String::new();
    s.append("Voce deseja criar a coordenada\n");
    s.append(c.name.as_str());
    s.append(":\n\tX: ");
    append_int(&mut s, c.x);
    s.append("\n\tY: ");
    append_int(&mut s, c.y);
    s.append("\n\tZ: ");
    append_int(&mut s, c.z);
    s.append("\n\t");
    s.append(c.dimension.label());
    proof {
        assert(s@ =~= creation_text(c@));
    }
    s
}

/// Answers a creation request for a place whose name is already stored.
pub fn coordinate_already_exisits(coordinate: Coordinates) -> (r: Response)
    ensures
        r@ == ResponseView::OverwritePrompt(coordinate@, overwrite_text(coordinate@)),
{
    let mut s = String::new();
    s.append("A coordenada ");
    s.append(coordinate.name.as_str());
    s.append(" já existe, deseja sobrescrever?");
    proof {
        assert(s@ =~= overwrite_text(coordinate@));
    }
    Response::OverwritePrompt { place: coordinate, text: s }
}

/// Lists every stored place, in store order, one inline field each.
pub fn show_coordinates(state: &State) -> (r: Response)
    ensures
        r@ == ResponseView::Listing(listing_of(state@)),
{
    let mut fields: Vec<EmbedField> = Vec::new();
    let mut i: usize = 0;
    while i < state.len()
        invariant
            i <= state@.len(),
            fields@.len() == i,
            fields@.map_values(|f: EmbedField| f@) =~= listing_of(state@).subrange(0, i as int),
        decreases state@.len() - i,
    {
        let e = state.entry(i);
        let field = EmbedField { name: e.place.name.clone(), value: field_string(&e.place), inline: true };
        assert(field@ == listing_of(state@)[i as int]);
        let ghost prev = fields@;
        fields.push(field);
        proof {
            let cur = fields@.map_values(|f: EmbedField| f@);
            let want = listing_of(state@).subrange(0, i + 1);
            assert forall|j: int| 0 <= j < i + 1 implies cur[j] == want[j] by {
                if j < i {
                    assert(fields@[j] == prev[j]);
                    assert(prev.map_values(|f: EmbedField| f@)[j] == listing_of(state@).subrange(0, i as int)[j]);
                }
            }
            assert(cur =~= want);
        }
        i = i + 1;
    }
    assert(listing_of(state@).subrange(0, state@.len() as int) =~= listing_of(state@));
    Response::Listing(fields)
}

/// Answers the `mine` command over the current store; the store is not changed.
pub fn run(options: &Vec<CommandOption>, state: &State) -> (r: Response)
    ensures
        r@ == mine_response(options@, state@),
{
    if options.len() > 0 {
        match &options[0].value {
            OptionValue::SubCommand(sub) => {
                match Coordinates::try_from(sub) {
                    Ok(c) => {
                        if state.contains_key(c.name.as_str()) {
                            coordinate_already_exisits(c)
                        } else {
                            let text = creation_string(&c);
                            Response::CreatePrompt { place: c, text }
                        }
                    },
                    Err(_) => show_coordinates(state),
                }
            },
            _ => show_coordinates(state),
        }
    } else {
        show_coordinates(state)
    }
}

} // verus!

verus! {

/// Where a proposed creation ends once the user has pressed a button.
#[derive(Clone, Copy, Debug, PartialEq, Eq, Structural)]
pub enum CreationOutcome {
    /// Accepted, and the name was free: the place is stored.
    Confirmed,
    /// Refused while the name was free: nothing is stored.
    Rejected,
    /// Accepted while the name was taken: the new place replaces the old one.
    Overwritten,
    /// Refused while the name was taken: the stored place is kept.
    Unchanged,
}

pub open spec fn outcome_of(accepted: bool, taken: bool) -> CreationOutcome {
    if accepted {
        if taken { CreationOutcome::Overwritten } else { CreationOutcome::Confirmed }
    } else {
        if taken { CreationOutcome::Unchanged } else { CreationOutcome::Rejected }
    }
}

/// Settles a proposed place by the user's choice: an accepted place is stored
/// under its name, a refused one leaves the store as it was.
pub fn resolve_proposal(state: &mut State, place: Coordinates, accepted: bool) -> (r: CreationOutcome)
    ensures
        r == outcome_of(accepted, has_key(old(state)@, place@.name)),
        accepted ==> final(state)@ == store_insert(old(state)@, place@.name, place@),
        !accepted ==> final(state)@ == old(state)@,
{
    let taken = state.contains_key(place.name.as_str());
    if accepted {
        let key = place.name.clone();
        state.insert(key, place);
        if taken { CreationOutcome::Overwritten } else { CreationOutcome::Confirmed }
    } else {
        if taken { CreationOutcome::Unchanged } else { CreationOutcome::Rejected }
    }
}

} // verus!

verus! {

/// Declares the `mine` command: the `criar` subcommand with the fields of a
/// place, and the `coordenadas` subcommand that lists the store.
pub fn register() -> (r: RegisteredCommand)
    ensures
        r.name@ == "mine"@,
        r.description@ == "A mine command"@,
        r.options@.map_values(|o: OptionSchema| option_sig(o)) == seq![
            (OptionKind::SubCommand, "criar"@, "Coordenadas do Minecraft"@, false),
            (OptionKind::SubCommand, "coordenadas"@, "Coordenadas do Minecraft"@, false),
        ],
        r.options@[0].choices@.len() == 0,
        r.options@[1].choices@.len() == 0,
        r.options@[0].sub_options@.map_values(|o: OptionSchema| option_sig(o)) == seq![
            (OptionKind::Text, "nome"@, "Nome do lugar"@, true),
            (OptionKind::Integer, "x"@, "Coordenada X"@, true),
            (OptionKind::Integer, "y"@, "Coordenada Y"@, true),
            (OptionKind::Integer, "z"@, "Coordenada Z"@, true),
            (OptionKind::Text, "dimensao"@, "Dimensao"@, true),
            (OptionKind::Attachment, "imagem"@, "Print do lugar"@, false),
        ],
        forall|i: int| 0 <= i < 6 ==> (#[trigger] r.options@[0].sub_options@[i]).sub_options@.len() == 0,
        forall|i: int| 0 <= i < 6 && i != 4 ==> (#[trigger] r.options@[0].sub_options@[i]).choices@.len() == 0,
        choice_pairs(r.options@[0].sub_options@[4]) == seq![
            ("Overworld"@, "overworld"@),
            ("Nether"@, "nether"@),
            ("End"@, "end"@),
        ],
        r.options@[1].sub_options@.len() == 0,
{
    let mut dimension = plain_option(OptionKind::Text, "dimensao", "Dimensao", true);
    dimension.choices = vec![
        Choice { label: "Overworld".to_owned(), value: "overworld".to_owned() },
        Choice { label: "Nether".to_owned(), value: "nether".to_owned() },
        Choice { label: "End".to_owned(), value: "end".to_owned() },
    ];
    let mut create = plain_option(OptionKind::SubCommand, "criar", "Coordenadas do Minecraft", false);
    create.sub_options = vec![
        plain_option(OptionKind::Text, "nome", "Nome do lugar", true),
        plain_option(OptionKind::Integer, "x", "Coordenada X", true),
        plain_option(OptionKind::Integer, "y", "Coordenada Y", true),
        plain_option(OptionKind::Integer, "z", "Coordenada Z", true),
        dimension,
        plain_option(OptionKind::Attachment, "imagem", "Print do lugar", false),
    ];
    let list = plain_option(OptionKind::SubCommand, "coordenadas", "Coordenadas do Minecraft", false);
    let r = RegisteredCommand {
        name: "mine".to_owned(),
        description: "A mine command".to_owned(),
        options: vec![create, list],
    };
    assert(r.options@.map_values(|o: OptionSchema| option_sig(o)) =~= seq![
        (OptionKind::SubCommand, "criar"@, "Coordenadas do Minecraft"@, false),
        (OptionKind::SubCommand, "coordenadas"@, "Coordenadas do Minecraft"@, false),
    ]);
    assert(r.options@[0].sub_options@.map_values(|o: OptionSchema| option_sig(o)) =~= seq![
        (OptionKind::Text, "nome"@, "Nome do lugar"@, true),
        (OptionKind::Integer, "x"@, "Coordenada X"@, true),
        (OptionKind::Integer, "y"@, "Coordenada Y"@, true),
        (OptionKind::Integer, "z"@, "Coordenada Z"@, true),
        (OptionKind::Text, "dimensao"@, "Dimensao"@, true),
        (OptionKind::Attachment, "imagem"@, "Print do lugar"@, false),
    ]);
    assert(choice_pairs(r.options@[0].sub_options@[4]) =~= seq![
        ("Overworld"@, "overworld"@),
        ("Nether"@, "nether"@),
        ("End"@, "end"@),
    ]);
    r
}

/// Every choice that `register` offers for the dimension is one that a
/// creation request reads back as a dimension.
pub proof fn lemma_dimension_choices_parse(v: Seq<char>)
    requires
        seq!["overworld"@, "nether"@, "end"@].contains(v),
    ensures
        Dimension::spec_from_choice(v) is Some,
{
    assert(seq!["overworld"@, "nether"@, "end"@][0] == "overworld"@);
    assert(seq!["overworld"@, "nether"@, "end"@][1] == "nether"@);
    assert(seq!["overworld"@, "nether"@, "end"@][2] == "end"@);
}

} // verus!

verus! {

/// A listing has exactly one field per stored entry, in store order: the
/// place's name over its position and dimension.
pub proof fn lemma_listing_one_field_per_entry(es: Seq<EntryView>)
    ensures
        listing_of(es).len() == es.len(),
        forall|i: int| 0 <= i < es.len() ==> #[trigger] listing_of(es)[i] == (es[i].1.name, field_text(es[i].1), true),
        es.len() == 0 ==> listing_of(es) == Seq::<FieldView>::empty(),
{
    if es.len() == 0 {
        assert(listing_of(es) =~= Seq::<FieldView>::empty());
    }
}

} // verus!
