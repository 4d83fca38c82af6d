use minebot::commands::mine::{self, CreationOutcome};
use minebot::commands::{default_command, ping, OptionKind};
use minebot::coordinates::{CommandOption, Coordinates, Dimension, OptionValue};
use minebot::gateway::{handle_request, signed_message, status_of, Rejection};
use minebot::interaction::{dispatch, CommandPayload, Interaction, InteractionKind};
use minebot::response::Response;
use minebot::store::State;
use minebot::text::{int_to_text, user_display_format};

fn opt(name: &str, value: OptionValue) -> CommandOption {
    CommandOption { name: name.to_string(), value }
}

fn creation(name: &str, x: i64, y: i64, z: i64, dim: &str) -> Vec<CommandOption> {
    vec![opt(
        "criar",
        OptionValue::SubCommand(vec![
            opt("nome", OptionValue::Text(name.to_string())),
            opt("x", OptionValue::Integer(x)),
            opt("y", OptionValue::Integer(y)),
            opt("z", OptionValue::Integer(z)),
            opt("dimensao", OptionValue::Text(dim.to_string())),
        ]),
    )]
}

fn command(name: &str, options: Vec<CommandOption>) -> Interaction {
    Interaction::Command(CommandPayload { name: name.to_string(), options })
}

fn place(name: &str, x: i64, y: i64, z: i64, d: Dimension, image: Option<u64>) -> Coordinates {
    Coordinates::new(name.to_string(), x, y, z, d, image)
}

#[test]
fn ping_is_pong_whatever_the_store() {
    assert!(matches!(dispatch(&Interaction::Ping, &State::empty()), Response::Pong));
    assert!(matches!(dispatch(&Interaction::Ping, &State::new()), Response::Pong));
}

#[test]
fn ping_command_answers_pong_text() {
    match dispatch(&command("ping", vec![]), &State::new()) {
        Response::Message(s) => assert_eq!(s, "Pong!"),
        other => panic!("unexpected {:?}", other),
    }
    assert!(matches!(ping::run(), Response::Message(ref s) if s == "Pong!"));
}

#[test]
fn unknown_command_gets_fallback() {
    let r = dispatch(&command("dance", vec![]), &State::new());
    match (r, default_command()) {
        (Response::Message(a), Response::Message(b)) => {
            assert_eq!(a, b);
            assert_eq!(a, "Escreve direito filho da puta");
        }
        other => panic!("unexpected {:?}", other),
    }
}

#[test]
fn other_kinds_are_acknowledged() {
    for i in [Interaction::Autocomplete, Interaction::Component, Interaction::Modal] {
        assert!(matches!(dispatch(&i, &State::new()), Response::Acknowledge));
    }
}

#[test]
fn creating_existing_name_asks_to_overwrite() {
    let r = dispatch(&command("mine", creation("spawn", 1, 2, 3, "nether")), &State::new());
    match r {
        Response::OverwritePrompt { place, text } => {
            assert_eq!(place.name, "spawn");
            assert_eq!(text, "A coordenada spawn já existe, deseja sobrescrever?");
        }
        other => panic!("unexpected {:?}", other),
    }
}

#[test]
fn creating_free_name_proposes_with_echoed_fields() {
    let r = dispatch(&command("mine", creation("Base1", 10, 64, -20, "overworld")), &State::new());
    match r {
        Response::CreatePrompt { place, text } => {
            assert_eq!(place.name, "Base1");
            assert_eq!((place.x, place.y, place.z), (10, 64, -20));
            assert_eq!(place.dimension, Dimension::Overworld);
            assert_eq!(place.image, None);
            assert_eq!(text, "Voce deseja criar a coordenada\nBase1:\n\tX: 10\n\tY: 64\n\tZ: -20\n\tOverworld");
        }
        other => panic!("unexpected {:?}", other),
    }
}

#[test]
fn proposing_does_not_store() {
    let state = State::new();
    let _ = dispatch(&command("mine", creation("Base1", 10, 64, -20, "overworld")), &state);
    assert_eq!(state.len(), 3);
    assert!(!state.contains_key("Base1"));
}

#[test]
fn listing_empty_store_has_no_fields() {
    match dispatch(&command("mine", vec![]), &State::empty()) {
        Response::Listing(fields) => assert!(fields.is_empty()),
        other => panic!("unexpected {:?}", other),
    }
}

#[test]
fn listing_three_entries_gives_three_fields() {
    let mut state = State::empty();
    state.insert("a".to_string(), place("A", 1, 2, 3, Dimension::Overworld, None));
    state.insert("b".to_string(), place("B", -4, 5, -6, Dimension::Nether, None));
    state.insert("c".to_string(), place("C", 7, 8, 9, Dimension::End, None));
    let listing = vec![opt("coordenadas", OptionValue::SubCommand(vec![]))];
    match dispatch(&command("mine", listing), &state) {
        Response::Listing(fields) => {
            assert_eq!(fields.len(), 3);
            assert_eq!(fields[0].name, "A");
            assert_eq!(fields[0].value, "X: **1** Y: **2** Z: **3**\nOverworld");
            assert_eq!(fields[1].name, "B");
            assert_eq!(fields[1].value, "X: **-4** Y: **5** Z: **-6**\nNether");
            assert_eq!(fields[2].name, "C");
            assert_eq!(fields[2].value, "X: **7** Y: **8** Z: **9**\nEnd");
            assert!(fields.iter().all(|f| f.inline));
        }
        other => panic!("unexpected {:?}", other),
    }
}

#[test]
fn listing_links_position_when_image_present() {
    let mut state = State::empty();
    state.insert("p".to_string(), place("P", 0, 70, 0, Dimension::End, Some(9)));
    match mine::show_coordinates(&state) {
        Response::Listing(fields) => assert_eq!(
            fields[0].value,
            "[X: **0** Y: **70** Z: **0**](https://pbs.twimg.com/media/ETv8NxFXQAcQcfY?format=jpg&name=large)\nEnd"
        ),
        other => panic!("unexpected {:?}", other),
    }
}

#[test]
fn incomplete_creation_falls_back_to_listing() {
    let opts = vec![opt(
        "criar",
        OptionValue::SubCommand(vec![
            opt("nome", OptionValue::Text("Base1".to_string())),
            opt("x", OptionValue::Integer(1)),
        ]),
    )];
    match dispatch(&command("mine", opts), &State::new()) {
        Response::Listing(fields) => assert_eq!(fields.len(), 3),
        other => panic!("unexpected {:?}", other),
    }
}

#[test]
fn unknown_dimension_is_rejected() {
    let sub = match creation("Base1", 1, 2, 3, "moon").remove(0).value {
        OptionValue::SubCommand(s) => s,
        _ => unreachable!(),
    };
    assert!(Coordinates::try_from(&sub).is_err());
}

#[test]
fn wrong_option_type_is_rejected() {
    let sub = vec![
        opt("nome", OptionValue::Text("Base1".to_string())),
        opt("x", OptionValue::Text("1".to_string())),
        opt("y", OptionValue::Integer(2)),
        opt("z", OptionValue::Integer(3)),
        opt("dimensao", OptionValue::Text("end".to_string())),
    ];
    assert!(Coordinates::try_from(&sub).is_err());
}

#[test]
fn options_read_with_image_and_first_of_each_name() {
    let sub = vec![
        opt("imagem", OptionValue::Attachment(77)),
        opt("dimensao", OptionValue::Text("nether".to_string())),
        opt("z", OptionValue::Integer(3)),
        opt("y", OptionValue::Integer(2)),
        opt("x", OptionValue::Integer(1)),
        opt("x", OptionValue::Integer(100)),
        opt("nome", OptionValue::Text("Forte".to_string())),
    ];
    let c = Coordinates::try_from(&sub).unwrap();
    assert_eq!(c.name, "Forte");
    assert_eq!((c.x, c.y, c.z), (1, 2, 3));
    assert_eq!(c.dimension, Dimension::Nether);
    assert_eq!(c.image, Some(77));
}

#[test]
fn dimension_choices_and_labels() {
    assert_eq!(Dimension::from_choice("overworld"), Some(Dimension::Overworld));
    assert_eq!(Dimension::from_choice("nether"), Some(Dimension::Nether));
    assert_eq!(Dimension::from_choice("end"), Some(Dimension::End));
    assert_eq!(Dimension::from_choice("Overworld"), None);
    assert_eq!(Dimension::Nether.label(), "Nether");
}

#[test]
fn two_creations_in_either_order_store_both_once() {
    for flip in [false, true] {
        let mut state = State::new();
        let a = place("Base1", 10, 64, -20, Dimension::Overworld, None);
        let b = place("Base2", 1, 2, 3, Dimension::End, None);
        let (first, second) = if flip { (b, a) } else { (a, b) };
        assert_eq!(mine::resolve_proposal(&mut state, first, true), CreationOutcome::Confirmed);
        assert_eq!(mine::resolve_proposal(&mut state, second, true), CreationOutcome::Confirmed);
        assert_eq!(state.len(), 5);
        assert_eq!(state.get("Base1").unwrap().x, 10);
        assert_eq!(state.get("Base2").unwrap().dimension, Dimension::End);
        let names: Vec<&str> = (0..state.len()).map(|i| state.entry(i).key.as_str()).collect();
        assert_eq!(names.iter().filter(|n| **n == "Base1").count(), 1);
        assert_eq!(names.iter().filter(|n| **n == "Base2").count(), 1);
    }
}

#[test]
fn resolving_proposals() {
    let mut state = State::new();
    let p = place("spawn", 5, 5, 5, Dimension::End, None);
    assert_eq!(mine::resolve_proposal(&mut state, p, false), CreationOutcome::Unchanged);
    assert_eq!(state.get("spawn").unwrap().name, "Spawn");
    let p = place("spawn", 5, 5, 5, Dimension::End, None);
    assert_eq!(mine::resolve_proposal(&mut state, p, true), CreationOutcome::Overwritten);
    assert_eq!(state.get("spawn").unwrap().x, 5);
    assert_eq!(state.len(), 3);
    let p = place("new", 0, 0, 0, Dimension::End, None);
    assert_eq!(mine::resolve_proposal(&mut state, p, false), CreationOutcome::Rejected);
    assert_eq!(state.len(), 3);
}

#[test]
fn seeded_store() {
    let s = State::new();
    assert_eq!(s.len(), 3);
    assert_eq!(s.get("spawn").unwrap().image, Some(1));
    assert_eq!(s.get("nether").unwrap().dimension, Dimension::Nether);
    assert_eq!(s.get("end").unwrap().name, "End");
    assert!(s.get("Spawn").is_none());
}

#[test]
fn gateway_statuses() {
    let ok = Some(Interaction::Ping);
    let st = State::new();
    let missing_ts = handle_request(true, false, true, &ok, &st);
    assert!(matches!(missing_ts, Err(Rejection::HeaderMissing)));
    assert_eq!(status_of(&missing_ts), 400);
    let bad_sig = handle_request(true, true, false, &ok, &st);
    assert!(matches!(bad_sig, Err(Rejection::VerificationFailed)));
    assert_eq!(status_of(&bad_sig), 401);
    let bad_body = handle_request(true, true, true, &None, &st);
    assert!(matches!(bad_body, Err(Rejection::DecodeFailed)));
    assert_eq!(status_of(&bad_body), 422);
    let good = handle_request(true, true, true, &ok, &st);
    assert!(matches!(good, Ok(Response::Pong)));
    assert_eq!(status_of(&good), 200);
    // an earlier stage decides even when later ones fail too
    assert_eq!(status_of(&handle_request(false, true, false, &None, &st)), 400);
    assert_eq!(status_of(&handle_request(true, true, false, &None, &st)), 401);
}

#[test]
fn signed_message_is_timestamp_then_body() {
    assert_eq!(signed_message(b"1700000000", b"{\"type\":1}"), b"1700000000{\"type\":1}".to_vec());
    assert_eq!(signed_message(b"", b""), Vec::<u8>::new());
}

#[test]
fn interaction_kind_codes_round_trip() {
    for k in [
        InteractionKind::Ping,
        InteractionKind::Command,
        InteractionKind::Component,
        InteractionKind::Autocomplete,
        InteractionKind::Modal,
    ] {
        assert_eq!(InteractionKind::from_code(k.code()), Some(k));
    }
    assert_eq!(InteractionKind::Ping.code(), 1);
    assert_eq!(InteractionKind::Modal.code(), 5);
    assert_eq!(InteractionKind::from_code(0), None);
    assert_eq!(InteractionKind::from_code(6), None);
    assert_eq!(command("x", vec![]).kind(), InteractionKind::Command);
}

#[test]
fn decimal_rendering() {
    assert_eq!(int_to_text(0), "0");
    assert_eq!(int_to_text(-20), "-20");
    assert_eq!(int_to_text(1234567890), "1234567890");
    assert_eq!(int_to_text(i64::MIN), "-9223372036854775808");
    assert_eq!(int_to_text(i64::MAX), "9223372036854775807");
}

#[test]
fn registered_commands() {
    assert_eq!(ping::register().name, "ping");
    let m = mine::register();
    assert_eq!(m.name, "mine");
    assert_eq!(m.options.len(), 2);
    let names: Vec<&str> = m.options[0].sub_options.iter().map(|o| o.name.as_str()).collect();
    assert_eq!(names, vec!["nome", "x", "y", "z", "dimensao", "imagem"]);
    assert_eq!(m.options[0].sub_options[5].kind, OptionKind::Attachment);
    for c in &m.options[0].sub_options[4].choices {
        assert!(Dimension::from_choice(&c.value).is_some());
    }
}

#[test]
fn user_display() {
    assert_eq!(user_display_format("minebot", 0), "minebot(0)");
    assert_eq!(user_display_format("bot", 18446744073709551615), "bot(18446744073709551615)");
}

#[test]
fn mine_declaration_is_fixed() {
    let m = mine::register();
    assert_eq!(m.description, "A mine command");
    assert_eq!(m.options[0].description, "Coordenadas do Minecraft");
    assert_eq!(m.options[1].name, "coordenadas");
    let descs: Vec<&str> = m.options[0].sub_options.iter().map(|o| o.description.as_str()).collect();
    assert_eq!(descs, vec!["Nome do lugar", "Coordenada X", "Coordenada Y", "Coordenada Z", "Dimensao", "Print do lugar"]);
    let labels: Vec<&str> = m.options[0].sub_options[4].choices.iter().map(|c| c.label.as_str()).collect();
    assert_eq!(labels, vec!["Overworld", "Nether", "End"]);
}
