use phosphor_core::registry::{capabilities, lookup, CapabilityKind, Door, ParamType, Phase};
use phosphor_core::request::Target;

#[test]
fn door_names_derive_from_one_field() {
    let cap = lookup("declare-review-block").expect("Q6's tool is registered");
    assert_eq!(cap.mcp_name(), "phosphor/declare-review-block");
    assert_eq!(cap.steel_name(), "declare-review-block!");
    assert_eq!(cap.cli_verb(), "declare-review-block");
}

#[test]
fn every_capability_is_named_at_every_door() {
    for capability in capabilities() {
        for door in Door::ALL.iter() {
            assert!(
                !capability.name_in(*door).is_empty(),
                "`{}` has no name at the {} door",
                capability.name,
                door.as_str()
            );
        }
    }
}

#[test]
fn queries_have_no_bang_and_actions_do() {
    let query = lookup("unseen-regions").expect("6b's first line is registered");
    assert_eq!(query.steel_name(), "unseen-regions");
    assert_eq!(query.kind, CapabilityKind::Query);
}

#[test]
fn a_phase_spells_and_parses_back() {
    for phase in [Phase::S1, Phase::S4, Phase::S8, Phase::V15] {
        assert_eq!(Phase::parse(phase.as_str()), Some(phase));
    }
    assert_eq!(Phase::parse("S9"), None);
}

#[test]
fn a_label_is_short_and_exact() {
    assert_eq!(ParamType::Uint.label(), "uint");
    assert_eq!(ParamType::List(Box::new(ParamType::Text)).label(), "text...");
    assert_eq!(ParamType::Id("buffer").label(), "buffer-id");
    assert_eq!(ParamType::Choice(vec!["a", "b", "c"]).label(), "a|b|c");
    let target = Target::wire_type().label();
    assert!(target.starts_with("cursor|selection|"), "{target}");
}

#[test]
fn an_unknown_name_has_no_capability() {
    assert!(lookup("no-such-thing").is_none());
    assert_eq!(capabilities().len(), 170 + 48);
}

#[test]
fn a_registration_carries_the_same_capability_through_all_three() {
    let registrations = phosphor_core::registry::registrations();
    assert_eq!(
        registrations.len(),
        phosphor_core::registry::capabilities().len()
    );
    for registration in registrations {
        let name = registration.capability.name;
        assert_eq!(registration.steel.capability, name);
        assert_eq!(registration.mcp.capability, name);
        assert_eq!(registration.cli.verb, name);
    }
}
