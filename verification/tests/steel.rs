use phosphor_core::registry::steel::{alias_bindings, arity, binding, bindings, Arity};
use phosphor_core::registry::{capabilities, lookup, param, ParamType};
use phosphor_core::value::Value;

#[test]
fn an_action_takes_a_bang_and_a_query_does_not() {
    let mark_seen = binding(&lookup("mark-seen").expect("registered"));
    assert_eq!(mark_seen.name, "mark-seen!");
    let unseen = binding(&lookup("unseen-regions").expect("registered"));
    assert_eq!(unseen.name, "unseen-regions");
}

#[test]
fn a_trailing_optional_may_be_omitted() {
    // `yank` declares target, register: Option<…> — the optional is last.
    let yank = binding(&lookup("yank").expect("registered"));
    assert_eq!(yank.arity, Arity { min: 1, max: 2 });
    let args = yank
        .args(vec![Value::Text("x".to_owned())])
        .expect("one argument is enough");
    assert_eq!(args.get("register"), Some(&Value::Null));
}

#[test]
fn an_optional_in_the_middle_stays_mandatory() {
    // `paste` declares at, register: Option<…>, before — omitting the
    // middle one positionally would move `before`, so it cannot be omitted.
    let paste = binding(&lookup("paste").expect("registered"));
    assert!(paste.arity.is_fixed(), "{:?}", paste.arity);
    assert_eq!(paste.arity.min, paste.params.len());
}

#[test]
fn arity_is_checked_before_shape() {
    let mark_seen = binding(&lookup("mark-seen").expect("registered"));
    let error = mark_seen
        .args(vec![])
        .expect_err("one argument is required");
    assert_eq!(error.got, 0);
}

#[test]
fn every_capability_has_a_binding_and_a_signature() {
    for capability in capabilities() {
        let binding = binding(&capability);
        assert!(!binding.name.is_empty());
        assert!(binding.signature().starts_with('('));
        assert!(binding.arity.max >= binding.arity.min);
    }
}

#[test]
fn the_drawn_alias_resolves_to_the_canonical_binding() {
    let aliases = alias_bindings();
    let watch_place = aliases
        .iter()
        .find(|alias| alias.name == "watch-place")
        .expect("6b's spelling is aliased");
    assert_eq!(watch_place.canonical, "place-watch!");
}

#[test]
fn a_zero_argument_capability_binds_as_a_thunk() {
    let clear = binding(&lookup("clear-selection").expect("registered"));
    assert_eq!(clear.arity, Arity { min: 0, max: 0 });
    assert_eq!(clear.signature(), "(clear-selection!)");
    assert!(clear.args(vec![]).expect("no arguments").is_empty());
}

#[test]
fn the_fewest_arguments_is_one_past_the_last_required() {
    let params = vec![
        param("a", "", ParamType::Int, true),
        param("b", "", ParamType::Int, false),
        param("c", "", ParamType::Int, true),
        param("d", "", ParamType::Int, false),
    ];
    assert_eq!(arity(&params), Arity { min: 3, max: 4 });
    assert_eq!(arity(&[]), Arity { min: 0, max: 0 });
}

#[test]
fn a_signature_brackets_only_the_omittable_tail() {
    let yank = binding(&lookup("yank").expect("registered"));
    assert_eq!(yank.signature(), "(yank! target [register])");
}

#[test]
fn too_many_arguments_is_an_arity_error_naming_the_capability() {
    let clear = binding(&lookup("clear-selection").expect("registered"));
    let error = clear.args(vec![Value::Null]).expect_err("takes none");
    assert_eq!(error.capability, "clear-selection");
    assert_eq!(error.expected, Arity { min: 0, max: 0 });
    assert_eq!(error.got, 1);
    let call = binding(&lookup("yank").expect("registered"))
        .call(vec![Value::Text("x".to_owned()), Value::Bool(true)])
        .expect("two arguments are accepted");
    assert_eq!(call.name, "yank");
    assert_eq!(call.args.get("register"), Some(&Value::Bool(true)));
}

#[test]
fn every_binding_is_in_registry_order() {
    let all = bindings();
    let caps = capabilities();
    assert_eq!(all.len(), caps.len());
    for (b, c) in all.iter().zip(caps.iter()) {
        assert_eq!(b.capability, c.name);
    }
}
