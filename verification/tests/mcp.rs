use phosphor_core::registry::mcp::{check, object, schema, tool, tools, Malformed, Schema};
use phosphor_core::registry::{lookup, param, McpPolicy, ParamType};
use phosphor_core::value::{Value, TAG_FIELD};

#[test]
fn every_generated_tool_is_well_formed() {
    for tool in tools() {
        check(&tool).unwrap_or_else(|error| panic!("{}: {error:?}", tool.name));
    }
}

#[test]
fn a_union_becomes_a_discriminated_one_of() {
    let mark_seen = tool(&lookup("mark-seen").expect("registered"));
    let Schema::Object { properties, .. } = &mark_seen.input_schema else {
        panic!("an input schema is an object");
    };
    let target = properties
        .iter()
        .find(|property| property.name == "target")
        .expect("mark-seen takes a target");
    let Schema::OneOf { discriminator, arms } = &target.schema else {
        panic!("Target is a tagged union");
    };
    assert_eq!(*discriminator, TAG_FIELD);
    let region = arms
        .iter()
        .find(|arm| arm.tag == "region")
        .expect("a region is a target");
    let Schema::Object { properties, .. } = &region.schema else {
        panic!("an arm is an object");
    };
    assert_eq!(properties[0].name, TAG_FIELD);
    assert_eq!(properties[0].schema, Schema::Enum(vec!["region"]));
    assert!(properties[0].required);
}

#[test]
fn a_query_declares_a_result_and_an_action_does_not() {
    assert!(tool(&lookup("unseen-regions").expect("registered")).output_schema.is_some());
    assert!(tool(&lookup("mark-seen").expect("registered")).output_schema.is_none());
}

#[test]
fn a_query_is_read_only_and_allowed() {
    let unseen = tool(&lookup("unseen-regions").expect("registered"));
    assert!(unseen.read_only);
    assert_eq!(unseen.policy, McpPolicy::Allow);
}

#[test]
fn the_users_keyboard_is_denied_at_this_door() {
    let eval = tool(&lookup("eval").expect("registered"));
    assert_eq!(eval.policy, McpPolicy::Deny);
    check(&eval).expect("a denied tool is still a well-formed tool");
}

#[test]
fn an_unsigned_parameter_carries_its_floor() {
    assert_eq!(schema(&ParamType::Uint), Schema::Integer { minimum: Some(0) });
    assert_eq!(schema(&ParamType::Int), Schema::Integer { minimum: None });
}

#[test]
fn every_example_is_a_record() {
    for tool in tools() {
        assert!(matches!(tool.example, Value::Record(_)), "{}'s example is not a property bag", tool.name);
    }
}

#[test]
fn a_malformed_tool_is_caught() {
    let mut planted = tool(&lookup("mark-seen").expect("registered"));
    planted.name = "mark-seen".to_owned();
    assert!(matches!(check(&planted), Err(Malformed::ToolName { .. })));
}

#[test]
fn each_malformation_is_named_where_it_is() {
    let mut planted = tool(&lookup("mark-seen").expect("registered"));
    planted.name = "phosphor/".to_owned();
    assert!(matches!(check(&planted), Err(Malformed::ToolName { .. })));

    let mut blank = tool(&lookup("mark-seen").expect("registered"));
    blank.description = "  ";
    assert_eq!(check(&blank), Err(Malformed::EmptyDescription { at: "phosphor/mark-seen".to_owned() }));

    let mut flat = tool(&lookup("mark-seen").expect("registered"));
    flat.input_schema = Schema::Boolean;
    assert_eq!(check(&flat), Err(Malformed::InputNotAnObject));

    let twice = vec![
        param("a", "one", ParamType::Int, true),
        param("a", "two", ParamType::Int, true),
    ];
    let mut doubled = tool(&lookup("mark-seen").expect("registered"));
    doubled.input_schema = object(&twice);
    assert_eq!(
        check(&doubled),
        Err(Malformed::DuplicateProperty { at: "phosphor/mark-seen".to_owned(), name: "a" })
    );

    let empty = vec![param("pick", "a choice", ParamType::Choice(vec![]), true)];
    let mut choiceless = tool(&lookup("mark-seen").expect("registered"));
    choiceless.input_schema = object(&empty);
    assert_eq!(
        check(&choiceless),
        Err(Malformed::EmptyChoice { at: "phosphor/mark-seen::pick".to_owned() })
    );
}

#[test]
fn the_required_list_follows_declaration_order() {
    let params = vec![
        param("a", "first", ParamType::Int, true),
        param("b", "second", ParamType::Int, false),
        param("c", "third", ParamType::Text, true),
    ];
    assert_eq!(object(&params).required(), vec!["a", "c"]);
    assert!(Schema::Boolean.required().is_empty());
}
