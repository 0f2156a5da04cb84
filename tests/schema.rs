use esdl::schema::{
    CommandEvents, Event, EventOpt, RepeatableType, Scalar, TypeOpt, TypeRef, Version,
};
use esdl::{parse, Error};

fn required(s: Scalar) -> RepeatableType {
    RepeatableType::Single(TypeOpt::Required(TypeRef::Scalar(s)))
}

#[test]
fn end_to_end_example() {
    let schema = parse(
        "version = \"0.1.0\"\naggregate Hello {\n  world(name: String): FooEvent\n}\nevent FooEvent {\n  name: String\n}\n",
    )
    .unwrap();
    assert_eq!(schema.version, Version::new(0, 1, 0));
    assert_eq!(schema.aggregate.name, "Hello");
    assert_eq!(schema.aggregate.commands.len(), 1);
    let world = &schema.aggregate.commands[0];
    assert_eq!(world.name, "world");
    assert_eq!(world.params.len(), 1);
    assert_eq!(world.params[0].name, "name");
    assert_eq!(world.params[0].ty, required(Scalar::String));
    let foo = Event {
        name: "FooEvent".to_string(),
        fields: vec![("name".to_string(), required(Scalar::String))],
    };
    assert_eq!(world.events, CommandEvents::Single(EventOpt::Required(foo.clone())));
    assert_eq!(schema.events, vec![foo]);
    assert!(schema.types.is_empty());
}

#[test]
fn required_by_default() {
    let schema = parse(
        "version = \"1.0.0\"\naggregate A {\n  go(a: String, b: String?): E?\n}\nevent E {\n  x: String\n  y: String?\n  z: [Int]\n  w: [Int?]?\n}\n",
    )
    .unwrap();
    let e = &schema.events[0];
    assert_eq!(e.fields[0].1, required(Scalar::String));
    assert_eq!(
        e.fields[1].1,
        RepeatableType::Single(TypeOpt::Optional(TypeRef::Scalar(Scalar::String)))
    );
    assert_eq!(
        e.fields[2].1,
        RepeatableType::RequiredArray(TypeOpt::Required(TypeRef::Scalar(Scalar::Int)))
    );
    assert_eq!(
        e.fields[3].1,
        RepeatableType::OptionalArray(TypeOpt::Optional(TypeRef::Scalar(Scalar::Int)))
    );
    let go = &schema.aggregate.commands[0];
    assert_eq!(go.params[0].ty, required(Scalar::String));
    assert_eq!(
        go.params[1].ty,
        RepeatableType::Single(TypeOpt::Optional(TypeRef::Scalar(Scalar::String)))
    );
    assert!(matches!(go.events, CommandEvents::Single(EventOpt::Optional(_))));
}

#[test]
fn tuple_return_type_keeps_order() {
    let schema = parse(
        "version = \"0.1.0\"\naggregate BankAccount {\n  make_transaction(amount: Float): (DepositedFunds? | WithdrewFunds)\n}\nevent DepositedFunds {\n  amount: Float\n}\nevent WithdrewFunds {\n  amount: Float\n}\n",
    )
    .unwrap();
    let deposited = Event {
        name: "DepositedFunds".to_string(),
        fields: vec![("amount".to_string(), required(Scalar::Float))],
    };
    let withdrew = Event {
        name: "WithdrewFunds".to_string(),
        fields: vec![("amount".to_string(), required(Scalar::Float))],
    };
    assert_eq!(
        schema.aggregate.commands[0].events,
        CommandEvents::Tuple(vec![EventOpt::Optional(deposited), EventOpt::Required(withdrew)])
    );
}

#[test]
fn forward_reference_to_later_event() {
    let schema = parse(
        "aggregate A {\n  go(): Later\n}\nversion = \"0.1.0\"\nevent Later {\n  x: Int\n}\n",
    )
    .unwrap();
    assert!(matches!(
        &schema.aggregate.commands[0].events,
        CommandEvents::Single(EventOpt::Required(e)) if e.name == "Later"
    ));
}

#[test]
fn undefined_event() {
    let err = parse("version = \"0.1.0\"\naggregate A {\n  go(): Missing\n}\n").unwrap_err();
    assert_eq!(err, Error::EventNotDefined("Missing".to_string()));
}

#[test]
fn undefined_type() {
    let err = parse("version = \"0.1.0\"\naggregate A {}\nevent E {\n  u: User\n}\n").unwrap_err();
    assert_eq!(err, Error::TypeNotDefined("User".to_string()));
}

#[test]
fn custom_type_reference_resolves_by_name() {
    let schema = parse(
        "version = \"0.1.0\"\naggregate A {\n  go(u: [User]?): E\n}\nevent E {\n  u: User\n}\ntype User {\n  name: String\n  friends: [User]\n}\n",
    )
    .unwrap();
    assert_eq!(
        schema.events[0].fields[0].1,
        RepeatableType::Single(TypeOpt::Required(TypeRef::Custom("User".to_string())))
    );
    assert_eq!(
        schema.aggregate.commands[0].params[0].ty,
        RepeatableType::OptionalArray(TypeOpt::Required(TypeRef::Custom("User".to_string())))
    );
    assert_eq!(schema.types.len(), 1);
    assert_eq!(schema.types[0].name, "User");
    assert_eq!(schema.types[0].fields.len(), 2);
}

#[test]
fn duplicate_detection_is_name_scoped() {
    let err = parse("version = \"0.1.0\"\naggregate A {}\ntype T {\n  a: Int\n}\ntype T {\n  b: Int\n}\n")
        .unwrap_err();
    assert_eq!(err, Error::DuplicateCustomType("T".to_string()));
    let err = parse("version = \"0.1.0\"\naggregate A {}\ntype T {\n  a: Int\n  a: String\n}\n")
        .unwrap_err();
    assert_eq!(
        err,
        Error::DuplicateCustomTypeField { ty: "T".to_string(), field: "a".to_string() }
    );
    let schema = parse(
        "version = \"0.1.0\"\naggregate A {}\ntype T {\n  a: Int\n}\ntype U {\n  a: Int\n}\n",
    )
    .unwrap();
    assert_eq!(schema.types.len(), 2);
}

#[test]
fn duplicate_events_and_event_fields() {
    let err = parse("version = \"0.1.0\"\naggregate A {}\nevent E {}\nevent E {}\n").unwrap_err();
    assert_eq!(err, Error::DuplicateEvent("E".to_string()));
    let err = parse("version = \"0.1.0\"\naggregate A {}\nevent E {\n  x: Int\n  x: Int\n}\n")
        .unwrap_err();
    assert_eq!(
        err,
        Error::DuplicateEventField { event: "E".to_string(), field: "x".to_string() }
    );
}

#[test]
fn duplicate_commands_and_params() {
    let err = parse(
        "version = \"0.1.0\"\naggregate A {\n  go(): E\n  go(): E\n}\nevent E {}\n",
    )
    .unwrap_err();
    assert_eq!(err, Error::DuplicateCommand("go".to_string()));
    let err = parse(
        "version = \"0.1.0\"\naggregate A {\n  go(a: Int, a: Bool): E\n}\nevent E {}\n",
    )
    .unwrap_err();
    assert_eq!(err, Error::DuplicateParam { command: "go".to_string(), param: "a".to_string() });
}

#[test]
fn cardinality_of_aggregates_and_versions() {
    assert_eq!(parse("version = \"0.1.0\"\n").unwrap_err(), Error::MissingAggregate);
    assert_eq!(
        parse("version = \"0.1.0\"\naggregate A {}\naggregate B {}\n").unwrap_err(),
        Error::MultipleAggregates
    );
    assert_eq!(parse("aggregate A {}\n").unwrap_err(), Error::MissingVersion);
    assert_eq!(
        parse("version = \"0.1.0\"\nversion = \"0.2.0\"\naggregate A {}\n").unwrap_err(),
        Error::MultipleVersions
    );
}

#[test]
fn resolving_twice_gives_equal_schemas() {
    let text = "version = \"2.0.0\"\naggregate A {\n  go(t: T): (E | F?)\n}\nevent E {\n  t: T\n}\nevent F {}\ntype T {\n  x: [Bool]\n}\n";
    assert_eq!(parse(text).unwrap(), parse(text).unwrap());
}

#[test]
fn syntax_errors_carry_their_position() {
    match parse("version = \"0.1.0\"\nbogus") {
        Err(Error::Parse { position, .. }) => assert_eq!(position, 18),
        other => panic!("unexpected {:?}", other),
    }
    match parse("version = \"0.1hi0\"\n") {
        Err(Error::Parse { position, .. }) => assert_eq!(position, 0),
        other => panic!("unexpected {:?}", other),
    }
}

#[test]
fn schema_from_str_matches_parse() {
    let text = "version = \"0.3.1\"\naggregate A {\n  go(): E\n}\nevent E {}\n";
    let schema: esdl::schema::Schema = text.parse().unwrap();
    assert_eq!(schema, parse(text).unwrap());
    assert_eq!(schema.version, Version::new(0, 3, 1));
}

#[test]
fn unterminated_block_fails_at_its_start() {
    match parse("version = \"0.1.0\"\naggregate A {\n  go(): E\n") {
        Err(Error::Parse { position, .. }) => assert_eq!(position, 18),
        other => panic!("unexpected {:?}", other),
    }
}
