use esdl::parser::aggregate::{Aggregate, Command, Param, ReturnType, ReturnTypeOptionalOrRequired};
use esdl::parser::event::{Event, Field};
use esdl::parser::ident::{parse_camel_ident, parse_snake_ident};
use esdl::parser::parse;
use esdl::parser::schema::Schema;
use esdl::parser::types::{parse_type, OptionalOrRequiredType, Scalar, ScalarOrUserType, Type};
use esdl::parser::version::{parse_version, Version};

fn required_scalar(s: Scalar) -> Type<'static> {
    Type::Single(OptionalOrRequiredType::Required(ScalarOrUserType::Scalar(s)))
}

fn optional_scalar(s: Scalar) -> Type<'static> {
    Type::Single(OptionalOrRequiredType::Optional(ScalarOrUserType::Scalar(s)))
}

#[test]
fn it_parses_basic_schema() {
    let schema_str = r#"
            version = "0.1.0"

            aggregate Hello {
                world(name: String): FooEvent
            }

            event FooEvent {
                name: String
            }
        "#;

    let expected = Schema {
        versions: vec![Version::new(0, 1, 0)],
        aggregates: vec![Aggregate {
            ident: "Hello",
            commands: vec![Command {
                ident: "world",
                params: vec![Param { ident: "name", ty: required_scalar(Scalar::String) }],
                return_type: ReturnType::Single(ReturnTypeOptionalOrRequired::Required("FooEvent")),
            }],
        }],
        events: vec![Event {
            ident: "FooEvent",
            fields: vec![Field { ident: "name", ty: required_scalar(Scalar::String) }],
        }],
        types: vec![],
    };

    assert_eq!(parse(schema_str).unwrap(), expected);
}

#[test]
fn it_parses_bank_account_schema() {
    let schema_str = r#"
          version = "10.2.4-alpha"

          aggregate BankAccount {
            open_account(name: String?, initial_balance: Float): OpenedAccount?
            deposit_funds(amount: Float): DepositedFunds?
            withdraw_funds(amount: Float): WithdrewFunds?
          }
          
          event OpenedAccount {
            name: String?
            initial_balance: Float
          }
          
          event DepositedFunds {
            amount: Float
          }
          
          event WithdrewFunds {
            amount: Float
          }          
        "#;

    let version = Version {
        major: 10,
        minor: 2,
        patch: 4,
        pre: "alpha".to_string(),
        build: String::new(),
    };

    let expected = Schema {
        versions: vec![version],
        aggregates: vec![Aggregate {
            ident: "BankAccount",
            commands: vec![
                Command {
                    ident: "open_account",
                    params: vec![
                        Param { ident: "name", ty: optional_scalar(Scalar::String) },
                        Param { ident: "initial_balance", ty: required_scalar(Scalar::Float) },
                    ],
                    return_type: ReturnType::Single(ReturnTypeOptionalOrRequired::Optional(
                        "OpenedAccount",
                    )),
                },
                Command {
                    ident: "deposit_funds",
                    params: vec![Param { ident: "amount", ty: required_scalar(Scalar::Float) }],
                    return_type: ReturnType::Single(ReturnTypeOptionalOrRequired::Optional(
                        "DepositedFunds",
                    )),
                },
                Command {
                    ident: "withdraw_funds",
                    params: vec![Param { ident: "amount", ty: required_scalar(Scalar::Float) }],
                    return_type: ReturnType::Single(ReturnTypeOptionalOrRequired::Optional(
                        "WithdrewFunds",
                    )),
                },
            ],
        }],
        events: vec![
            Event {
                ident: "OpenedAccount",
                fields: vec![
                    Field { ident: "name", ty: optional_scalar(Scalar::String) },
                    Field { ident: "initial_balance", ty: required_scalar(Scalar::Float) },
                ],
            },
            Event {
                ident: "DepositedFunds",
                fields: vec![Field { ident: "amount", ty: required_scalar(Scalar::Float) }],
            },
            Event {
                ident: "WithdrewFunds",
                fields: vec![Field { ident: "amount", ty: required_scalar(Scalar::Float) }],
            },
        ],
        types: vec![],
    };

    assert_eq!(parse(schema_str).unwrap(), expected);
}

#[test]
fn version() {
    assert_eq!(parse_version(r#"version="0.1.0""#).unwrap(), ("", Version::new(0, 1, 0)));
    assert_eq!(
        parse_version(r#"version   =  "123.456.789" hello"#).unwrap(),
        (" hello", Version::new(123, 456, 789))
    );
    assert!(parse_version(r#"version="0.1hi0""#).is_err());
}

#[test]
fn version_keeps_pre_release_and_build() {
    let (rest, v) = parse_version(r#"version = "1.2.3-beta.1+build.5""#).unwrap();
    assert_eq!(rest, "");
    assert_eq!(v.major, 1);
    assert_eq!(v.minor, 2);
    assert_eq!(v.patch, 3);
    assert_eq!(v.pre, "beta.1");
    assert_eq!(v.build, "build.5");
}

#[test]
fn version_rejects_empty_quotes() {
    assert!(parse_version(r#"version = """#).is_err());
}

#[test]
fn snake_idents() {
    assert_eq!(parse_snake_ident("hello").unwrap(), ("", "hello"));
    assert_eq!(parse_snake_ident("hello_world").unwrap(), ("", "hello_world"));
    assert_eq!(parse_snake_ident("_hello").unwrap(), ("", "_hello"));
    assert_eq!(parse_snake_ident("hello123").unwrap(), ("", "hello123"));
    assert_eq!(parse_snake_ident("helloWorld").unwrap(), ("World", "hello"));
    assert_eq!(parse_snake_ident("hello_World").unwrap(), ("World", "hello_"));
    assert_eq!(parse_snake_ident("été_2").unwrap(), ("", "été_2"));
    assert!(parse_snake_ident("Hello").is_err());
    assert!(parse_snake_ident("9Hey").is_err());
    assert!(parse_snake_ident("").is_err());
}

#[test]
fn camel_idents() {
    assert_eq!(parse_camel_ident("Hello").unwrap(), ("", "Hello"));
    assert_eq!(parse_camel_ident("HelloWorld").unwrap(), ("", "HelloWorld"));
    assert_eq!(parse_camel_ident("Hello9World").unwrap(), ("", "Hello9World"));
    assert_eq!(parse_camel_ident("Hello_").unwrap(), ("_", "Hello"));
    assert_eq!(parse_camel_ident("Élan x").unwrap(), (" x", "Élan"));
    assert!(parse_camel_ident("hello").is_err());
    assert!(parse_camel_ident("_Hello").is_err());
    assert!(parse_camel_ident("9Hello").is_err());
}

#[test]
fn types_and_markers() {
    assert_eq!(parse_type("String").unwrap(), ("", required_scalar(Scalar::String)));
    assert_eq!(parse_type("String?").unwrap(), ("", optional_scalar(Scalar::String)));
    assert_eq!(
        parse_type("User?").unwrap(),
        ("", Type::Single(OptionalOrRequiredType::Optional(ScalarOrUserType::UserDefined("User"))))
    );
    assert_eq!(
        parse_type("[ Int? ]?").unwrap(),
        (
            "",
            Type::Array {
                inner: OptionalOrRequiredType::Optional(ScalarOrUserType::Scalar(Scalar::Int)),
                optional: true,
            }
        )
    );
    assert_eq!(
        parse_type("[Timestamp]").unwrap(),
        (
            "",
            Type::Array {
                inner: OptionalOrRequiredType::Required(ScalarOrUserType::Scalar(
                    Scalar::Timestamp
                )),
                optional: false,
            }
        )
    );
    // A scalar keyword wins over a longer user type name that starts with it.
    assert_eq!(parse_type("Integer").unwrap(), ("eger", required_scalar(Scalar::Int)));
    assert!(parse_type("[String").is_err());
    assert!(parse_type("string").is_err());
}

#[test]
fn empty_blocks_and_tuples() {
    let schema = parse("aggregate A {}\nevent E { }\ntype T {\n}\n").unwrap();
    assert_eq!(schema.aggregates[0].commands.len(), 0);
    assert_eq!(schema.events[0].fields.len(), 0);
    assert_eq!(schema.types[0].fields.len(), 0);
    let schema = parse("aggregate A {\n  go(): (X? | Y)\n}").unwrap();
    assert_eq!(
        schema.aggregates[0].commands[0].return_type,
        ReturnType::Tuple(vec![
            ReturnTypeOptionalOrRequired::Optional("X"),
            ReturnTypeOptionalOrRequired::Required("Y"),
        ])
    );
}

#[test]
fn leftover_input_fails_where_it_starts() {
    let err = parse("event E {\n  a: Int\n}\n garbage").unwrap_err();
    assert_eq!(err.rest, "garbage".chars().count());
    assert!(parse("event E {\n  a: Int\n").is_err());
    assert!(parse("").is_ok());
}
