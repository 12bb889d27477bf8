//! Unit tests of the type resolver and the field-option scanner.

use flugen::options::FieldOptions;
use flugen::types::Concrete;
use flugen::types::ConcreteType;
use flugen::types::DartType;

#[test]
fn primitives_resolve_with_nullability() {
    let c = Concrete::from_string("int");
    assert!(matches!(c.typ, ConcreteType::Int));
    assert!(!c.nullable);

    let c = Concrete::from_string("int?");
    assert!(matches!(c.typ, ConcreteType::Int));
    assert!(c.nullable);

    let c = Concrete::from_string("double?");
    assert!(matches!(c.typ, ConcreteType::Double));
    assert!(c.nullable);

    let c = Concrete::from_string("bool");
    assert!(matches!(c.typ, ConcreteType::Bool));

    let c = Concrete::from_string("String?");
    assert!(matches!(c.typ, ConcreteType::Text));
    assert!(c.nullable);

    let c = Concrete::from_string("DateTime");
    assert!(matches!(c.typ, ConcreteType::DateTime));
}

#[test]
fn dynamic_is_never_nullable() {
    let c = Concrete::from_string("dynamic?");
    assert!(matches!(c.typ, ConcreteType::Dynamic));
    assert!(!c.nullable);
    assert_eq!(c.type_string(), "dynamic");
}

#[test]
fn unknown_token_degrades_to_custom() {
    let c = Concrete::from_string("Widget?");
    match &c.typ {
        ConcreteType::Custom(n) => assert_eq!(n, "Widget"),
        _ => panic!("expected a custom reference"),
    }
    assert!(c.nullable);
    assert_eq!(c.type_string(), "Widget?");
    assert_eq!(c.non_null_type_string(), "Widget");
    assert!(c.is_custom());
}

#[test]
fn list_wrapper_resolves_one_level() {
    let t = DartType::from_string_and_options(String::from("List<int>"), &None);
    match &t {
        DartType::GenericList { typ, nullable } => {
            assert!(matches!(typ.typ, ConcreteType::Int));
            assert!(!typ.nullable);
            assert!(!nullable);
        }
        _ => panic!("expected a list"),
    }
    assert_eq!(t.type_string(), "List<int>");

    let t = DartType::from_string_and_options(String::from("List<String?>?"), &None);
    match &t {
        DartType::GenericList { typ, nullable } => {
            assert!(matches!(typ.typ, ConcreteType::Text));
            assert!(typ.nullable);
            assert!(nullable);
        }
        _ => panic!("expected a list"),
    }
    assert_eq!(t.type_string(), "List<String?>?");
    assert_eq!(t.non_null_type_string(), "List<String?>");
}

#[test]
fn nested_list_inner_is_custom() {
    // only one list level is supported; the inner text stays a bare token
    let t = DartType::from_string_and_options(String::from("List<List<int>>"), &None);
    match &t {
        DartType::GenericList { typ, .. } => match &typ.typ {
            ConcreteType::Custom(n) => assert_eq!(n, "List<int>"),
            _ => panic!("expected a custom reference"),
        },
        _ => panic!("expected a list"),
    }
}

#[test]
fn forced_enum_reclassifies_the_token() {
    let opts = Some(FieldOptions::new(None, true));
    let t = DartType::from_string_and_options(String::from("Color?"), &opts);
    match &t {
        DartType::Concrete(c) => {
            match &c.typ {
                ConcreteType::Enum(n) => assert_eq!(n, "Color"),
                _ => panic!("expected an enum reference"),
            }
            assert!(c.nullable);
        }
        _ => panic!("expected a bare type"),
    }

    let t = DartType::from_string_and_options(String::from("List<Color>"), &opts);
    match &t {
        DartType::GenericList { typ, nullable } => {
            assert!(matches!(&typ.typ, ConcreteType::Enum(n) if n == "Color"));
            assert!(!typ.nullable);
            assert!(!nullable);
        }
        _ => panic!("expected a list"),
    }
}

#[test]
fn option_scanner_recognizes_key_and_enum() {
    let o = FieldOptions::from_string("key=uid");
    assert_eq!(o.key.as_deref(), Some("uid"));
    assert!(!o.is_enum);

    let o = FieldOptions::from_string("key=\"user name\" enum");
    assert_eq!(o.key.as_deref(), Some("user name"));
    assert!(o.is_enum);

    let o = FieldOptions::from_string("enum");
    assert_eq!(o.key, None);
    assert!(o.is_enum);
}

#[test]
fn option_scanner_ignores_unrecognized_entries() {
    let o = FieldOptions::from_string("frobnicate key=a other=b");
    assert_eq!(o.key.as_deref(), Some("a"));
    assert!(!o.is_enum);

    // `enum` with a value is not the enum-forcing flag, and a bare `key`
    // carries no override
    let o = FieldOptions::from_string("enum=5 key");
    assert_eq!(o.key, None);
    assert!(!o.is_enum);

    let o = FieldOptions::from_string("");
    assert_eq!(o.key, None);
    assert!(!o.is_enum);
}

#[test]
fn decode_expressions_per_kind() {
    let int_null = Concrete::new(ConcreteType::Int, true);
    assert_eq!(
        int_null.from_json_value(String::from("json['n']")),
        "(json['n'] as num?)?.toInt()"
    );

    let custom = Concrete::new(ConcreteType::Custom(String::from("Item")), true);
    assert_eq!(
        custom.from_json_value(String::from("json['i']")),
        "json['i'] == null ? null : Item.fromJson(json['i'] as Map<String, dynamic>)"
    );

    let en = Concrete::new(ConcreteType::Enum(String::from("Color")), false);
    assert_eq!(
        en.from_json_value(String::from("json['c']")),
        "Color.values.singleWhere((v) => v.name == json['c'] as String)"
    );
    assert_eq!(en.to_json_value(String::from("c")), "c.name");

    let dt = Concrete::new(ConcreteType::DateTime, false);
    assert_eq!(dt.to_json_value(String::from("at")), "at.toIso8601String()");

    let cu = Concrete::new(ConcreteType::Custom(String::from("Item")), true);
    assert_eq!(cu.to_json_value(String::from("it")), "it?.toJson()");

    let b = Concrete::new(ConcreteType::Bool, false);
    assert_eq!(b.to_json_value(String::from("ok")), "ok");
}
