//! Tests of the per-member renderers, driven directly on a hand-built
//! class model.

use flugen::decl::DartClass;
use flugen::decl::DartField;
use flugen::file::DartFile;
use flugen::options::FieldOptions;
use flugen::types::Concrete;
use flugen::types::ConcreteType;
use flugen::types::DartType;

fn sample_class() -> DartClass {
    let name_field = DartField::new(
        String::from("name"),
        DartType::Concrete(Concrete::new(ConcreteType::Text, false)),
        None,
    );
    let age_field = DartField::new(
        String::from("age"),
        DartType::Concrete(Concrete::new(ConcreteType::Int, true)),
        Some(FieldOptions::new(Some(String::from("years")), false)),
    );
    DartClass::new(String::from("User"), true, vec![name_field, age_field])
}

#[test]
fn constructor_lists_every_field_in_order() {
    let class = sample_class();
    let mut lines: Vec<String> = Vec::new();
    DartFile::add_constructor(&class, &mut lines);
    assert_eq!(
        lines,
        [
            "  const User({",
            "    required this.name,",
            "    required this.age,",
            "  });",
        ]
    );
}

#[test]
fn from_json_uses_the_overridden_key() {
    let class = sample_class();
    let mut lines: Vec<String> = Vec::new();
    DartFile::add_from_json(&class, &mut lines);
    assert_eq!(lines.len(), 2 + 2 + 2);
    assert_eq!(lines[2], "      name: json['name'] as String,");
    assert_eq!(lines[3], "      age: (json['years'] as num?)?.toInt(),");
}

#[test]
fn to_json_uses_the_overridden_key() {
    let class = sample_class();
    let mut lines: Vec<String> = Vec::new();
    DartFile::add_to_json(&class, &mut lines);
    assert_eq!(
        lines,
        [
            "\n  Map<String, dynamic> toJson() => {",
            "    'name': name,",
            "    'years': age,",
            "  };",
        ]
    );
}

#[test]
fn field_declarations_render_types() {
    let class = sample_class();
    let mut lines: Vec<String> = Vec::new();
    DartFile::add_fields(&class, &mut lines);
    assert_eq!(
        lines,
        [
            "\n  @override\n  final String name;",
            "\n  @override\n  final int? age;",
        ]
    );
}

#[test]
fn copy_with_falls_back_to_current_values() {
    let class = sample_class();
    let mut lines: Vec<String> = Vec::new();
    DartFile::add_copy_with(&class, &mut lines);
    assert_eq!(
        lines,
        [
            "\n  User copyWith({",
            "    String? name,",
            "    int? age,",
            "  }) => User(",
            "    name: name ?? this.name,",
            "    age: age ?? this.age,",
            "  );",
        ]
    );
}

#[test]
fn equality_compares_every_field() {
    let class = sample_class();
    let mut lines: Vec<String> = Vec::new();
    DartFile::add_equal_operator(&class, &mut lines);
    assert_eq!(
        lines,
        [
            "\n  @override\n  bool operator ==(Object other) {",
            "    if (identical(this, other)) return true;",
            "    return other is User",
            "      && other.name == name\n      && other.age == age;",
            "  }",
        ]
    );
}

#[test]
fn hash_combines_every_field() {
    let class = sample_class();
    let mut lines: Vec<String> = Vec::new();
    DartFile::add_hash_code(&class, &mut lines);
    assert_eq!(
        lines,
        [
            "\n  @override",
            "  int get hashCode => Object.hashAll([",
            "    name.hashCode,",
            "    age.hashCode,",
            "  ]);",
        ]
    );
}

#[test]
fn to_string_lists_every_field() {
    let class = sample_class();
    let mut lines: Vec<String> = Vec::new();
    DartFile::add_to_string(&class, &mut lines);
    assert_eq!(
        lines,
        [
            "\n  @override\n  String toString() => 'User('",
            "    'name: $name '",
            "    'age: $age '",
            "    ')';",
        ]
    );
}

#[test]
fn type_strings_render_list_wrappers() {
    let t = DartType::GenericList {
        typ: Concrete::new(ConcreteType::Custom(String::from("Item")), true),
        nullable: true,
    };
    assert_eq!(t.type_string(), "List<Item?>?");
    assert_eq!(t.non_null_type_string(), "List<Item?>");
}
