//! End-to-end scenarios: parse a unit's text and compare the generated
//! companion text against the expected rendering.

use flugen::emit::generate_unit;

fn preamble(file_name: &str) -> String {
    let mut s = String::new();
    s.push_str("// dart format off\n");
    s.push_str("\n");
    s.push_str("// ignore_for_file: avoid_equals_and_hash_code_on_mutable_classes, document_ignores, lines_longer_than_80_chars");
    s.push_str("\n");
    s.push_str(&format!("\npart of '{}';", file_name));
    s
}

#[test]
fn empty_unit_produces_no_output() {
    assert_eq!(generate_unit("", "a.dart"), None);
    assert_eq!(generate_unit("class Plain {}\nint x;\n", "a.dart"), None);
    // a marker without a valid header right after it is abandoned
    assert_eq!(
        generate_unit("// @flu\nclass NotAbstract {\n}\n", "a.dart"),
        None
    );
}

#[test]
fn minimal_class() {
    let input = "\
// @flu
abstract class _User {
  String get name;
  int? get age;
}
";
    let expected = [
        preamble("user.dart").as_str(),
        "\nclass User extends _User {",
        "  User({",
        "    required this.name,",
        "    required this.age,",
        "  });",
        "\n  factory User.fromJson(Map<String, dynamic> json) {",
        "    return User(",
        "      name: json['name'] as String,",
        "      age: (json['age'] as num?)?.toInt(),",
        "    );",
        "  }",
        "\n  @override\n  final String name;",
        "\n  @override\n  final int? age;",
        "\n  Map<String, dynamic> toJson() => {",
        "    'name': name,",
        "    'age': age,",
        "  };",
        "\n  User copyWith({",
        "    String? name,",
        "    int? age,",
        "  }) => User(",
        "    name: name ?? this.name,",
        "    age: age ?? this.age,",
        "  );",
        "\n  @override\n  String toString() => 'User('",
        "    'name: $name '",
        "    'age: $age '",
        "    ')';",
        "\n  @override\n  bool operator ==(Object other) {",
        "    if (identical(this, other)) return true;",
        "    return other is User",
        "      && other.name == name\n      && other.age == age;",
        "  }",
        "\n  @override",
        "  int get hashCode => Object.hashAll([",
        "    name.hashCode,",
        "    age.hashCode,",
        "  ]);",
        "}\n",
    ]
    .join("\n");
    let out = generate_unit(input, "user.dart").expect("a class was declared");
    assert_eq!(out, expected);
}

#[test]
fn renamed_key_is_used_by_encode_and_decode() {
    let input = "\
// @flu
abstract class _Account {
  // @flu key=uid
  String get id;
}
";
    let out = generate_unit(input, "account.dart").unwrap();
    assert!(out.contains("      id: json['uid'] as String,"));
    assert!(out.contains("    'uid': id,"));
    assert!(!out.contains("json['id']"));
}

#[test]
fn list_of_custom_type_maps_elements() {
    let input = "\
// @flu
abstract class _Cart {
  List<Item> get items;
}
";
    let out = generate_unit(input, "cart.dart").unwrap();
    assert!(out.contains(
        "      items: (json['items'] as List).map((e) => Item.fromJson(e as Map<String, dynamic>)).toList(),"
    ));
    assert!(out.contains("    'items': items.map((e) => e.toJson()).toList(),"));
    assert!(out.contains("\n  @override\n  final List<Item> items;"));
}

#[test]
fn forced_enum_uses_name_lookup() {
    let input = "\
// @flu
abstract class _Theme {
  // @flu enum
  Color get color;
}
";
    let out = generate_unit(input, "theme.dart").unwrap();
    assert!(out.contains(
        "      color: Color.values.singleWhere((v) => v.name == json['color'] as String),"
    ));
    assert!(out.contains("    'color': color.name,"));
}

#[test]
fn no_fields_with_const_constructor() {
    let input = "\
// @flu
abstract class _Empty {
  const _Empty();
}
";
    let expected = [
        preamble("empty.dart").as_str(),
        "\nclass Empty extends _Empty {",
        "  const Empty();",
        "\n  factory Empty.fromJson(Map<String, dynamic> json) {",
        "    return Empty(",
        "    );",
        "  }",
        "\n  Map<String, dynamic> toJson() => {",
        "  };",
        "\n  Empty copyWith() => Empty();",
        "\n  @override\n  String toString() => 'Empty('",
        "    ')';",
        "\n  @override\n  bool operator ==(Object other) {",
        "    if (identical(this, other)) return true;",
        "    return other is Empty;",
        "  }",
        "\n  @override",
        "  int get hashCode => super.hashCode;",
        "}\n",
    ]
    .join("\n");
    let out = generate_unit(input, "empty.dart").unwrap();
    assert_eq!(out, expected);
}

#[test]
fn generation_is_deterministic() {
    let input = "\
// @flu
abstract class _User {
  String get name;
  // @flu key=\"the age\"
  int? get age;
  List<DateTime?>? get dates;
}

// @flu
abstract class _Empty {}
";
    let a = generate_unit(input, "lib/user.dart").unwrap();
    let b = generate_unit(input, "lib/user.dart").unwrap();
    assert_eq!(a.as_bytes(), b.as_bytes());
}

#[test]
fn temporal_and_nullable_fields_render_conversions() {
    let input = "\
// @flu
abstract class _Event {
  DateTime get at;
  DateTime? get until;
  double? get price;
  bool get open;
  dynamic get extra;
}
";
    let out = generate_unit(input, "event.dart").unwrap();
    assert!(out.contains("      at: DateTime.parse(json['at'] as String),"));
    assert!(out.contains(
        "      until: json['until'] == null ? null : DateTime.parse(json['until'] as String),"
    ));
    assert!(out.contains("      price: (json['price'] as num?)?.toDouble(),"));
    assert!(out.contains("      open: json['open'] as bool,"));
    assert!(out.contains("      extra: json['extra'],"));
    assert!(out.contains("    'at': at.toIso8601String(),"));
    assert!(out.contains("    'until': until?.toIso8601String(),"));
    assert!(out.contains("    'price': price,"));
    // dynamic is exempt from the optional override marker in copyWith
    assert!(out.contains("    dynamic extra,"));
    assert!(out.contains("    DateTime? until,"));
}

#[test]
fn list_variants_render_expected_encodes() {
    let input = "\
// @flu
abstract class _Box {
  List<int> get counts;
  List<DateTime> get stamps;
  // @flu enum
  List<Color?> get shades;
}
";
    let out = generate_unit(input, "box.dart").unwrap();
    // a primitive list passes through untransformed
    assert!(out.contains("    'counts': counts,"));
    assert!(out.contains("      counts: (json['counts'] as List).map((e) => (e as num).toInt()).toList(),"));
    // temporal elements are mapped
    assert!(out.contains("    'stamps': stamps.map((e) => e.toIso8601String()).toList(),"));
    // enum-forced elements keep their own nullability
    assert!(out.contains("\n  @override\n  final List<Color?> shades;"));
    assert!(out.contains("    'shades': shades.map((e) => e?.name).toList(),"));
}
