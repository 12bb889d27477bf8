//! Unit tests of the annotation parser and the path transforms.

use flugen::decl::DartClass;
use flugen::file::DartFile;
use flugen::types::ConcreteType;
use flugen::types::DartType;

fn classes_of(input: &str) -> Vec<DartClass> {
    DartFile::from_string(input, "x.dart").classes
}

#[test]
fn no_marker_no_classes() {
    let cs = classes_of("abstract class _User {\n  int get a;\n}\n");
    assert_eq!(cs.len(), 0);
}

#[test]
fn marker_then_header_is_recognized() {
    let cs = classes_of("// @flu\nabstract class _User {\n  int get a;\n}\n");
    assert_eq!(cs.len(), 1);
    assert_eq!(cs[0].name, "User");
    assert!(!cs[0].has_const_constructor);
    assert_eq!(cs[0].fields.len(), 1);
    assert_eq!(cs[0].fields[0].name, "a");
    assert!(matches!(
        &cs[0].fields[0].typ,
        DartType::Concrete(c) if matches!(c.typ, ConcreteType::Int)
    ));
}

#[test]
fn blank_lines_after_marker_are_skipped() {
    let cs = classes_of("// @flu\n\n  \nabstract class _A {\n}\n");
    assert_eq!(cs.len(), 1);
    assert_eq!(cs[0].name, "A");
}

#[test]
fn non_header_line_abandons_the_attempt() {
    let cs = classes_of("// @flu\nimport 'other.dart';\nabstract class _A {\n}\n");
    assert_eq!(cs.len(), 0);
}

#[test]
fn single_line_empty_declaration() {
    let cs = classes_of("// @flu\nabstract class _A {}\nabstract class _B {}\n");
    assert_eq!(cs.len(), 1);
    assert_eq!(cs[0].name, "A");
    assert_eq!(cs[0].fields.len(), 0);
}

#[test]
fn truncated_block_is_abandoned() {
    let cs = classes_of("// @flu\nabstract class _A {\n  int get a;\n");
    assert_eq!(cs.len(), 0);
}

#[test]
fn method_bodies_are_skipped_by_depth() {
    let input = "\
// @flu
abstract class _A {
  int get a;
  void frob() {
    if (true) {
      int get fake;
    }
  }
  String get b;
}
";
    let cs = classes_of(input);
    assert_eq!(cs.len(), 1);
    assert_eq!(cs[0].fields.len(), 2);
    assert_eq!(cs[0].fields[0].name, "a");
    assert_eq!(cs[0].fields[1].name, "b");
}

#[test]
fn const_constructor_marker_is_consumed() {
    let input = "\
// @flu
abstract class _A {
  const _A();
  int get a;
}
";
    let cs = classes_of(input);
    assert_eq!(cs.len(), 1);
    assert!(cs[0].has_const_constructor);
    assert_eq!(cs[0].fields.len(), 1);
}

#[test]
fn inline_comments_are_stripped() {
    let input = "\
// @flu
abstract class _A { // the base
  int get a; // count
}
";
    let cs = classes_of(input);
    assert_eq!(cs.len(), 1);
    assert_eq!(cs[0].fields.len(), 1);
    assert_eq!(cs[0].fields[0].name, "a");
}

#[test]
fn two_classes_need_two_markers() {
    let input = "\
// @flu
abstract class _A {
}
abstract class _B {
}
// @flu
abstract class _C {
}
";
    let cs = classes_of(input);
    assert_eq!(cs.len(), 2);
    assert_eq!(cs[0].name, "A");
    assert_eq!(cs[1].name, "C");
}

#[test]
fn crlf_line_endings_are_accepted() {
    let cs = classes_of("// @flu\r\nabstract class _A {\r\n  int get a;\r\n}\r\n");
    assert_eq!(cs.len(), 1);
    assert_eq!(cs[0].fields.len(), 1);
}

#[test]
fn option_comment_must_be_directly_above() {
    let input = "\
// @flu
abstract class _A {
  // @flu key=uid

  String get id;
}
";
    let cs = classes_of(input);
    assert!(cs[0].fields[0].options.is_none());
    assert_eq!(cs[0].fields[0].json_key(), "id");
}

#[test]
fn generated_path_replaces_the_extension() {
    let f = DartFile::new(String::from("lib/models/user.dart"), Vec::new());
    assert_eq!(f.generated_path(), "lib/models/user.flu.dart");
    let f = DartFile::new(String::from("user.txt"), Vec::new());
    assert_eq!(f.generated_path(), "user.txt");
    // only the trailing extension is rewritten
    let f = DartFile::new(String::from("lib/a.dart/b.dart"), Vec::new());
    assert_eq!(f.generated_path(), "lib/a.dart/b.flu.dart");
}

#[test]
fn file_name_is_the_last_path_component() {
    let f = DartFile::new(String::from("lib/models/user.dart"), Vec::new());
    assert_eq!(f.file_name(), "user.dart");
    let f = DartFile::new(String::from("user.dart"), Vec::new());
    assert_eq!(f.file_name(), "user.dart");
}

#[test]
fn json_key_defaults_to_the_field_name() {
    let input = "\
// @flu
abstract class _A {
  String get id;
  // @flu key=n
  String get name;
}
";
    let cs = classes_of(input);
    assert_eq!(cs[0].fields[0].json_key(), "id");
    assert_eq!(cs[0].fields[1].json_key(), "n");
}
