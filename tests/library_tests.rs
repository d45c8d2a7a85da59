use code_navigation::dto::invocation_structure::{InvocationStructure, RepositoryImportDeclaration};
use code_navigation::dto::object_description::{Description, PackageDescription, VarDescription};
use code_navigation::dto::repository_method_dto::RepositoryMethodDtoBuilder;
use code_navigation::model::declaration::{ClassObject, DeclarationNode, MethodObject, PackageObject};
use code_navigation::model::java_object::CodeType as JavaCode;
use code_navigation::model::js_object::CodeType as JsCode;
use code_navigation::model::python_object::CodeType as PythonCode;
use code_navigation::parser::{contains_part, line_statistics, parse_file_get_dto, SupportedLanguages};
use code_navigation::syntax::grammar::token_text;
use code_navigation::visitor::flatten::prepare_output_data;
use code_navigation::visitor::js_invocation_visitor::is_name_valid;
use code_navigation::visitor::python_declaration_visitor::convert_path_to_package;
use code_navigation::visitor::symbols::SymbolTable;

fn table() -> SymbolTable {
    let mut t = SymbolTable::new("this".to_string(), '.');
    t.set_current_package("cur".to_string());
    t
}

#[test]
fn rule_one_uses_most_recent_binding() {
    let mut t = table();
    t.add_var_description_entry(VarDescription::new("p1".into(), "Foo".into(), 1, 0, "x".into()));
    t.add_var_description_entry(VarDescription::new("p2".into(), "Bar".into(), 2, 0, "x".into()));
    t.add_navigation_link(&"x".to_string(), &"run".to_string(), &"A".to_string(), 3, 9, 4);
    assert_eq!(t.links.len(), 1);
    let l = &t.links[0];
    assert_eq!(l.get_package_name(), "p2");
    assert_eq!(l.get_class_name(), "Bar");
    assert_eq!((l.line(), l.position(), l.count_param_input), (9, 4, 3));
    assert_eq!(l.var_name, "x");
}

#[test]
fn rule_one_is_skipped_for_the_self_word() {
    let mut t = table();
    t.add_var_description_entry(VarDescription::new("p".into(), "Foo".into(), 1, 0, "this".into()));
    t.add_navigation_link(&"this".to_string(), &"run".to_string(), &"A".to_string(), 0, 1, 1);
    assert_eq!(t.links.len(), 1);
    assert_eq!(t.links[0].get_class_name(), "this");
    assert_eq!(t.links[0].get_package_name(), "cur");
}

#[test]
fn rule_two_fans_out_with_parent_packages() {
    let mut t = table();
    t.add_package_description(PackageDescription::new("pa".into(), "A".into(), 1, 0, vec![]));
    t.add_package_description(PackageDescription::new("pb".into(), "B".into(), 2, 0, vec!["A".into(), "C".into()]));
    t.add_navigation_link(&"this".to_string(), &"m".to_string(), &"B".to_string(), 1, 5, 6);
    let got: Vec<(String, String)> = t.links.iter().map(|l| (l.get_package_name(), l.get_class_name())).collect();
    assert_eq!(got, vec![
        ("pb".to_string(), "B".to_string()),
        ("pa".to_string(), "B".to_string()),
        ("pb".to_string(), "B".to_string()),
    ]);
    for l in &t.links {
        assert_eq!((l.line(), l.position(), l.count_param_input), (5, 6, 1));
    }
}

#[test]
fn rule_two_applies_to_the_enclosing_type_name() {
    let mut t = table();
    t.add_package_description(PackageDescription::new("pb".into(), "B".into(), 2, 0, vec![]));
    t.add_navigation_link(&"B".to_string(), &"s".to_string(), &"B".to_string(), 0, 1, 1);
    assert_eq!(t.links.len(), 1);
    assert_eq!(t.links[0].get_package_name(), "pb");
    assert_eq!(t.links[0].var_name, "B");
}

#[test]
fn rule_three_branches() {
    let mut t = table();
    t.add_package_description(PackageDescription::new("util".into(), "Lists".into(), 1, 0, vec![]));
    t.add_navigation_link(&"Lists".to_string(), &"of".to_string(), &"A".to_string(), 1, 3, 2);
    t.add_navigation_link(&"a.b()".to_string(), &"c".to_string(), &"A".to_string(), 0, 4, 2);
    t.add_navigation_link(&"Thing".to_string(), &"d".to_string(), &"A".to_string(), 0, 5, 2);
    let got: Vec<(String, String, String, String)> = t
        .links
        .iter()
        .map(|l| (l.get_package_name(), l.get_class_name(), l.var_name.clone(), l.method_name.clone()))
        .collect();
    let r = |a: &str, b: &str, c: &str, d: &str| (a.to_string(), b.to_string(), c.to_string(), d.to_string());
    assert_eq!(got, vec![
        r("util", "Lists", "Lists", "of"),
        r("", "", "", "c"),
        r("cur", "Thing", "Thing", "d"),
    ]);
}

#[test]
fn rule_three_falls_back_to_an_anonymous_entry() {
    let mut t = table();
    t.add_package_description(PackageDescription::new("star.pkg".into(), "".into(), 1, 0, vec![]));
    t.add_navigation_link(&"Unknown".to_string(), &"go".to_string(), &"A".to_string(), 0, 2, 0);
    assert_eq!(t.links[0].get_package_name(), "star.pkg");
    assert_eq!(t.links[0].get_class_name(), "");
}

#[test]
fn variable_binding_resolves_known_types() {
    let mut t = table();
    t.add_package_description(PackageDescription::new("java.util".into(), "List".into(), 1, 0, vec![]));
    t.add_var_description("List".into(), "xs".into(), 3, 4);
    t.add_var_description("Local".into(), "y".into(), 4, 4);
    assert_eq!(t.var_descriptions[0].get_package_name(), "java.util");
    assert_eq!(t.var_descriptions[0].get_class_name(), "List");
    assert_eq!(t.var_descriptions[1].get_package_name(), "cur");
    assert_eq!(t.var_descriptions[1].get_class_name(), "Local");
    assert_eq!(t.find_var_desc_by_name(&"y".to_string()), Some(1));
    assert_eq!(t.find_var_desc_by_name(&"z".to_string()), None);
    assert_eq!(t.find_package_by_class_name(&"List".to_string()), Some(0));
    assert_eq!(t.find_package_by_class_name(&"Map".to_string()), None);
}

#[test]
fn imports_merge_by_package() {
    let mut t = table();
    t.add_import("a.b".into(), Some("X".into()));
    t.add_import("c".into(), None);
    t.add_import("a.b".into(), Some("Y".into()));
    t.add_import("a.b".into(), Some("X".into()));
    let (imports, links) = t.take();
    assert!(links.is_empty());
    assert_eq!(imports.len(), 2);
    assert_eq!(imports[0].package_name(), "a.b");
    assert_eq!(imports[0].class_import_list(), &vec!["X".to_string(), "Y".to_string()]);
    assert_eq!(imports[1].package_name(), "c");
    assert!(imports[1].class_import_list().is_empty());
}

#[test]
fn import_declaration_adds_each_class_once() {
    let mut d = RepositoryImportDeclaration::new("p".to_string());
    d.add_class("A".to_string());
    d.add_class("B".to_string());
    d.add_class("A".to_string());
    assert_eq!(d.class_import_list, vec!["A".to_string(), "B".to_string()]);
    assert!(d.contains_class(&"B".to_string()));
    assert!(!d.contains_class(&"C".to_string()));
}

#[test]
fn flattening_threads_package_and_class() {
    let mut package = DeclarationNode::Package(PackageObject::new_name("pk".into(), "CODE_P".into(), 1));
    let mut class = DeclarationNode::Type(ClassObject::new_name("K".into(), "CODE_C".into(), 2));
    let mut method = MethodObject::new_code("go".into(), "CODE_M".into(), 3, vec!["a".into(), "b".into()]);
    method.object_data.add_modifier("static".into());
    method.object_data.add_modifier("a\"b\n\u{1}".into());
    class.add_child(DeclarationNode::Method(method));
    class.add_child(DeclarationNode::Method(MethodObject::new("skipped".into(), "".into())));
    package.add_child(class);
    let mut out = Vec::new();
    prepare_output_data(&mut out, &package, 5, &"f.x".to_string(), &String::new(), &String::new());
    assert_eq!(out.len(), 3);
    assert_eq!((out[0].package_name.as_str(), out[0].class_name.as_str(), out[0].line_code), ("pk", "", 1));
    assert_eq!((out[1].package_name.as_str(), out[1].class_name.as_str(), out[1].line_code), ("pk", "K", 2));
    assert_eq!((out[2].package_name.as_str(), out[2].class_name.as_str(), out[2].method_name.as_str()), ("pk", "K", "go"));
    assert_eq!(out[2].count_of_parameters, 2);
    assert_eq!(out[2].modifiers, "[\"static\",\"a\\\"b\\n\\u0001\"]");
    assert_eq!(out[2].method_type, "CODE_M");
    assert_eq!(out[2].repository_id, 5);
    assert_eq!(out[2].path_file, "f.x");
}

#[test]
fn builder_sets_each_field() {
    let dto = RepositoryMethodDtoBuilder::new()
        .repository_id(4)
        .path_file("p".into())
        .package_name("k".into())
        .line_code(7)
        .class_name("C".into())
        .method_name("m".into())
        .modifiers("[]".into())
        .method_type("T".into())
        .count_of_parameters(2)
        .build();
    assert_eq!(dto.repository_id, 4);
    assert_eq!(dto.path_file, "p");
    assert_eq!(dto.package_name, "k");
    assert_eq!(dto.line_code, 7);
    assert_eq!(dto.class_name, "C");
    assert_eq!(dto.method_name, "m");
    assert_eq!(dto.blob_data, "");
    assert_eq!(dto.modifiers, "[]");
    assert_eq!(dto.method_type, "T");
    assert_eq!(dto.count_of_parameters, 2);
}

#[test]
fn type_codes_per_language() {
    assert_eq!(JavaCode::type_codes(), vec!["JAVA_PACKAGE", "JAVA_CLASS", "JAVA_INTERFACE", "JAVA_ENUM", "JAVA_CONSTRUCTOR", "JAVA_METHOD"]);
    assert_eq!(JsCode::type_codes(), vec!["JS_PACKAGE", "JS_CLASS", "JS_METHOD", "JS_CONSTRUCTOR"]);
    assert_eq!(PythonCode::type_codes(), vec!["PYTHON_METHOD", "PYTHON_PACKAGE", "PYTHON_CLASS", "PYTHON_ENUM", "PYTHON_CONSTRUCTOR"]);
    let empty = InvocationStructure::empty();
    assert!(empty.type_codes().is_empty());
}

#[test]
fn description_setters_keep_other_fields() {
    let mut v = VarDescription::new("p".into(), "C".into(), 1, 2, "v".into());
    v.set_line(10);
    v.set_var_name("w".into());
    assert_eq!((v.get_package_name(), v.get_class_name(), v.line(), v.position()), ("p".to_string(), "C".to_string(), 10, 2));
    assert_eq!(v.var_name(), "w");
    let mut p = PackageDescription::new("p".into(), "C".into(), 1, 2, vec![]);
    p.add_parent("Base".into());
    p.set_class_name("D".into());
    assert_eq!(p.parents(), &vec!["Base".to_string()]);
    assert_eq!(p.class_name(), "D");
}

#[test]
fn language_names() {
    assert_eq!(SupportedLanguages::from_name(&"JAVA".to_string()), Some(SupportedLanguages::Java));
    assert_eq!(SupportedLanguages::from_name(&"TS".to_string()), Some(SupportedLanguages::Ts));
    assert_eq!(SupportedLanguages::from_name(&"java".to_string()), None);
}

#[test]
fn module_name_from_path() {
    assert_eq!(convert_path_to_package(&"pkg/sub/mod.py".to_string()), "pkg.sub.mod");
    assert_eq!(convert_path_to_package(&"top.py".to_string()), "top");
    assert_eq!(convert_path_to_package(&"a.pyx/b.py".to_string()), "ax.b");
}

#[test]
fn loader_names_are_not_links() {
    assert!(!is_name_valid(&"require".to_string()));
    assert!(!is_name_valid(&"define".to_string()));
    assert!(!is_name_valid(&"$".to_string()));
    assert!(!is_name_valid(&"".to_string()));
    assert!(is_name_valid(&"fetch".to_string()));
}

#[test]
fn text_search_and_line_statistics() {
    assert!(contains_part("foo.min", ".min"));
    assert!(!contains_part("foo.mi", ".min"));
    assert!(contains_part("abc", ""));
    assert_eq!(line_statistics(b"ab\r\ncde\nf"), (2, 3));
    assert_eq!(line_statistics(b"abcd\r"), (0, 5));
    assert_eq!(line_statistics(b""), (0, 0));
}

#[test]
fn token_limit_makes_long_text_absent() {
    let long = "a".repeat(250);
    assert_eq!(token_text(long.as_bytes(), 0, 250), Some(long.clone()));
    let longer = "a".repeat(251);
    assert_eq!(token_text(longer.as_bytes(), 0, 251), None);
    assert_eq!(token_text(b"abc", 1, 3), Some("bc".to_string()));
    assert_eq!(token_text(b"abc", 2, 4), None);
    let name = "x".repeat(260);
    let src = format!("class {} {{ void m() {{}} }}", name);
    let dtos = parse_file_get_dto(src, 1, "A.java".to_string(), "JAVA".to_string());
    assert_eq!(dtos[1].class_name, "");
    assert_eq!(dtos[1].method_type, "JAVA_CLASS");
}
