use code_navigation::parser::{
    is_source_code_valid, parse_file_get_dto, parse_file_get_invocation_structure, source_code_valid_with_stem,
};

#[test]
fn test_js_validate_name() {
    let min_path_file = String::from("./some_dir.min/some.dir_again/some_file.min.js");
    assert!(!is_source_code_valid("", &min_path_file));

    let dev_path_file = String::from("./some_dir.dev/some.dir_again/some_file.dev.js");
    assert!(!is_source_code_valid("", &dev_path_file));

    let zero_lines_file = String::from("./normal_dir/file.js");
    assert!(!is_source_code_valid("", &zero_lines_file));

    let normal_file = String::from("/normal_dir/normal_file.js");
    let normal_content = format!("{}\n", r#"
            const greet = function greet(name){
                console.log("Hello - ", name);
            }
        "#);
    assert!(is_source_code_valid(&normal_content, &normal_file));
}

#[test]
fn filter_rejects_min_and_dev_stems_whatever_the_content() {
    let good = "a\nb\n";
    assert!(!is_source_code_valid(good, "/x/foo.min.js"));
    assert!(!is_source_code_valid(good, "/x/foo.dev.ts"));
    assert!(is_source_code_valid(good, "/x/foo.js"));
}

#[test]
fn filter_rejects_sources_without_newline() {
    assert!(!is_source_code_valid("let a = 1;", "/x/foo.js"));
}

#[test]
fn filter_line_length_limits() {
    let long_501 = "x".repeat(501);
    let many_lines = format!("{}\n{}", long_501, "a\n".repeat(20));
    assert!(!is_source_code_valid(&many_lines, "/x/a.js"));
    let long_500 = "x".repeat(500);
    let ok_many = format!("{}\n{}", long_500, "a\n".repeat(20));
    assert!(is_source_code_valid(&ok_many, "/x/a.js"));
    let long_201 = "x".repeat(201);
    let few = format!("{}\na\n", long_201);
    assert!(!is_source_code_valid(&few, "/x/a.js"));
    let long_200 = "x".repeat(200);
    let few_ok = format!("{}\na\n", long_200);
    assert!(is_source_code_valid(&few_ok, "/x/a.js"));
}

#[test]
fn filter_counts_crlf_line_without_its_carriage_return() {
    let line = format!("{}\r\n", "x".repeat(200));
    assert!(source_code_valid_with_stem(Some("a".to_string()), &line));
    let line = format!("{}\n", "x".repeat(201));
    assert!(!source_code_valid_with_stem(Some("a".to_string()), &line));
    assert!(!source_code_valid_with_stem(None, "a\n"));
}

#[test]
fn unsupported_language_yields_nothing() {
    let dtos = parse_file_get_dto("class A {}".to_string(), 1, "A.java".to_string(), "COBOL".to_string());
    assert!(dtos.is_empty());
    let s = parse_file_get_invocation_structure("class A {}".to_string(), "A.java".to_string(), "COBOL".to_string());
    assert!(s.repository_import_declarations.is_empty());
    assert!(s.method_descriptions.is_empty());
    assert!(s.type_codes.is_empty());
}

#[test]
fn java_end_to_end_declarations() {
    let src = "package p; class A { void m(int x){} }".to_string();
    let dtos = parse_file_get_dto(src, 7, "A.java".to_string(), "JAVA".to_string());
    assert_eq!(dtos.len(), 4);
    assert_eq!(dtos[0].method_type, "JAVA_PACKAGE");
    assert_eq!(dtos[0].package_name, "p");
    assert_eq!(dtos[1].method_type, "JAVA_CLASS");
    assert_eq!(dtos[1].class_name, "A");
    assert_eq!(dtos[1].package_name, "p");
    assert_eq!(dtos[2].method_type, "JAVA_CONSTRUCTOR");
    assert_eq!(dtos[2].method_name, "A");
    assert_eq!(dtos[2].class_name, "A");
    assert_eq!(dtos[2].count_of_parameters, 0);
    assert_eq!(dtos[3].method_type, "JAVA_METHOD");
    assert_eq!(dtos[3].method_name, "m");
    assert_eq!(dtos[3].class_name, "A");
    assert_eq!(dtos[3].package_name, "p");
    assert_eq!(dtos[3].count_of_parameters, 1);
    for d in &dtos {
        assert_eq!(d.repository_id, 7);
        assert_eq!(d.path_file, "A.java");
        assert_eq!(d.blob_data, "");
        assert_eq!(d.modifiers, "[]");
    }
}

#[test]
fn java_end_to_end_invocations() {
    let src = "package p; class A { void m(int x){} }".to_string();
    let s = parse_file_get_invocation_structure(src, "A.java".to_string(), "JAVA".to_string());
    assert_eq!(s.repository_import_declarations.len(), 1);
    assert_eq!(s.repository_import_declarations[0].package_name, "p");
    assert!(s.repository_import_declarations[0].class_import_list.is_empty());
    assert_eq!(s.method_descriptions.len(), 0);
    assert_eq!(s.type_codes.len(), 6);
}

#[test]
fn java_constructor_synthesis() {
    let src = "class B {\n  public B(int a) {}\n}\nclass C {\n  C() {}\n}\npublic class D {}\n".to_string();
    let dtos = parse_file_get_dto(src, 0, "B.java".to_string(), "JAVA".to_string());
    let kinds: Vec<(String, String, usize, usize)> = dtos
        .iter()
        .map(|d| (d.method_type.clone(), d.method_name.clone(), d.line_code, d.count_of_parameters))
        .collect();
    assert_eq!(kinds[1], ("JAVA_CLASS".to_string(), "".to_string(), 1, 0));
    assert_eq!(kinds[2], ("JAVA_CONSTRUCTOR".to_string(), "B".to_string(), 1, 0));
    assert_eq!(kinds[3], ("JAVA_CONSTRUCTOR".to_string(), "B".to_string(), 2, 1));
    assert_eq!(kinds[4], ("JAVA_CLASS".to_string(), "".to_string(), 4, 0));
    assert_eq!(kinds[5], ("JAVA_CONSTRUCTOR".to_string(), "C".to_string(), 5, 0));
    assert_eq!(kinds[6], ("JAVA_CLASS".to_string(), "".to_string(), 7, 0));
    assert_eq!(kinds[7], ("JAVA_CONSTRUCTOR".to_string(), "D".to_string(), 7, 0));
    assert_eq!(dtos[7].modifiers, "[\"public\"]");
    assert_eq!(dtos.len(), 8);
}

#[test]
fn java_shadowing_resolves_to_later_declaration() {
    let src = "package p;\nclass A {\n  void m() {\n    Foo x = null;\n    Bar x = null;\n    x.run();\n  }\n}\n".to_string();
    let s = parse_file_get_invocation_structure(src, "A.java".to_string(), "JAVA".to_string());
    assert_eq!(s.method_descriptions.len(), 1);
    let link = &s.method_descriptions[0];
    assert_eq!(link.description_data.class_name, "Bar");
    assert_eq!(link.description_data.package_name, "p");
    assert_eq!(link.var_name, "x");
    assert_eq!(link.method_name, "run");
    assert_eq!(link.description_data.line, 6);
}

#[test]
fn java_inheritance_fan_out() {
    let src = "package p;\nclass B extends A implements C {\n  void f() {\n    this.m(1, 2);\n  }\n}\n".to_string();
    let s = parse_file_get_invocation_structure(src, "B.java".to_string(), "JAVA".to_string());
    assert_eq!(s.method_descriptions.len(), 3);
    for link in &s.method_descriptions {
        assert_eq!(link.description_data.class_name, "B");
        assert_eq!(link.method_name, "m");
        assert_eq!(link.count_param_input, 2);
        assert_eq!(link.description_data.line, 4);
        assert_eq!(link.description_data.position, 4);
    }
}

#[test]
fn java_import_dedup() {
    let src = "package q;\nimport a.b.X;\nimport a.b.Y;\nimport a.b.X;\nimport c.*;\nclass A {}\n".to_string();
    let s = parse_file_get_invocation_structure(src, "A.java".to_string(), "JAVA".to_string());
    let imports = &s.repository_import_declarations;
    assert_eq!(imports.len(), 3);
    assert_eq!(imports[0].package_name, "q");
    assert_eq!(imports[1].package_name, "a.b");
    assert_eq!(imports[1].class_import_list, vec!["X".to_string(), "Y".to_string()]);
    assert_eq!(imports[2].package_name, "c");
    assert!(imports[2].class_import_list.is_empty());
}

#[test]
fn java_empty_source_yields_only_the_unnamed_package() {
    let dtos = parse_file_get_dto(String::new(), 2, "E.java".to_string(), "JAVA".to_string());
    assert_eq!(dtos.len(), 1);
    assert_eq!(dtos[0].method_type, "JAVA_PACKAGE");
    assert_eq!(dtos[0].package_name, "");
    assert_eq!(dtos[0].line_code, 0);
}

#[test]
fn java_declarations_survive_a_syntax_error() {
    let src = "package p;\nclass A {\n  void m() { int x = ; }\n  void n(int a, int b) {}\n}\n".to_string();
    let dtos = parse_file_get_dto(src, 2, "A.java".to_string(), "JAVA".to_string());
    let names: Vec<String> = dtos.iter().map(|d| d.method_name.clone()).collect();
    assert!(names.contains(&"n".to_string()));
    let n = dtos.iter().find(|d| d.method_name == "n").unwrap();
    assert_eq!(n.count_of_parameters, 2);
    assert_eq!(n.class_name, "A");
    assert_eq!(n.line_code, 4);
}

#[test]
fn java_object_creation_links_to_the_created_type() {
    let src = "package p;\nimport q.Foo;\nclass A {\n  void m() {\n    Foo f = new Foo(1);\n  }\n}\n".to_string();
    let s = parse_file_get_invocation_structure(src, "A.java".to_string(), "JAVA".to_string());
    assert_eq!(s.method_descriptions.len(), 1);
    let l = &s.method_descriptions[0];
    assert_eq!(l.method_name, "Foo");
    assert_eq!(l.var_name, "f");
    assert_eq!(l.description_data.package_name, "q");
    assert_eq!(l.description_data.class_name, "Foo");
    assert_eq!(l.count_param_input, 1);
}

#[test]
fn deeply_nested_calls_are_kept() {
    let depth = 450;
    let src = format!(
        "class A {{\n  void m() {{\n    int x = {}foo(){};\n  }}\n}}\n",
        "(".repeat(depth),
        ")".repeat(depth)
    );
    let s = parse_file_get_invocation_structure(src, "A.java".to_string(), "JAVA".to_string());
    assert_eq!(s.method_descriptions.len(), 1);
    assert_eq!(s.method_descriptions[0].method_name, "foo");
}
