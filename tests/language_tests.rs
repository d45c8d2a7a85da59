use code_navigation::parser::{parse_file_get_dto, parse_file_get_invocation_structure};

fn dto_summary(src: &str, path: &str, language: &str) -> Vec<(String, String, String, String, usize, usize)> {
    parse_file_get_dto(src.to_string(), 3, path.to_string(), language.to_string())
        .iter()
        .map(|d| {
            (
                d.method_type.clone(),
                d.package_name.clone(),
                d.class_name.clone(),
                d.method_name.clone(),
                d.line_code,
                d.count_of_parameters,
            )
        })
        .collect()
}

fn row(code: &str, package: &str, class: &str, method: &str, line: usize, params: usize) -> (String, String, String, String, usize, usize) {
    (code.to_string(), package.to_string(), class.to_string(), method.to_string(), line, params)
}

#[test]
fn python_declarations() {
    let src = "class Shape:\n    def __init__(self, w, h=2):\n        pass\n    def area(self):\n        return 1\n\nclass Color(Enum):\n    pass\n\ndef helper(x: int, *rest):\n    pass\n";
    let rows = dto_summary(src, "pkg/shapes.py", "PYTHON");
    assert_eq!(rows, vec![
        row("PYTHON_PACKAGE", "pkg.shapes", "", "", 0, 0),
        row("PYTHON_CLASS", "pkg.shapes", "Shape", "", 1, 0),
        row("PYTHON_CONSTRUCTOR", "pkg.shapes", "Shape", "Shape", 1, 0),
        row("PYTHON_CONSTRUCTOR", "pkg.shapes", "Shape", "Shape", 2, 2),
        row("PYTHON_METHOD", "pkg.shapes", "Shape", "area", 4, 0),
        row("PYTHON_ENUM", "pkg.shapes", "Color", "", 7, 0),
        row("PYTHON_CONSTRUCTOR", "pkg.shapes", "Color", "Color", 7, 0),
        row("PYTHON_METHOD", "pkg.shapes", "", "helper", 10, 1),
    ]);
}

#[test]
fn python_zero_argument_init_is_not_synthesized_again() {
    let src = "class A:\n    def __init__(self):\n        pass\n";
    let rows = dto_summary(src, "a.py", "PYTHON");
    assert_eq!(rows, vec![
        row("PYTHON_PACKAGE", "a", "", "", 0, 0),
        row("PYTHON_CLASS", "a", "A", "", 1, 0),
        row("PYTHON_CONSTRUCTOR", "a", "A", "A", 2, 0),
    ]);
}

#[test]
fn python_invocations() {
    let src = "import os.path\nfrom m import X, Y as Z\nfrom m import W\n\ndef f(p: X):\n    p.run(1, 2)\n    os.path.join()\n    g()\n";
    let s = parse_file_get_invocation_structure(src.to_string(), "a.py".to_string(), "PYTHON".to_string());
    let imports: Vec<(String, Vec<String>)> = s
        .repository_import_declarations
        .iter()
        .map(|d| (d.package_name.clone(), d.class_import_list.clone()))
        .collect();
    assert_eq!(imports, vec![
        ("os.path".to_string(), vec!["os.path".to_string()]),
        ("m".to_string(), vec!["X".to_string(), "Z".to_string(), "W".to_string()]),
    ]);
    assert_eq!(s.type_codes, vec!["PYTHON_METHOD", "PYTHON_PACKAGE", "PYTHON_CLASS", "PYTHON_ENUM", "PYTHON_CONSTRUCTOR"]);
    let links = &s.method_descriptions;
    assert_eq!(links.len(), 3);
    assert_eq!(links[0].method_name, "run");
    assert_eq!(links[0].var_name, "p");
    assert_eq!(links[0].description_data.package_name, "m");
    assert_eq!(links[0].description_data.class_name, "X");
    assert_eq!(links[0].count_param_input, 2);
    assert_eq!(links[0].description_data.line, 6);
    assert_eq!(links[1].method_name, "join");
    assert_eq!(links[1].var_name, "");
    assert_eq!(links[2].method_name, "g");
    assert_eq!(links[2].var_name, "self");
}

#[test]
fn python_self_call_fans_out_over_base_classes() {
    let src = "class B(A, C):\n    def f(self):\n        self.m()\n";
    let s = parse_file_get_invocation_structure(src.to_string(), "b.py".to_string(), "PYTHON".to_string());
    let links = &s.method_descriptions;
    assert_eq!(links.len(), 3);
    for l in links {
        assert_eq!(l.description_data.class_name, "B");
        assert_eq!(l.method_name, "m");
        assert_eq!(l.var_name, "self");
        assert_eq!(l.description_data.line, 3);
    }
}

#[test]
fn javascript_declarations() {
    let src = "class Cat extends Animal {\n  constructor(name) {}\n  speak(a, b = 2) {}\n}\nfunction greet(name) {}\nconst add = (a, b) => a + b;\nconst sq = x => x * x;\nvar f = function named(p) {};\n";
    let rows = dto_summary(src, "src/app.js", "JS");
    assert_eq!(rows, vec![
        row("JS_PACKAGE", "src/app.js", "", "", 0, 0),
        row("JS_CLASS", "src/app.js", "Cat", "", 1, 0),
        row("JS_CONSTRUCTOR", "src/app.js", "Cat", "Cat", 1, 0),
        row("JS_CONSTRUCTOR", "src/app.js", "Cat", "Cat", 2, 1),
        row("JS_METHOD", "src/app.js", "Cat", "speak", 3, 2),
        row("JS_METHOD", "src/app.js", "", "greet", 5, 1),
        row("JS_METHOD", "src/app.js", "", "add", 6, 2),
        row("JS_METHOD", "src/app.js", "", "sq", 7, 1),
        row("JS_METHOD", "src/app.js", "", "f", 8, 1),
        row("JS_METHOD", "src/app.js", "", "named", 8, 1),
    ]);
}

#[test]
fn javascript_invocations() {
    let src = "class B extends A {\n  constructor() {\n    super(1);\n    this.m(2);\n  }\n}\nfoo(1, 2);\nrequire('x');\nobj.bar();\n";
    let s = parse_file_get_invocation_structure(src.to_string(), "b.js".to_string(), "JS".to_string());
    assert!(s.repository_import_declarations.is_empty());
    assert_eq!(s.type_codes, vec!["JS_PACKAGE", "JS_CLASS", "JS_METHOD", "JS_CONSTRUCTOR"]);
    let summary: Vec<(String, String, String, String, usize)> = s
        .method_descriptions
        .iter()
        .map(|l| (
            l.description_data.package_name.clone(),
            l.description_data.class_name.clone(),
            l.var_name.clone(),
            l.method_name.clone(),
            l.count_param_input,
        ))
        .collect();
    let r = |p: &str, c: &str, v: &str, m: &str, n: usize| (p.to_string(), c.to_string(), v.to_string(), m.to_string(), n);
    assert_eq!(summary, vec![
        r("b.js", "", "", "A", 1),
        r("b.js", "B", "this", "m", 1),
        r("b.js", "B", "this", "m", 1),
        r("b.js", "", "", "foo", 2),
        r("b.js", "obj", "obj", "bar", 0),
    ]);
}

#[test]
fn rejected_javascript_yields_nothing() {
    let dtos = parse_file_get_dto("function a() {}\n".to_string(), 1, "x/a.min.js".to_string(), "JS".to_string());
    assert!(dtos.is_empty());
    let s = parse_file_get_invocation_structure("a();".to_string(), "x/a.js".to_string(), "JS".to_string());
    assert!(s.method_descriptions.is_empty());
    assert!(s.type_codes.is_empty());
}

#[test]
fn typescript_goes_through_the_javascript_passes() {
    let src = "function greet(name) {\n  helper(name);\n}\n";
    let rows = dto_summary(src, "src/a.ts", "TS");
    assert_eq!(rows, vec![
        row("JS_PACKAGE", "src/a.ts", "", "", 0, 0),
        row("JS_METHOD", "src/a.ts", "", "greet", 1, 1),
    ]);
    let s = parse_file_get_invocation_structure(src.to_string(), "src/a.ts".to_string(), "TS".to_string());
    assert_eq!(s.type_codes, vec!["JS_PACKAGE", "JS_CLASS", "JS_METHOD", "JS_CONSTRUCTOR"]);
    assert_eq!(s.method_descriptions.len(), 1);
    assert_eq!(s.method_descriptions[0].method_name, "helper");
    assert!(parse_file_get_dto(src.to_string(), 1, "a.min.ts".to_string(), "TS".to_string()).is_empty());
}

#[test]
fn cpp_declarations() {
    let src = "namespace geo {\nclass Point {\n public:\n  Point(int x, int y);\n  int norm() const;\n  struct { int a; void inner(); };\n};\nenum Color { Red };\n}\nint geo::Point::norm() const { return 0; }\ntemplate <typename T> T id(T v) { return v; }\n#ifdef DEBUG\nvoid trace(int level);\n#else\nvoid quiet();\n#endif\n#define MAX(a, b) a\n";
    let rows = dto_summary(src, "g.cc", "CPP");
    assert_eq!(rows, vec![
        row("CPP_PACKAGE", "g.cc", "", "", 0, 0),
        row("CPP_PACKAGE", "geo", "", "", 1, 0),
        row("CPP_CLASS", "geo", "Point", "", 2, 0),
        row("CPP_CONSTRUCTOR", "geo", "Point", "Point", 2, 0),
        row("CPP_CONSTRUCTOR", "geo", "Point", "Point", 4, 2),
        row("CPP_METHOD", "geo", "Point", "norm", 5, 0),
        row("CPP_METHOD", "geo", "Point", "inner", 6, 0),
        row("CPP_ENUM", "geo", "Color", "", 8, 0),
        row("CPP_METHOD", "g.cc", "Point", "norm", 10, 0),
        row("CPP_METHOD", "g.cc", "", "id", 11, 1),
        row("CPP_METHOD", "g.cc", "", "trace", 13, 1),
        row("CPP_METHOD", "g.cc", "", "quiet", 15, 0),
        row("CPP_METHOD", "g.cc", "", "MAX", 17, 2),
    ]);
}

#[test]
fn cpp_declared_default_constructor_is_not_synthesized_again() {
    let rows = dto_summary("struct S {\n  S();\n};\n", "s.h", "CPP");
    assert_eq!(rows, vec![
        row("CPP_PACKAGE", "s.h", "", "", 0, 0),
        row("CPP_CLASS", "s.h", "S", "", 1, 0),
        row("CPP_CONSTRUCTOR", "s.h", "S", "S", 2, 0),
    ]);
}

#[test]
fn cpp_invocations() {
    let src = "class B : public A {\n  void f() {\n    this->g(1);\n    Widget w;\n    w.draw(2, 3);\n    Helper h(4);\n    int n = 5;\n    ns::run();\n  }\n};\n";
    let s = parse_file_get_invocation_structure(src.to_string(), "b.cc".to_string(), "CPP".to_string());
    assert_eq!(s.repository_import_declarations.len(), 1);
    assert_eq!(s.repository_import_declarations[0].package_name, "b.cc");
    assert_eq!(s.type_codes, vec!["CPP_PACKAGE", "CPP_CLASS", "CPP_ENUM", "CPP_CONSTRUCTOR", "CPP_METHOD"]);
    let summary: Vec<(String, String, String, usize, usize)> = s
        .method_descriptions
        .iter()
        .map(|l| (
            l.description_data.class_name.clone(),
            l.var_name.clone(),
            l.method_name.clone(),
            l.count_param_input,
            l.description_data.line,
        ))
        .collect();
    let r = |c: &str, v: &str, m: &str, n: usize, line: usize| (c.to_string(), v.to_string(), m.to_string(), n, line);
    assert_eq!(summary, vec![
        r("", "", "g", 1, 3),
        r("Widget", "w", "Widget", 0, 4),
        r("Widget", "w", "draw", 2, 5),
        r("Helper", "h", "Helper", 0, 6),
        r("Helper", "h", "Helper", 1, 6),
        r("", "", "run", 0, 8),
    ]);
}
