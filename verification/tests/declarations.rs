use codeclippy::file_visitor::{find_enum, find_struct, RustFileVisitor};
use codeclippy::function_visitor::{FunctionCallVisitor, ItemNameVisitor};
use codeclippy::localfs::FilePath;
use codeclippy::tree::dependents::extract_dependents::{
    enum_dependency_on_target, extract_type_names, fn_dependency_on_target,
    struct_dependency_on_target,
};
use codeclippy::tree::dependents::find_dependents::find_identifiable_items;
use codeclippy::types::rust_function::{extract_code_from_block, receiver_str};
use codeclippy::types::{
    FunctionBody, LineColumn, RustEnum, RustFunction, RustImpl, RustStruct, RustTrait, RustType,
    TypeRef, TypeShape, Visibility,
};

fn place(line: usize, column: usize) -> LineColumn {
    LineColumn { line, column }
}

fn strings(list: &[&str]) -> Vec<String> {
    list.iter().map(|s| s.to_string()).collect()
}

fn plain(name: &str) -> TypeShape {
    TypeShape::Named { name: name.to_string(), args: Vec::new() }
}

fn generic(name: &str, args: Vec<TypeShape>) -> TypeShape {
    TypeShape::Named { name: name.to_string(), args }
}

fn using(name: &str, uses: &[&str]) -> RustFunction {
    RustFunction::new_with_data(
        name,
        Visibility::Inherited,
        Vec::new(),
        None,
        None,
        Some(FunctionBody::new(strings(uses), place(1, 0), place(1, 0))),
    )
}

#[test]
fn visibility_is_written_as_keyword() {
    assert_eq!(Visibility::Public.to_string(), "pub");
    assert_eq!(Visibility::Restricted.to_string(), "");
    assert_eq!(Visibility::Inherited.to_string(), "");
    assert_eq!(Visibility::Public.prefix_str(), "pub ");
    assert_eq!(Visibility::Inherited.prefix_str(), "");
}

#[test]
fn file_path_joins_base_and_relative_path() {
    assert_eq!(FilePath::new("src", "a.rs").real_path(), "src/a.rs");
    assert_eq!(FilePath::new("src/", "a.rs").real_path(), "src/a.rs");
    assert_eq!(FilePath::new("", "a.rs").real_path(), "a.rs");
    assert_eq!(FilePath::new("src", "/abs/a.rs").real_path(), "/abs/a.rs");
    assert_eq!(FilePath::new("src", "").real_path(), "src/");
    assert_eq!(FilePath::new("/", "a.rs").real_path(), "/a.rs");
    assert_eq!(FilePath::new("src", "dir/a.rs").relative_path(), "dir/a.rs");
    let path = FilePath::new("src", "a.rs");
    assert_eq!(path.clone(), path);
}

#[test]
fn new_function_knows_only_its_name() {
    let f = RustFunction::new(Visibility::Restricted, "call");
    assert_eq!(f.id(), "call");
    assert_eq!(f.name(), "call");
    assert_eq!(f.visibility(), &Visibility::Restricted);
    assert!(f.instantiated_items().is_empty());
    assert!(f.uses().is_empty());
    assert!(!f.uses_name("call"));
    assert_eq!(f.signature_str(), "fn call()");
    assert_eq!(f.body_str(None), "");
    assert_eq!(f.function_block_str(None), "fn call()");
}

#[test]
fn body_is_read_once() {
    let mut f = using("f", &["a", "B", "a", "c"]);
    assert!(f.instantiated_items().is_empty());
    assert!(f.uses_name("B"));
    assert!(!f.uses_name("b"));
    assert_eq!(f.uses(), strings(&["a", "B", "c"]));
    f.extract_function_body();
    assert_eq!(f.instantiated_items(), &strings(&["a", "B", "c"]));
    f.extract_function_body();
    assert_eq!(f.instantiated_items(), &strings(&["a", "B", "c"]));
    assert_eq!(f.uses(), strings(&["a", "B", "c"]));
    assert_eq!(f.clone(), f);
}

#[test]
fn signature_is_written_with_inputs_and_output() {
    let f = RustFunction::new_with_data(
        "scale",
        Visibility::Public,
        vec![
            ("&mut self".to_string(), String::new()),
            ("by".to_string(), "f64".to_string()),
            (String::new(), "(u8, u8)".to_string()),
        ],
        Some("Self".to_string()),
        None,
        None,
    );
    assert_eq!(f.signature_str(), "pub fn scale(&mut self, by: f64, : (u8, u8))-> Self");
    let g = RustFunction::new_with_data("g", Visibility::Inherited, Vec::new(), None, None, None);
    assert_eq!(g.signature_str(), "fn g()");
}

#[test]
fn body_text_is_cut_out_of_the_lines_of_the_file() {
    let lines = strings(&["fn f() {", "    let x = 1;", "", "    x", "} // end"]);
    let f = RustFunction::new_with_data(
        "f",
        Visibility::Inherited,
        Vec::new(),
        None,
        Some(FilePath::new("", "a.rs")),
        Some(FunctionBody::new(Vec::new(), place(1, 7), place(5, 1))),
    );
    assert_eq!(f.body_str(Some(&lines)), "{\n    let x = 1;\n\n    x\n}\n");
    assert_eq!(f.function_block_str(Some(&lines)), "fn f(){\n    let x = 1;\n\n    x\n}\n");
    assert_eq!(f.body_str(None), "Error extracting code");
    assert_eq!(f.body_str(Some(&strings(&["fn f() {"]))), "Error extracting code");
    let declared = RustFunction::new_with_data(
        "d",
        Visibility::Inherited,
        Vec::new(),
        None,
        Some(FilePath::new("", "a.rs")),
        None,
    );
    assert_eq!(declared.body_str(Some(&lines)), ";");
    assert_eq!(declared.function_block_str(None), "fn d();");
}

#[test]
fn code_is_extracted_between_two_places() {
    let lines = strings(&["zero { one }", "two", "", "three } four"]);
    assert_eq!(
        extract_code_from_block(place(1, 5), place(1, 12), &lines),
        Some("{ one }".to_string())
    );
    assert_eq!(
        extract_code_from_block(place(1, 5), place(4, 7), &lines),
        Some("{ one }\ntwo\n\nthree }".to_string())
    );
    assert_eq!(
        extract_code_from_block(place(2, 1), place(3, 5), &lines),
        Some("wo\n".to_string())
    );
    assert_eq!(
        extract_code_from_block(place(1, 50), place(2, 50), &lines),
        Some("\ntwo".to_string())
    );
    assert_eq!(extract_code_from_block(place(0, 0), place(1, 1), &lines), None);
    assert_eq!(extract_code_from_block(place(3, 0), place(2, 0), &lines), None);
    assert_eq!(extract_code_from_block(place(1, 0), place(5, 0), &lines), None);
}

#[test]
fn struct_is_written_with_fields_and_methods() {
    let mut s = RustStruct::new("id-1", Visibility::Public, "Point");
    assert_eq!(s.id(), "id-1");
    assert_eq!(s.name(), "Point");
    assert_eq!(s.visibility(), &Visibility::Public);
    assert!(s.fields().is_none());
    assert!(s.methods().is_none());
    assert_eq!(s.struct_base_block_str(), "pub struct Point {\n}\n");
    assert_eq!(s.struct_impl_block_str(None), "");
    s.add_fields(vec![("x".to_string(), TypeRef::new("i32", plain("i32")))]);
    s.add_fields(vec![("tags".to_string(), TypeRef::new("Vec < Tag >", plain("Vec")))]);
    assert_eq!(s.fields().unwrap().len(), 2);
    assert_eq!(
        s.struct_base_block_str(),
        "pub struct Point {\n    x: i32,\n    tags: Vec < Tag >,\n}\n"
    );
    s.add_methods(vec![RustFunction::new(Visibility::Public, "new")]);
    s.add_methods(vec![RustFunction::new(Visibility::Inherited, "len")]);
    assert_eq!(s.methods().unwrap().len(), 2);
    assert_eq!(s.struct_impl_block_str(None), "impl Point {\npub fn new()\nfn len()\n}\n");
    assert_eq!(
        s.block_str(None),
        "pub struct Point {\n    x: i32,\n    tags: Vec < Tag >,\n}\nimpl Point {\npub fn \
         new()\nfn len()\n}\n"
    );
    assert_eq!(s.clone(), s);
}

#[test]
fn enum_is_written_with_variants_and_methods() {
    let mut e = RustEnum::new_with_data(
        "Shape".to_string(),
        Visibility::Inherited,
        vec![
            ("Empty".to_string(), Vec::new()),
            ("Dot".to_string(), vec![TypeRef::new("Point", plain("Point"))]),
            (
                "Line".to_string(),
                vec![TypeRef::new("Point", plain("Point")), TypeRef::new("u8", plain("u8"))],
            ),
        ],
    );
    assert_eq!(e.id(), "Shape");
    assert_eq!(e.name(), "Shape");
    assert_eq!(e.variants().len(), 3);
    assert!(e.methods().is_none());
    assert_eq!(
        e.enum_base_block_str(),
        "enum Shape {\n    Empty,\n    Dot(Point),\n    Line(Point, u8),\n}\n"
    );
    assert_eq!(e.enum_impl_block_str(None), "");
    e.add_methods(vec![RustFunction::new(Visibility::Inherited, "area")]);
    assert_eq!(e.enum_impl_block_str(None), "impl Shape {\nfn area()\n}\n");
    assert_eq!(e.block_str(None), format!("{}{}", e.enum_base_block_str(), "impl Shape {\nfn area()\n}\n"));
    assert_eq!(e.clone(), e);
}

#[test]
fn trait_and_impl_are_written_with_their_methods() {
    let t = RustTrait::new_with_data(
        "Draw".to_string(),
        Visibility::Public,
        vec![
            RustFunction::new(Visibility::Restricted, "draw"),
            RustFunction::new(Visibility::Restricted, "erase"),
        ],
    );
    assert_eq!(t.id(), "Draw");
    assert_eq!(t.methods().unwrap().len(), 2);
    assert_eq!(t.trait_block_str(None), "pub trait Draw {\n    fn draw()    fn erase()}\n");
    let i = RustImpl::new_with_data(
        "Point".to_string(),
        vec![RustFunction::new(Visibility::Public, "new")],
    );
    assert_eq!(i.id(), "Point");
    assert_eq!(i.name(), "Point");
    assert_eq!(i.visibility(), Visibility::Public);
    assert_eq!(i.block_str(None), "impl Point {\npub fn new()\n\n}");
    assert_eq!(t.clone(), t);
    assert_eq!(i.clone(), i);
}

#[test]
fn declaration_of_any_kind_answers_for_its_kind() {
    let f = RustType::Function(RustFunction::new(Visibility::Public, "f"));
    let mut s = RustStruct::new("S", Visibility::Inherited, "S");
    s.add_methods(vec![RustFunction::new(Visibility::Inherited, "m")]);
    let s = RustType::Struct(s);
    assert_eq!(f.id(), "f");
    assert_eq!(f.name(), "f");
    assert!(f.is_public());
    assert!(f.methods().is_none());
    assert_eq!(f.block_str(None), "pub fn f()");
    assert_eq!(s.name(), "S");
    assert!(!s.is_public());
    assert_eq!(s.visibility(), &Visibility::Inherited);
    assert_eq!(s.methods().unwrap().len(), 1);
    assert_eq!(s.as_rust_type(), Some(&s));
    assert_eq!(s.block_str(None), "struct S {\n}\nimpl S {\nfn m()\n}\n");
    assert_eq!(s.clone(), s);
}

#[test]
fn type_names_are_read_in_depth_and_in_order() {
    let shape = generic(
        "HashMap",
        vec![
            plain("String"),
            TypeShape::Tuple(vec![
                generic("Vec", vec![plain("Point")]),
                TypeShape::Other,
                TypeShape::Tuple(Vec::new()),
            ]),
            generic("Option", vec![generic("Box", vec![plain("Line")])]),
        ],
    );
    let mut names = vec!["seen".to_string()];
    extract_type_names(&shape, &mut names);
    assert_eq!(
        names,
        strings(&["seen", "HashMap", "String", "Vec", "Point", "Option", "Box", "Line"])
    );
    let mut none = Vec::new();
    extract_type_names(&TypeShape::Other, &mut none);
    assert!(none.is_empty());
    assert_eq!(shape.clone(), shape);
}

#[test]
fn declarations_are_checked_for_the_target_name() {
    assert!(fn_dependency_on_target(&using("f", &["a", "Point"]), "Point"));
    assert!(!fn_dependency_on_target(&using("f", &["a", "Point"]), "Poin"));
    let mut s = RustStruct::new("S", Visibility::Inherited, "S");
    assert!(!struct_dependency_on_target(&s, "Point"));
    s.add_fields(vec![
        ("a".to_string(), TypeRef::new("u8", plain("u8"))),
        ("b".to_string(), TypeRef::new("Vec<Point>", generic("Vec", vec![plain("Point")]))),
    ]);
    assert!(struct_dependency_on_target(&s, "Point"));
    assert!(struct_dependency_on_target(&s, "Vec"));
    assert!(!struct_dependency_on_target(&s, "b"));
    let e = RustEnum::new_with_data(
        "E".to_string(),
        Visibility::Inherited,
        vec![
            ("A".to_string(), Vec::new()),
            ("B".to_string(), vec![TypeRef::new("(u8, Point)", TypeShape::Tuple(vec![plain("u8"), plain("Point")]))]),
        ],
    );
    assert!(enum_dependency_on_target(&e, "Point"));
    assert!(!enum_dependency_on_target(&e, "A"));
}

#[test]
fn dependent_items_are_methods_first_then_the_item() {
    let target = RustType::Struct(RustStruct::new("Point", Visibility::Public, "Point"));
    let mut user = RustStruct::new("User", Visibility::Inherited, "User");
    user.add_fields(vec![("p".to_string(), TypeRef::new("Point", plain("Point")))]);
    user.add_methods(vec![using("a", &["Point"]), using("b", &[]), using("c", &["Point"])]);
    let found = find_identifiable_items(&RustType::Struct(user), &target);
    let names: Vec<&str> = found.iter().map(|t| t.name()).collect();
    assert_eq!(names, vec!["a", "c", "User"]);
    let itself = find_identifiable_items(&target, &target);
    assert!(itself.is_empty());
    let mut same_id = RustStruct::new("Point", Visibility::Inherited, "Other");
    same_id.add_fields(vec![("p".to_string(), TypeRef::new("Point", plain("Point")))]);
    assert!(find_identifiable_items(&RustType::Struct(same_id), &target).is_empty());
    let t = RustTrait::new_with_data(
        "T".to_string(),
        Visibility::Inherited,
        vec![using("Point", &["Point"]), using("m", &["Point"])],
    );
    let found = find_identifiable_items(&RustType::Trait(t), &target);
    let names: Vec<&str> = found.iter().map(|t| t.name()).collect();
    assert_eq!(names, vec!["m"]);
}

#[test]
fn call_visitor_gathers_last_segment_of_calls_and_first_of_structs() {
    let mut visitor = FunctionCallVisitor::default();
    visitor.visit_expr_call(&strings(&["std", "mem", "swap"]));
    visitor.visit_expr_call(&strings(&["helper"]));
    visitor.visit_expr_call(&Vec::new());
    visitor.visit_expr_struct(&strings(&["Point"]));
    visitor.visit_expr_struct(&strings(&["shapes", "Circle"]));
    visitor.visit_expr_call(&strings(&["swap"]));
    visitor.visit_expr_struct(&Vec::new());
    assert_eq!(visitor.instantiated_items, strings(&["swap", "helper", "Point", "shapes"]));
    let called: Vec<&str> = visitor.functions.iter().map(|f| f.name()).collect();
    assert_eq!(called, vec!["swap", "helper", "swap"]);
    assert_eq!(visitor.functions[0].visibility(), &Visibility::Restricted);
    let body = visitor.into_body(place(3, 4), place(9, 1));
    assert_eq!(body.names, strings(&["swap", "helper", "Point", "shapes"]));
    assert_eq!(body.start, place(3, 4));
    assert_eq!(body.end, place(9, 1));
}

#[test]
fn name_visitor_gathers_plain_identifiers() {
    let mut visitor = ItemNameVisitor::new();
    assert!(visitor.item_names.is_empty());
    visitor.visit_expr_path(Some("x"));
    visitor.visit_expr_path(None);
    visitor.visit_expr_path(Some("y"));
    visitor.visit_expr_path(Some("x"));
    assert_eq!(visitor.item_names, strings(&["x", "y"]));
}

#[test]
fn methods_of_impl_blocks_go_to_their_types() {
    let mut file = RustFileVisitor::new(FilePath::new("", "a.rs"));
    file.add_struct(RustStruct::new("Point", Visibility::Inherited, "Point"));
    file.add_struct(RustStruct::new("Line", Visibility::Inherited, "Line"));
    file.add_enum(RustEnum::new_with_data("Shape".to_string(), Visibility::Inherited, Vec::new()));
    file.add_impl(RustImpl::new_with_data("Point".to_string(), vec![using("new", &[])]));
    file.add_impl(RustImpl::new_with_data("Shape".to_string(), vec![using("area", &[])]));
    file.add_impl(RustImpl::new_with_data("Point".to_string(), vec![using("len", &[])]));
    file.add_impl(RustImpl::new_with_data("Missing".to_string(), vec![using("lost", &[])]));
    file.associate_methods();
    let point: Vec<&str> = file.structs()[0].methods().unwrap().iter().map(|m| m.name()).collect();
    assert_eq!(point, vec!["new", "len"]);
    assert!(file.structs()[1].methods().is_none());
    let shape: Vec<&str> = file.enums()[0].methods().unwrap().iter().map(|m| m.name()).collect();
    assert_eq!(shape, vec!["area"]);
    assert_eq!(file.impls().len(), 4);
    assert_eq!(find_struct(file.structs(), "Line"), Some(1));
    assert_eq!(find_struct(file.structs(), "Shape"), None);
    assert_eq!(find_enum(file.enums(), "Shape"), Some(0));
    assert_eq!(file.file_path().relative_path(), "a.rs");
    assert!(file.functions().is_empty());
    assert!(file.traits().is_empty());
}

#[test]
fn formatter_result_replaces_the_text_only_on_success() {
    let mut text = "fn  f ( ) { }".to_string();
    codeclippy::types::handle_pretty_print_result::<()>(&mut text, Err(()));
    assert_eq!(text, "fn  f ( ) { }");
    codeclippy::types::handle_pretty_print_result::<()>(&mut text, Ok("fn f() {}\n".to_string()));
    assert_eq!(text, "fn f() {}\n");
}

#[test]
fn receiver_is_written_as_in_the_source() {
    assert_eq!(receiver_str(false, None, false), "self");
    assert_eq!(receiver_str(false, None, true), "mut self");
    assert_eq!(receiver_str(true, None, false), "&self");
    assert_eq!(receiver_str(true, None, true), "&mut self");
    assert_eq!(receiver_str(true, Some("'a"), true), "&'a mut self");
    assert_eq!(receiver_str(true, Some("'a"), false), "&'a self");
    assert_eq!(receiver_str(false, Some("'a"), false), "self");
}
