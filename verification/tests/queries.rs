use codeclippy::error::ClippyError;
use codeclippy::file_visitor::RustFileVisitor;
use codeclippy::localfs::FilePath;
use codeclippy::tree::{RootNode, TreeBuilder};
use codeclippy::types::{
    FunctionBody, LineColumn, RustEnum, RustFunction, RustStruct, RustTrait, RustType, TypeRef,
    TypeShape, Visibility,
};

fn at(line: usize, column: usize) -> LineColumn {
    LineColumn { line, column }
}

fn function(name: &str, visibility: Visibility, uses: &[&str]) -> RustFunction {
    let names: Vec<String> = uses.iter().map(|s| s.to_string()).collect();
    RustFunction::new_with_data(
        name,
        visibility,
        Vec::new(),
        None,
        None,
        Some(FunctionBody::new(names, at(1, 0), at(1, 0))),
    )
}

fn named(name: &str, args: Vec<TypeShape>) -> TypeShape {
    TypeShape::Named { name: name.to_string(), args }
}

fn simple_struct(name: &str, visibility: Visibility, fields: &[(&str, &str)]) -> RustStruct {
    let mut s = RustStruct::new(name, visibility, name);
    let fields: Vec<(String, TypeRef)> = fields
        .iter()
        .map(|(field, ty)| (field.to_string(), TypeRef::new(ty, named(ty, Vec::new()))))
        .collect();
    s.add_fields(fields);
    s
}

fn point_file() -> RustFileVisitor {
    let mut a = RustFileVisitor::new(FilePath::new("", "a"));
    a.add_struct(simple_struct("Point", Visibility::Public, &[("x", "int"), ("y", "int")]));
    a
}

fn make_file() -> RustFileVisitor {
    let mut b = RustFileVisitor::new(FilePath::new("", "b"));
    b.add_function(function("make", Visibility::Inherited, &["Point"]));
    b
}

fn run(
    files: Vec<RustFileVisitor>,
    use_full_path: bool,
    filter: Option<&str>,
    dependencies: bool,
    dependents: bool,
) -> Result<Vec<RootNode>, ClippyError> {
    TreeBuilder::new(files, use_full_path).initialize_root_nodes(filter, dependencies, dependents)
}

#[test]
fn dependents_of_point_are_make_in_b() {
    let roots = run(vec![point_file(), make_file()], false, Some("Point"), false, true).unwrap();
    assert_eq!(roots.len(), 2);
    assert_eq!(roots[0].dependents().len(), 0);
    assert_eq!(roots[1].dependents().len(), 1);
    let entry = roots[1].dependents().get("make").unwrap();
    assert_eq!(entry.node().name(), "make");
    assert_eq!(entry.source(), Some("b"));
}

#[test]
fn dependencies_of_make_are_point_from_a() {
    let roots = run(vec![point_file(), make_file()], false, Some("make"), true, false).unwrap();
    assert_eq!(roots[0].dependencies().len(), 0);
    assert_eq!(roots[1].dependencies().len(), 1);
    let entry = roots[1].dependencies().get("Point").unwrap();
    assert_eq!(entry.node().name(), "Point");
    assert_eq!(entry.source(), Some("a"));
    assert!(matches!(entry.node().rtype(), RustType::Struct(_)));
}

#[test]
fn second_public_symbol_of_a_name_is_refused() {
    let mut other = RustFileVisitor::new(FilePath::new("", "c"));
    other.add_struct(simple_struct("Point", Visibility::Public, &[]));
    let result = run(vec![point_file(), other], false, None, false, false);
    assert_eq!(result.err(), Some(ClippyError::DuplicateSymbol { name: "Point".to_string() }));
}

#[test]
fn private_symbols_may_share_a_name() {
    let mut a = RustFileVisitor::new(FilePath::new("", "a"));
    a.add_struct(simple_struct("Point", Visibility::Inherited, &[]));
    let mut c = RustFileVisitor::new(FilePath::new("", "c"));
    c.add_struct(simple_struct("Point", Visibility::Restricted, &[]));
    let mut builder = TreeBuilder::new(vec![a, c], false);
    let roots = builder.initialize_root_nodes(None, false, false).unwrap();
    assert_eq!(roots.len(), 2);
    assert!(builder.global_registry().get_item_by_name("Point").is_none());
}

#[test]
fn public_enum_and_trait_are_registered() {
    let mut a = RustFileVisitor::new(FilePath::new("src", "a.rs"));
    a.add_enum(RustEnum::new_with_data("Color".to_string(), Visibility::Public, Vec::new()));
    a.add_trait(RustTrait::new_with_data("Paint".to_string(), Visibility::Public, Vec::new()));
    let mut builder = TreeBuilder::new(vec![a], false);
    builder.initialize_root_nodes(None, false, false).unwrap();
    let color = builder.global_registry().get_item_by_name("Color").unwrap();
    assert_eq!(color.source(), Some("a.rs"));
    assert_eq!(color.item().name(), "Color");
    assert!(builder.global_registry().get_item_by_name("Paint").is_some());
    assert!(builder.global_registry().get_item_by_id("Color").is_some());
    assert!(builder.global_registry().get_item_by_name("Brush").is_none());
}

#[test]
fn scoped_query_for_a_name_in_two_files_is_ambiguous() {
    let mut a = RustFileVisitor::new(FilePath::new("", "a"));
    a.add_struct(simple_struct("Foo", Visibility::Inherited, &[]));
    let mut b = RustFileVisitor::new(FilePath::new("", "b"));
    b.add_function(function("Foo", Visibility::Inherited, &[]));
    let result = run(vec![a, b], false, Some("Foo"), false, false);
    assert_eq!(
        result.err(),
        Some(ClippyError::AmbiguousFilter {
            name: "Foo".to_string(),
            candidate_files: vec!["a".to_string(), "b".to_string()],
        })
    );
}

#[test]
fn full_path_query_selects_the_named_file() {
    let mut a = RustFileVisitor::new(FilePath::new("", "a"));
    a.add_struct(simple_struct("Foo", Visibility::Inherited, &[("n", "A")]));
    let mut b = RustFileVisitor::new(FilePath::new("", "b"));
    b.add_struct(simple_struct("Foo", Visibility::Inherited, &[("n", "B")]));
    let roots = run(vec![a, b], true, Some("b::Foo"), false, false).unwrap();
    let mut from_a: Vec<RustType> = Vec::new();
    roots[0].print(&mut from_a, Some("b::Foo"), true);
    assert!(from_a.is_empty());
    let mut from_b: Vec<RustType> = Vec::new();
    roots[1].print(&mut from_b, Some("b::Foo"), true);
    assert_eq!(from_b.len(), 1);
    match &from_b[0] {
        RustType::Struct(s) => {
            assert_eq!(s.name(), "Foo");
            assert_eq!(s.fields().unwrap()[0].1.text, "B");
        }
        other => panic!("unexpected declaration {:?}", other),
    }
}

#[test]
fn forward_query_finds_local_function_and_public_type() {
    let mut a = RustFileVisitor::new(FilePath::new("", "a"));
    a.add_function(function("f", Visibility::Inherited, &["g", "T", "unknown"]));
    a.add_function(function("g", Visibility::Inherited, &[]));
    let mut t = RustFileVisitor::new(FilePath::new("", "t"));
    t.add_struct(simple_struct("T", Visibility::Public, &[]));
    let roots = run(vec![a, t], false, Some("f"), true, false).unwrap();
    let deps = roots[0].dependencies();
    assert_eq!(deps.len(), 2);
    assert_eq!(deps.id_at(0), "g");
    assert_eq!(deps.id_at(1), "T");
    assert_eq!(deps.get("g").unwrap().source(), Some("a"));
    assert_eq!(deps.get("T").unwrap().source(), Some("t"));
    assert!(deps.get("unknown").is_none());
    assert_eq!(roots[1].dependencies().len(), 0);
}

#[test]
fn recursive_function_does_not_depend_on_itself() {
    let mut a = RustFileVisitor::new(FilePath::new("", "a"));
    a.add_function(function("fact", Visibility::Inherited, &["fact", "mul"]));
    a.add_function(function("mul", Visibility::Inherited, &[]));
    let roots = run(vec![a], false, Some("fact"), true, false).unwrap();
    let deps = roots[0].dependencies();
    assert!(deps.get("fact").is_none());
    assert!(deps.get("mul").is_some());
    assert_eq!(deps.len(), 1);
}

#[test]
fn private_target_is_searched_in_its_own_file_only() {
    let mut a = RustFileVisitor::new(FilePath::new("", "a"));
    a.add_struct(simple_struct("Secret", Visibility::Inherited, &[]));
    a.add_function(function("reveal", Visibility::Inherited, &["Secret"]));
    let mut b = RustFileVisitor::new(FilePath::new("", "b"));
    b.add_function(function("guess", Visibility::Inherited, &["Secret"]));
    let roots = run(vec![a, b], false, Some("Secret"), false, true).unwrap();
    assert!(roots[0].dependents().get("reveal").is_some());
    assert_eq!(roots[0].dependents().len(), 1);
    assert_eq!(roots[1].dependents().len(), 0);
}

#[test]
fn dependents_query_without_target_is_unresolved() {
    let result = run(vec![point_file()], false, Some("Nothing"), false, true);
    assert_eq!(
        result.err(),
        Some(ClippyError::UnresolvedQueryTarget { path: "Nothing".to_string() })
    );
    let result = run(vec![point_file()], false, None, false, true);
    assert_eq!(result.err(), Some(ClippyError::UnresolvedQueryTarget { path: String::new() }));
    let result = run(vec![point_file()], true, Some("a"), false, true);
    assert_eq!(result.err(), Some(ClippyError::UnresolvedQueryTarget { path: "a".to_string() }));
}

#[test]
fn struct_field_types_are_searched_in_depth() {
    let mut a = RustFileVisitor::new(FilePath::new("dir", "a.rs"));
    a.add_struct(simple_struct("Point", Visibility::Public, &[]));
    let mut holder = RustStruct::new("Holder", Visibility::Inherited, "Holder");
    holder.add_fields(vec![(
        "points".to_string(),
        TypeRef::new(
            "HashMap<String, (u8, Vec<Point>)>",
            named(
                "HashMap",
                vec![
                    named("String", Vec::new()),
                    TypeShape::Tuple(vec![
                        named("u8", Vec::new()),
                        named("Vec", vec![named("Point", Vec::new())]),
                    ]),
                ],
            ),
        ),
    )]);
    a.add_struct(holder);
    let mut other = RustStruct::new("Other", Visibility::Inherited, "Other");
    other.add_fields(vec![(
        "r".to_string(),
        TypeRef::new("&Point", TypeShape::Other),
    )]);
    a.add_struct(other);
    a.add_enum(RustEnum::new_with_data(
        "Shape".to_string(),
        Visibility::Inherited,
        vec![
            ("Empty".to_string(), Vec::new()),
            (
                "Dot".to_string(),
                vec![TypeRef::new(
                    "Option<Point>",
                    named("Option", vec![named("Point", Vec::new())]),
                )],
            ),
        ],
    ));
    let roots = run(vec![a], false, Some("Point"), false, true).unwrap();
    let dependents = roots[0].dependents();
    assert_eq!(dependents.len(), 2);
    assert_eq!(dependents.id_at(0), "Holder");
    assert_eq!(dependents.id_at(1), "Shape");
    assert_eq!(dependents.get("Holder").unwrap().source(), Some("dir/a.rs"));
    assert!(dependents.get("Other").is_none());
    assert!(dependents.get("Point").is_none());
}

#[test]
fn type_with_dependent_method_is_a_dependent() {
    let mut a = RustFileVisitor::new(FilePath::new("", "a"));
    a.add_struct(simple_struct("Point", Visibility::Public, &[]));
    let mut user = RustStruct::new("User", Visibility::Inherited, "User");
    user.add_methods(vec![function("draw", Visibility::Public, &["Point"])]);
    a.add_struct(user);
    a.add_trait(RustTrait::new_with_data(
        "Paint".to_string(),
        Visibility::Inherited,
        vec![function("paint", Visibility::Restricted, &["Point"])],
    ));
    a.add_trait(RustTrait::new_with_data(
        "Idle".to_string(),
        Visibility::Inherited,
        vec![function("idle", Visibility::Restricted, &[])],
    ));
    let roots = run(vec![a], false, Some("Point"), false, true).unwrap();
    let dependents = roots[0].dependents();
    assert!(dependents.get("User").is_some());
    assert!(dependents.get("Paint").is_some());
    assert!(dependents.get("Idle").is_none());
    assert_eq!(dependents.len(), 2);
}
