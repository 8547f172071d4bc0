use codeclippy::file_visitor::RustFileVisitor;
use codeclippy::localfs::FilePath;
use codeclippy::registry::GlobalRegistry;
use codeclippy::tree::initialize::ChunkInitializer;
use codeclippy::tree::{RootNode, TreeNode};
use codeclippy::types::{
    FunctionBody, LineColumn, RustEnum, RustFunction, RustStruct, RustTrait, RustType, Visibility,
};

fn body(uses: &[&str]) -> FunctionBody {
    FunctionBody::new(
        uses.iter().map(|s| s.to_string()).collect(),
        LineColumn { line: 1, column: 0 },
        LineColumn { line: 1, column: 2 },
    )
}

fn func(name: &str, uses: &[&str]) -> RustFunction {
    RustFunction::new_with_data(
        name,
        Visibility::Inherited,
        Vec::new(),
        None,
        None,
        Some(body(uses)),
    )
}

fn structure(name: &str, methods: Vec<RustFunction>) -> RustStruct {
    let mut s = RustStruct::new(name, Visibility::Inherited, name);
    if !methods.is_empty() {
        s.add_methods(methods);
    }
    s
}

fn build(file: &RustFileVisitor) -> RootNode {
    let mut registry = GlobalRegistry::default();
    ChunkInitializer::new(file).initialize_tree(&mut registry).unwrap()
}

fn child_names(node: &TreeNode) -> Vec<String> {
    match node.children() {
        Some(children) => children.iter().map(|c| c.name().to_string()).collect(),
        None => Vec::new(),
    }
}

fn links_on_paths(node: &TreeNode, path: &mut Vec<String>, longest: &mut usize) {
    if let Some(target) = &node.link {
        assert!(!path.contains(&node.name().to_string()), "{} is linked twice", node.name());
        path.push(node.name().to_string());
        *longest = (*longest).max(path.len());
        links_on_paths(target, path, longest);
        path.pop();
    }
    if let Some(children) = node.children() {
        for child in children {
            links_on_paths(child, path, longest);
        }
    }
}

#[test]
fn top_level_nodes_come_kind_by_kind() {
    let mut file = RustFileVisitor::new(FilePath::new("", "a.rs"));
    file.add_trait(RustTrait::new_with_data("T".to_string(), Visibility::Inherited, Vec::new()));
    file.add_enum(RustEnum::new_with_data("E".to_string(), Visibility::Inherited, Vec::new()));
    file.add_struct(structure("S", Vec::new()));
    file.add_function(func("f", &[]));
    file.add_function(func("g", &[]));
    let root = build(&file);
    let names: Vec<&str> = root.children().iter().map(|c| c.name()).collect();
    assert_eq!(names, vec!["f", "g", "S", "E", "T"]);
    assert_eq!(root.file_path().relative_path(), "a.rs");
    assert_eq!(root.dependencies().len(), 0);
    assert_eq!(root.dependents().len(), 0);
    assert!(root.has_child_named("S"));
    assert!(!root.has_child_named("X"));
    assert_eq!(root.find_child_by_name("g").unwrap().name(), "g");
    assert!(root.find_child_by_name("h").is_none());
}

#[test]
fn function_node_holds_the_function_with_its_body_read() {
    let mut file = RustFileVisitor::new(FilePath::new("", "a.rs"));
    file.add_function(func("f", &["g", "Missing", "g"]));
    let root = build(&file);
    let node = &root.children()[0];
    assert!(node.children().is_none());
    match node.rtype() {
        RustType::Function(f) => {
            assert_eq!(f.instantiated_items(), &vec!["g".to_string(), "Missing".to_string()]);
        }
        other => panic!("unexpected declaration {:?}", other),
    }
}

#[test]
fn used_struct_of_the_file_is_linked_with_its_methods() {
    let mut file = RustFileVisitor::new(FilePath::new("", "a.rs"));
    file.add_function(func("f", &["helper", "Point", "Elsewhere"]));
    file.add_struct(structure("Point", vec![func("new", &[]), func("norm", &["sqrt"])]));
    let root = build(&file);
    let f = &root.children()[0];
    assert_eq!(child_names(f), vec!["Point"]);
    let link = &f.children().as_ref().unwrap()[0];
    assert!(link.children().is_none());
    assert!(matches!(link.rtype(), RustType::Struct(_)));
    let target = link.link.as_ref().unwrap();
    assert_eq!(target.name(), "Point");
    assert!(target.link.is_none());
    assert_eq!(child_names(target), vec!["new", "norm"]);
    let top = &root.children()[1];
    assert_eq!(top.name(), "Point");
    assert!(top.link.is_none());
    assert_eq!(child_names(top), vec!["new", "norm"]);
}

#[test]
fn struct_is_linked_once_within_a_top_level_declaration() {
    let mut file = RustFileVisitor::new(FilePath::new("", "a.rs"));
    file.add_function(func("f", &["A", "B"]));
    file.add_function(func("g", &["B"]));
    file.add_struct(structure("A", vec![func("a", &["B"])]));
    file.add_struct(structure("B", vec![func("b", &[])]));
    let root = build(&file);
    let f = &root.children()[0];
    assert_eq!(child_names(f), vec!["A"]);
    let a = f.children().as_ref().unwrap()[0].link.as_ref().unwrap();
    let method = &a.children().as_ref().unwrap()[0];
    assert_eq!(child_names(method), vec!["B"]);
    let g = &root.children()[1];
    assert_eq!(child_names(g), vec!["B"]);
}

#[test]
fn structs_that_use_each_other_are_built_and_linked_once() {
    let mut file = RustFileVisitor::new(FilePath::new("", "a.rs"));
    file.add_function(func("start", &["A"]));
    file.add_struct(structure("A", vec![func("to_b", &["B", "A"])]));
    file.add_struct(structure("B", vec![func("to_a", &["A", "B"])]));
    let root = build(&file);
    assert_eq!(root.children().len(), 3);
    for node in root.children() {
        let mut path = Vec::new();
        let mut longest = 0;
        links_on_paths(node, &mut path, &mut longest);
        assert!(longest <= 2);
    }
    let start = &root.children()[0];
    let a = start.children().as_ref().unwrap()[0].link.as_ref().unwrap();
    let to_b = &a.children().as_ref().unwrap()[0];
    assert_eq!(child_names(to_b), vec!["B"]);
    let b = to_b.children().as_ref().unwrap()[0].link.as_ref().unwrap();
    let to_a = &b.children().as_ref().unwrap()[0];
    assert!(to_a.children().is_none());
    let top_a = &root.children()[1];
    assert_eq!(child_names(&top_a.children().as_ref().unwrap()[0]), vec!["B"]);
    let top_b = &root.children()[2];
    assert_eq!(child_names(&top_b.children().as_ref().unwrap()[0]), vec!["A"]);
}

#[test]
fn struct_that_uses_itself_is_not_linked_below_itself() {
    let mut file = RustFileVisitor::new(FilePath::new("", "a.rs"));
    file.add_struct(structure("Node", vec![func("next", &["Node"])]));
    let root = build(&file);
    let node = &root.children()[0];
    assert_eq!(child_names(node), vec!["next"]);
    assert!(node.children().as_ref().unwrap()[0].children().is_none());
}

#[test]
fn methods_of_enums_and_traits_are_expanded() {
    let mut file = RustFileVisitor::new(FilePath::new("", "a.rs"));
    file.add_struct(structure("Point", Vec::new()));
    let mut shape = RustEnum::new_with_data("Shape".to_string(), Visibility::Inherited, Vec::new());
    shape.add_methods(vec![func("center", &["Point"])]);
    file.add_enum(shape);
    file.add_trait(RustTrait::new_with_data(
        "Draw".to_string(),
        Visibility::Inherited,
        vec![func("draw", &["Point"]), func("erase", &[])],
    ));
    let root = build(&file);
    let shape = &root.children()[1];
    assert_eq!(child_names(shape), vec!["center"]);
    assert_eq!(child_names(&shape.children().as_ref().unwrap()[0]), vec!["Point"]);
    let draw = &root.children()[2];
    assert_eq!(child_names(draw), vec!["draw", "erase"]);
    assert_eq!(child_names(&draw.children().as_ref().unwrap()[0]), vec!["Point"]);
    assert!(draw.children().as_ref().unwrap()[1].children().is_none());
}

#[test]
fn first_struct_of_a_name_is_the_one_linked() {
    let mut file = RustFileVisitor::new(FilePath::new("", "a.rs"));
    file.add_function(func("f", &["Twice"]));
    file.add_struct(structure("Twice", vec![func("first", &[])]));
    file.add_struct(structure("Twice", vec![func("second", &[])]));
    let root = build(&file);
    let target = root.children()[0].children().as_ref().unwrap()[0].link.as_ref().unwrap();
    assert_eq!(child_names(target), vec!["first"]);
}

#[test]
fn registration_stops_at_the_first_name_that_is_taken() {
    let mut registry = GlobalRegistry::default();
    let mut first = RustFileVisitor::new(FilePath::new("", "first.rs"));
    first.add_struct(RustStruct::new("B", Visibility::Public, "B"));
    ChunkInitializer::new(&first).initialize_tree(&mut registry).unwrap();
    let mut second = RustFileVisitor::new(FilePath::new("", "second.rs"));
    second.add_struct(RustStruct::new("A", Visibility::Public, "A"));
    second.add_struct(RustStruct::new("B", Visibility::Public, "B"));
    second.add_struct(RustStruct::new("C", Visibility::Public, "C"));
    let result = ChunkInitializer::new(&second).initialize_tree(&mut registry);
    assert!(result.is_err());
    assert_eq!(registry.get_item_by_name("A").unwrap().source(), Some("second.rs"));
    assert_eq!(registry.get_item_by_name("B").unwrap().source(), Some("first.rs"));
    assert!(registry.get_item_by_name("C").is_none());
}

#[test]
fn top_level_declarations_are_changed_in_place() {
    let mut file = RustFileVisitor::new(FilePath::new("", "a.rs"));
    file.add_function(func("f", &[]));
    let mut root = build(&file);
    root.children_mut().clear();
    assert!(root.children().is_empty());
    assert!(!root.has_child_named("f"));
    assert_eq!(root.file_path().relative_path(), "a.rs");
}

#[test]
fn methods_of_a_declaration_are_copied() {
    let with = RustType::Struct(structure("S", vec![func("a", &[]), func("b", &[])]));
    let names: Vec<String> = codeclippy::tree::initialize::methods_of(&with)
        .iter()
        .map(|m| m.name().to_string())
        .collect();
    assert_eq!(names, vec!["a", "b"]);
    let without = RustType::Function(func("f", &[]));
    assert!(codeclippy::tree::initialize::methods_of(&without).is_empty());
}
