use codeclippy::print_config::{PrintConfig, PrintConfigBuilder};
use codeclippy::tree::tree::{link_config, print_nodes};
use codeclippy::tree::TreeNode;
use codeclippy::types::{RustFunction, RustStruct, RustType, Visibility};

fn config(path: &[&str], filter: Option<&str>, use_full_path: bool) -> PrintConfig {
    PrintConfigBuilder::new()
        .filter(filter.map(|f| f.to_string()))
        .path(path.iter().map(|s| s.to_string()).collect())
        .use_full_path(use_full_path)
        .build()
}

fn function_node(name: &str) -> TreeNode {
    TreeNode::new(RustType::Function(RustFunction::new(Visibility::Inherited, name)))
}

fn struct_node(name: &str) -> TreeNode {
    TreeNode::new(RustType::Struct(RustStruct::new(name, Visibility::Inherited, name)))
}

fn printed_names(node: &TreeNode, config: PrintConfig) -> Vec<String> {
    let mut out: Vec<RustType> = Vec::new();
    node.print(&mut out, config);
    out.iter().map(|t| t.name().to_string()).collect()
}

#[test]
fn builder_sets_each_part_of_the_configuration() {
    let plain = PrintConfigBuilder::new().build();
    assert_eq!(plain.filter(), &None);
    assert!(plain.path().is_empty());
    assert!(!plain.is_linked());
    assert!(!plain.use_full_path());
    assert!(!plain.debug());
    let mut set = PrintConfigBuilder::new()
        .filter(Some("Foo".to_string()))
        .path(vec!["a.rs".to_string()])
        .is_linked(true)
        .use_full_path(true)
        .debug(true)
        .build();
    assert_eq!(set.filter(), &Some("Foo".to_string()));
    assert_eq!(set.path(), &vec!["a.rs".to_string()]);
    assert!(set.is_linked());
    assert!(set.use_full_path());
    assert!(set.debug());
    set.add_to_path("Foo".to_string());
    assert_eq!(set.path(), &vec!["a.rs".to_string(), "Foo".to_string()]);
    assert_eq!(set.clone(), set);
}

#[test]
fn everything_is_in_scope_without_a_query() {
    assert!(function_node("f").should_print(&config(&["a.rs", "f"], None, false)));
    assert!(function_node("f").should_print(&config(&[], None, true)));
}

#[test]
fn scoped_query_matches_path_without_the_file() {
    let f = function_node("Foo");
    assert!(f.should_print(&config(&["a.rs", "Foo"], Some("Foo"), false)));
    assert!(f.should_print(&config(&["a.rs", "Foo"], Some("a.rs::Foo"), false)));
    let g = function_node("Goo");
    assert!(!g.should_print(&config(&["a.rs", "Goo"], Some("a.rs::Foo"), false)));
    assert!(!g.should_print(&config(&["a.rs", "Goo"], Some("a.rs::Goo::x"), false)));
    let bar = function_node("bar");
    assert!(bar.should_print(&config(&["a.rs", "Foo", "bar"], Some("Foo::bar"), false)));
    assert!(!bar.should_print(&config(&["a.rs", "Foo", "bar"], Some("Fo"), false)));
}

#[test]
fn scoped_query_matches_what_lies_below_it() {
    let bar = function_node("bar");
    assert!(bar.should_print(&config(&["a.rs", "Foo", "bar"], Some("Foo"), false)));
    assert!(bar.should_print(&config(&["a.rs", "Foo", "in", "bar"], Some("Foo::in"), false)));
    assert!(!bar.should_print(&config(&["a.rs", "Foobar", "bar"], Some("Foo"), false)));
    assert!(!bar.should_print(&config(&["a.rs", "Foo.", "bar"], Some("Foo"), false)));
    assert!(bar.should_print(&config(&["a.rs", "Foo:", "bar"], Some("Foo"), false)));
}

#[test]
fn scoped_query_matches_bare_name_of_its_last_segment() {
    let run = function_node("run");
    assert!(run.should_print(&config(&["a.rs", "Other", "run"], Some("run"), false)));
    assert!(run.should_print(&config(&["a.rs", "Other", "run"], Some("Type::run"), false)));
    assert!(!run.should_print(&config(&["a.rs", "Other", "run"], Some("run::more"), false)));
    assert!(!run.should_print(&config(&["a.rs", "Other", "run"], Some("walk"), false)));
}

#[test]
fn full_path_query_keeps_the_file_and_ignores_bare_names() {
    let f = function_node("Foo");
    assert!(f.should_print(&config(&["a.rs", "Foo"], Some("a.rs::Foo"), true)));
    assert!(!f.should_print(&config(&["a.rs", "Foo"], Some("Foo"), true)));
    assert!(!f.should_print(&config(&["a.rs", "Foo"], Some("b.rs::Foo"), true)));
    let bar = function_node("bar");
    assert!(bar.should_print(&config(&["a.rs", "Foo", "bar"], Some("a.rs::Foo"), true)));
    assert!(bar.should_print(&config(&["a.rs", "Foo", "bar"], Some("a.rs"), true)));
}

#[test]
fn node_in_scope_prints_itself_and_not_its_children() {
    let mut parent = struct_node("Foo");
    parent.add_child(function_node("bar"));
    parent.add_child(function_node("baz"));
    assert_eq!(printed_names(&parent, config(&["a.rs", "Foo"], Some("Foo"), false)), vec!["Foo"]);
    assert_eq!(printed_names(&parent, config(&["a.rs", "Foo"], None, false)), vec!["Foo"]);
}

#[test]
fn node_out_of_scope_hands_over_to_its_children() {
    let mut inner = struct_node("In");
    inner.add_child(function_node("deep"));
    let mut parent = struct_node("Foo");
    parent.add_child(function_node("bar"));
    parent.add_child(inner);
    parent.add_child(function_node("baz"));
    let names = printed_names(&parent, config(&["a.rs", "Foo"], Some("Foo::baz"), false));
    assert_eq!(names, vec!["baz"]);
    let names = printed_names(&parent, config(&["a.rs", "Foo"], Some("deep"), false));
    assert_eq!(names, vec!["deep"]);
    let names = printed_names(&parent, config(&["a.rs", "Foo"], Some("nothing"), false));
    assert!(names.is_empty());
    let mut out: Vec<RustType> = Vec::new();
    assert!(!parent.print(&mut out, config(&["a.rs", "Foo"], Some("nothing"), false)));
    assert!(parent.print(&mut out, config(&["a.rs", "Foo"], Some("bar"), false)));
    assert_eq!(out.len(), 1);
}

#[test]
fn link_defers_to_its_target_once() {
    let mut target = struct_node("Target");
    target.add_child(function_node("method"));
    let mut link = struct_node("Target");
    link.link = Some(Box::new(target));
    let outside = config(&["a.rs", "f", "Target"], None, false);
    let names = printed_names(&link, outside);
    assert_eq!(names, vec!["Target"]);
    let inside = link_config(&config(&["a.rs", "f"], Some("f"), false), "Other");
    assert!(inside.is_linked());
    assert_eq!(inside.filter(), &None);
    assert_eq!(inside.path(), &vec!["a.rs".to_string(), "f".to_string(), "Other".to_string()]);
    assert!(printed_names(&link, inside).is_empty());
}

#[test]
fn nested_link_inside_a_link_is_not_entered() {
    let mut deepest = struct_node("B");
    deepest.add_child(function_node("b"));
    let mut nested = struct_node("B");
    nested.link = Some(Box::new(deepest));
    let mut method = function_node("a");
    method.add_child(nested);
    let mut target = struct_node("A");
    target.add_child(method);
    let mut link = struct_node("A");
    link.link = Some(Box::new(target));
    let mut f = function_node("f");
    f.add_child(link);
    let names = printed_names(&f, config(&["a.rs", "f"], Some("A"), false));
    assert_eq!(names, vec!["A"]);
    let names = printed_names(&f, config(&["a.rs", "f"], Some("B"), false));
    assert!(names.is_empty());
}

#[test]
fn nodes_print_one_after_the_other() {
    let nodes = vec![function_node("a"), struct_node("B"), function_node("c")];
    let mut out: Vec<RustType> = Vec::new();
    assert!(print_nodes(&nodes, &mut out, &config(&["x.rs"], None, false)));
    let names: Vec<&str> = out.iter().map(|t| t.name()).collect();
    assert_eq!(names, vec!["a", "B", "c"]);
    let mut out: Vec<RustType> = Vec::new();
    assert!(print_nodes(&nodes, &mut out, &config(&["x.rs"], Some("B"), false)));
    assert_eq!(out.len(), 1);
    let mut out: Vec<RustType> = Vec::new();
    assert!(!print_nodes(&Vec::new(), &mut out, &config(&["x.rs"], None, false)));
}

#[test]
fn node_is_made_from_its_declaration() {
    let node = function_node("f");
    assert_eq!(node.id(), "f");
    assert_eq!(node.name(), "f");
    assert!(node.children().is_none());
    assert!(node.link.is_none());
    assert!(matches!(node.rtype(), RustType::Function(_)));
    let mut parent = struct_node("S");
    parent.add_child(node.clone());
    parent.add_child(function_node("g"));
    let children = parent.children().as_ref().unwrap();
    assert_eq!(children.len(), 2);
    assert_eq!(children[0], node);
    assert_eq!(parent.clone(), parent);
}

#[test]
fn node_is_changed_in_place() {
    let mut node = struct_node("S");
    assert!(node.children_mut().is_empty());
    assert_eq!(node.children(), &Some(Vec::new()));
    node.children_mut().push(function_node("m"));
    assert_eq!(node.children().as_ref().unwrap().len(), 1);
    if let RustType::Struct(s) = node.rtype_mut() {
        s.add_methods(vec![RustFunction::new(Visibility::Public, "m")]);
    }
    assert_eq!(node.rtype().methods().unwrap().len(), 1);
    assert_eq!(node.name(), "S");
}
