use codeclippy::error::ClippyError;
use codeclippy::file_visitor::RustFileVisitor;
use codeclippy::localfs::FilePath;
use codeclippy::map::{list_map, list_root};
use codeclippy::print_config::PrintConfigBuilder;
use codeclippy::registry::{GlobalRegistry, RegistryKind};
use codeclippy::tree::dependencies::create_node_from_registry;
use codeclippy::tree::root::make_root_config;
use codeclippy::tree::{
    find_dependencies, find_dependents, Dependencies, Dependents, LocalRegistry, NodeEntry,
    NodeTable, RootNode, TreeNode,
};
use codeclippy::types::{
    FunctionBody, LineColumn, RustEnum, RustFunction, RustStruct, RustTrait, RustType, TypeRef,
    TypeShape, Visibility,
};

fn caller(name: &str, uses: &[&str]) -> RustFunction {
    RustFunction::new_with_data(
        name,
        Visibility::Inherited,
        Vec::new(),
        None,
        None,
        Some(FunctionBody::new(
            uses.iter().map(|s| s.to_string()).collect(),
            LineColumn { line: 1, column: 0 },
            LineColumn { line: 1, column: 0 },
        )),
    )
}

fn leaf(name: &str) -> TreeNode {
    TreeNode::new(RustType::Function(RustFunction::new(Visibility::Inherited, name)))
}

fn public_struct(name: &str) -> RustStruct {
    RustStruct::new(name, Visibility::Public, name)
}

#[test]
fn registry_holds_one_public_declaration_per_name() {
    let mut registry = GlobalRegistry::default();
    assert!(registry.get_item_by_name("Point").is_none());
    assert_eq!(registry.register_struct(public_struct("Point"), Some("a.rs")), Ok(()));
    assert_eq!(
        registry.register_struct(public_struct("Point"), Some("b.rs")),
        Err(ClippyError::DuplicateSymbol { name: "Point".to_string() })
    );
    assert_eq!(
        registry.register(
            RegistryKind::Enum(RustEnum::new_with_data(
                "Point".to_string(),
                Visibility::Public,
                Vec::new()
            )),
            None
        ),
        Err(ClippyError::DuplicateSymbol { name: "Point".to_string() })
    );
    let item = registry.get_item_by_name("Point").unwrap();
    assert_eq!(item.source(), Some("a.rs"));
    assert!(matches!(item.item(), RegistryKind::Struct(_)));
    assert!(item.item().is_public());
    assert_eq!(item.item().id(), "Point");
    assert!(matches!(item.item().to_rust_type(), RustType::Struct(_)));
}

#[test]
fn registry_passes_over_what_is_not_public() {
    let mut registry = GlobalRegistry::default();
    let hidden = RustStruct::new("Hidden", Visibility::Inherited, "Hidden");
    assert_eq!(registry.register_struct(hidden.clone(), Some("a.rs")), Ok(()));
    assert_eq!(registry.register_struct(hidden, Some("b.rs")), Ok(()));
    assert!(registry.get_item_by_name("Hidden").is_none());
    let restricted = RustTrait::new_with_data("T".to_string(), Visibility::Restricted, Vec::new());
    assert_eq!(registry.register(RegistryKind::Trait(restricted), None), Ok(()));
    assert!(registry.get_item_by_name("T").is_none());
}

#[test]
fn registry_finds_entries_by_identifier() {
    let mut registry = GlobalRegistry::default();
    registry.register_struct(RustStruct::new("id-a", Visibility::Public, "A"), None).unwrap();
    registry.register_struct(RustStruct::new("id-b", Visibility::Public, "B"), Some("b")).unwrap();
    registry.register_struct(RustStruct::new("id-a", Visibility::Public, "C"), Some("c")).unwrap();
    assert_eq!(registry.get_item_by_id("id-a").unwrap().item().name(), "A");
    assert_eq!(registry.get_item_by_id("id-b").unwrap().source(), Some("b"));
    assert!(registry.get_item_by_id("A").is_none());
    assert_eq!(registry.get_item_by_name("C").unwrap().item().id(), "id-a");
    assert_eq!(registry.get_item_by_name("A").unwrap().source(), None);
}

#[test]
fn table_keeps_the_last_node_under_a_key_at_its_first_place() {
    let mut table = NodeTable::new();
    assert_eq!(table.len(), 0);
    table.insert("a".to_string(), leaf("first"), Some("x.rs"));
    table.insert("b".to_string(), leaf("second"), None);
    table.insert("a".to_string(), leaf("third"), Some("y.rs"));
    assert_eq!(table.len(), 2);
    assert!(table.contains_key("a"));
    assert!(!table.contains_key("c"));
    assert_eq!(table.get("a").unwrap().node().name(), "third");
    assert_eq!(table.get("a").unwrap().source(), Some("y.rs"));
    assert_eq!(table.get("b").unwrap().source(), None);
    assert!(table.get("c").is_none());
    assert_eq!(table.key_at(0), "a");
    assert_eq!(table.key_at(1), "b");
    assert_eq!(table.entry_at(0).node().name(), "third");
    let rows = table.to_vec();
    assert_eq!(rows.len(), 2);
    assert_eq!(rows[0].0, "a");
    assert_eq!(rows[1], ("b".to_string(), NodeEntry::new(leaf("second"), None)));
}

#[test]
fn result_sets_are_keyed_by_identifier() {
    let mut dependencies = Dependencies::default();
    dependencies.register_item("one".to_string(), leaf("f"), Some("a.rs"));
    dependencies.register_item("two".to_string(), leaf("g"), None);
    dependencies.register_item("one".to_string(), leaf("h"), Some("b.rs"));
    assert_eq!(dependencies.len(), 2);
    assert_eq!(dependencies.id_at(0), "one");
    assert_eq!(dependencies.item_at(0).node().name(), "h");
    assert_eq!(dependencies.get("two").unwrap().node().name(), "g");
    assert!(dependencies.get("three").is_none());
    assert_eq!(dependencies.to_vec().len(), 2);
    let mut dependents = Dependents::default();
    dependents.register_item(leaf("f"), Some("a.rs"));
    dependents.register_item(leaf("f"), Some("b.rs"));
    dependents.register_item(leaf("g"), None);
    assert_eq!(dependents.len(), 2);
    assert_eq!(dependents.id_at(1), "g");
    assert_eq!(dependents.item_at(0).source(), Some("b.rs"));
    assert_eq!(dependents.get("f").unwrap().source(), Some("b.rs"));
    assert_eq!(dependents.to_vec()[1].0, "g");
    let mut cache = LocalRegistry::default();
    assert_eq!(cache.len(), 0);
    cache.register_item("Point".to_string(), leaf("Point"), Some("a.rs"));
    assert_eq!(cache.get_item_by_name("Point").unwrap().source(), Some("a.rs"));
    assert!(cache.get_item_by_name("Line").is_none());
    assert_eq!(cache.len(), 1);
}

#[test]
fn registered_type_stands_with_its_methods_as_they_are() {
    let mut s = public_struct("Point");
    s.add_methods(vec![caller("new", &["Point"]), caller("len", &[])]);
    let node = create_node_from_registry(&RegistryKind::Struct(s));
    assert_eq!(node.name(), "Point");
    let children = node.children().as_ref().unwrap();
    assert_eq!(children.len(), 2);
    assert_eq!(children[0].name(), "new");
    assert!(children[0].children().is_none());
    match children[0].rtype() {
        RustType::Function(f) => assert!(f.instantiated_items().is_empty()),
        other => panic!("unexpected declaration {:?}", other),
    }
    let bare = create_node_from_registry(&RegistryKind::Struct(public_struct("Bare")));
    assert!(bare.children().is_none());
}

#[test]
fn dependencies_follow_links_into_methods_of_used_structs() {
    let mut registry = GlobalRegistry::default();
    registry.register_struct(public_struct("Remote"), Some("remote.rs")).unwrap();
    let mut local = RustStruct::new("Local", Visibility::Inherited, "Local");
    local.add_methods(vec![caller("reach", &["Remote", "f", "Local", "helper"])]);
    let mut file = RustFileVisitor::new(FilePath::new("", "a.rs"));
    file.add_function(caller("f", &["Local"]));
    file.add_function(caller("helper", &[]));
    file.add_struct(local);
    let mut scratch = GlobalRegistry::default();
    let mut root =
        codeclippy::tree::initialize::ChunkInitializer::new(&file).initialize_tree(&mut scratch).unwrap();
    let config = make_root_config("a.rs", Some("f"), false);
    find_dependencies(&mut root, &registry, &config);
    let deps = root.dependencies();
    let ids: Vec<String> = deps.to_vec().into_iter().map(|(id, _)| id).collect();
    assert_eq!(ids, vec!["Local", "Remote", "helper"]);
    assert_eq!(deps.get("Local").unwrap().source(), Some("a.rs"));
    assert_eq!(deps.get("Remote").unwrap().source(), Some("remote.rs"));
    assert_eq!(deps.get("helper").unwrap().source(), Some("a.rs"));
    assert!(deps.get("f").is_none());
}

#[test]
fn dependencies_are_found_for_what_the_query_selects_only() {
    let registry = GlobalRegistry::default();
    let mut file = RustFileVisitor::new(FilePath::new("", "a.rs"));
    file.add_function(caller("f", &["x"]));
    file.add_function(caller("g", &["y"]));
    file.add_function(caller("x", &[]));
    file.add_function(caller("y", &[]));
    let mut scratch = GlobalRegistry::default();
    let mut root =
        codeclippy::tree::initialize::ChunkInitializer::new(&file).initialize_tree(&mut scratch).unwrap();
    find_dependencies(&mut root, &registry, &make_root_config("a.rs", Some("g"), false));
    assert_eq!(root.dependencies().len(), 1);
    assert!(root.dependencies().get("y").is_some());
    let all = PrintConfigBuilder::new().path(vec!["a.rs".to_string()]).build();
    find_dependencies(&mut root, &registry, &all);
    assert_eq!(root.dependencies().len(), 2);
    assert_eq!(root.dependencies().id_at(0), "x");
    assert_eq!(root.dependencies().id_at(1), "y");
}

#[test]
fn dependents_are_stored_whole_with_the_path_of_the_file() {
    let mut file = RustFileVisitor::new(FilePath::new("base", "dir/a.rs"));
    let mut holder = RustStruct::new("Holder", Visibility::Inherited, "Holder");
    holder.add_fields(vec![(
        "p".to_string(),
        TypeRef::new("Point", TypeShape::Named { name: "Point".to_string(), args: Vec::new() }),
    )]);
    holder.add_methods(vec![caller("get", &[])]);
    file.add_function(caller("make", &["Point"]));
    file.add_function(caller("idle", &[]));
    file.add_struct(holder);
    let mut scratch = GlobalRegistry::default();
    let mut root: RootNode =
        codeclippy::tree::initialize::ChunkInitializer::new(&file).initialize_tree(&mut scratch).unwrap();
    let target = RustType::Struct(public_struct("Point"));
    find_dependents(&mut root, &target);
    let dependents = root.dependents();
    assert_eq!(dependents.len(), 2);
    assert_eq!(dependents.id_at(0), "make");
    assert_eq!(dependents.id_at(1), "Holder");
    let holder = dependents.get("Holder").unwrap();
    assert_eq!(holder.source(), Some("base/dir/a.rs"));
    assert_eq!(holder.node().children().as_ref().unwrap().len(), 1);
    assert_eq!(holder.node(), &root.children()[2]);
}

#[test]
fn listing_gives_declarations_and_answers_per_file() {
    let mut a = RustFileVisitor::new(FilePath::new("", "a.rs"));
    a.add_struct(public_struct("Point"));
    a.add_function(caller("origin", &["Point"]));
    let mut b = RustFileVisitor::new(FilePath::new("", "b.rs"));
    b.add_function(caller("make", &["Point", "origin"]));
    let listings = list_map(vec![a, b], Some("make"), false, false, true, false).unwrap();
    assert_eq!(listings.len(), 2);
    assert_eq!(listings[0].file, "a.rs");
    assert!(listings[0].declarations.is_empty());
    assert!(listings[0].dependencies.is_empty());
    assert_eq!(listings[1].file, "b.rs");
    assert_eq!(listings[1].declarations.len(), 1);
    assert_eq!(listings[1].declarations[0].name(), "make");
    assert_eq!(listings[1].dependencies.len(), 1);
    assert_eq!(listings[1].dependencies[0].0, "Point");
    assert_eq!(listings[1].dependencies[0].1.source(), Some("a.rs"));
    assert!(listings[1].dependents.is_empty());
}

#[test]
fn listing_can_be_silent_about_the_query_itself() {
    let mut a = RustFileVisitor::new(FilePath::new("", "a.rs"));
    a.add_struct(public_struct("Point"));
    a.add_function(caller("origin", &["Point"]));
    let listings = list_map(vec![a], Some("Point"), false, true, true, true).unwrap();
    assert!(listings[0].declarations.is_empty());
    assert!(listings[0].dependencies.is_empty());
    assert_eq!(listings[0].dependents.len(), 1);
    assert_eq!(listings[0].dependents[0].0, "origin");
}

#[test]
fn listing_without_a_query_gives_everything_and_no_dependencies() {
    let mut a = RustFileVisitor::new(FilePath::new("", "a.rs"));
    a.add_struct(public_struct("Point"));
    a.add_function(caller("origin", &["Point"]));
    let listings = list_map(vec![a], None, false, false, true, false).unwrap();
    let names: Vec<&str> = listings[0].declarations.iter().map(|d| d.name()).collect();
    assert_eq!(names, vec!["origin", "Point"]);
    assert!(listings[0].dependencies.is_empty());
    let empty = list_map(Vec::new(), None, false, false, false, false).unwrap();
    assert!(empty.is_empty());
}

#[test]
fn listing_ends_with_the_error_of_the_run() {
    let mut a = RustFileVisitor::new(FilePath::new("", "a.rs"));
    a.add_struct(public_struct("Point"));
    let mut b = RustFileVisitor::new(FilePath::new("", "b.rs"));
    b.add_struct(public_struct("Point"));
    assert_eq!(
        list_map(vec![a, b], None, false, false, false, false),
        Err(ClippyError::DuplicateSymbol { name: "Point".to_string() })
    );
}

#[test]
fn root_is_listed_as_it_stands() {
    let mut root = RootNode::new(FilePath::new("", "a.rs"));
    root.add_child(leaf("f"));
    root.add_child(leaf("g"));
    let mut dependencies = Dependencies::default();
    dependencies.register_item("x".to_string(), leaf("x"), None);
    root.set_dependencies(dependencies);
    let mut dependents = Dependents::default();
    dependents.register_item(leaf("y"), Some("b.rs"));
    root.set_dependents(dependents);
    let listing = list_root(&root, Some("g"), false, false);
    assert_eq!(listing.file, "a.rs");
    assert_eq!(listing.declarations.len(), 1);
    assert_eq!(listing.dependencies[0].0, "x");
    assert_eq!(listing.dependents[0].1.source(), Some("b.rs"));
    let silent = list_root(&root, None, false, true);
    assert!(silent.declarations.is_empty());
    assert_eq!(silent.dependencies.len(), 1);
}

#[test]
fn output_names_the_file_above_its_declarations() {
    let texts = vec!["fn f() {}\n".to_string(), "struct S;\n".to_string()];
    assert_eq!(
        codeclippy::map::format_declarations("src/a.rs", &texts),
        Some("@src/a.rs:\nfn f() {}\nstruct S;\n".to_string())
    );
    assert_eq!(codeclippy::map::format_declarations("src/a.rs", &Vec::new()), None);
    assert_eq!(codeclippy::map::format_declarations("src/a.rs", &vec![String::new()]), None);
    assert_eq!(codeclippy::map::format_entry_heading(Some("b.rs")), "@b.rs:");
    assert_eq!(codeclippy::map::format_entry_heading(None), "@:");
}
