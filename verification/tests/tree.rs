use coriolis::collections::{PathSet, StringMap};
use coriolis::explorer::{adjusted_scroll, ExplorerState};
use coriolis::labels::{node_info_text, split_names, tree_structure_text};
use coriolis::node::{DataNode, DatasetInfo, NodeType};
use coriolis::search::{status_line, SearchState};
use coriolis::text::all_distinct;
use coriolis::tree::{has_unique_paths, TreeState};

fn node(name: &str, path: &str, kind: NodeType) -> DataNode {
    DataNode::new(name.to_string(), path.to_string(), kind)
}

fn variable(name: &str, path: &str, dims: &str, shape: Vec<usize>, dtype: &str) -> DataNode {
    let mut v = node(name, path, NodeType::Variable);
    v.metadata.insert("dims".to_string(), dims.to_string());
    v.shape = Some(shape);
    v.dtype = Some(dtype.to_string());
    v
}

fn dataset() -> DatasetInfo {
    let mut root = node("ocean.nc", "/", NodeType::Root);
    root.attributes.insert("Institution".to_string(), "Harbour Lab".to_string());
    root.add_child(variable("Temperature", "/Temperature", "time, lat, lon", vec![4, 3, 5], "Float(F64)"));
    let mut surface = node("surface", "/surface", NodeType::Group);
    let mut wind = variable("wind", "/surface/wind", "time", vec![4], "Int(I16)");
    wind.attributes.insert("units".to_string(), "m s-1".to_string());
    surface.add_child(wind);
    let mut deep = node("deep", "/surface/deep", NodeType::Group);
    deep.add_child(variable("salt", "/surface/deep/salt", "", vec![], "Float(F32)"));
    surface.add_child(deep);
    root.add_child(surface);
    root.add_child(node("time", "/time", NodeType::Dimension));
    DatasetInfo::new("/data/ocean.nc".to_string(), root)
}

fn paths(items: &[&coriolis::tree::TreeItem]) -> Vec<String> {
    items.iter().map(|i| i.node.path.clone()).collect()
}

#[test]
fn nodes_know_their_kind() {
    let d = dataset();
    assert_eq!(d.file_path, "/data/ocean.nc");
    assert!(d.root_node.is_group());
    assert!(!d.root_node.is_variable());
    assert!(d.root_node.children[0].is_variable());
    assert!(d.root_node.children[1].is_group());
    assert!(!d.root_node.children[2].is_group());
    assert_eq!(d.root_node.children.len(), 3);
    let copy = d.root_node.duplicate();
    assert_eq!(copy.children[1].children[1].children[0].path, "/surface/deep/salt");
    assert_eq!(copy.attributes.get("Institution").map(|s| s.as_str()), Some("Harbour Lab"));
}

#[test]
fn a_search_ignores_case_and_looks_into_attributes() {
    let d = dataset();
    let temp = &d.root_node.children[0];
    assert!(temp.matches_search("TEMP"));
    assert!(temp.matches_search("temperature"));
    assert!(temp.matches_search(""));
    assert!(temp.matches_search("LAT"));
    assert!(temp.matches_search("dims"));
    assert!(!temp.matches_search("wind"));
    assert!(d.root_node.matches_search("harbour"));
    assert!(d.root_node.matches_search("institution"));
    assert!(d.root_node.matches_search("/"));
    assert!(!d.root_node.matches_search("Temp"));
    assert!(d.root_node.children[1].children[0].matches_search("M S-1"));
    assert!(d.root_node.children[1].children[0].matches_search("Surface/W"));
}

#[test]
fn display_lines_describe_their_node() {
    let d = dataset();
    assert_eq!(d.root_node.display_name(), "🏠 ocean.nc (3)");
    assert_eq!(d.root_node.children[0].display_name(), "🌡️ Temperature (time=4, lat=3, lon=5) [3D] float(f64)");
    assert_eq!(d.root_node.children[1].display_name(), "📂 surface (2)");
    assert_eq!(d.root_node.children[2].display_name(), "📏 time");
    assert_eq!(d.root_node.children[1].children[0].display_name(), "🌡️ wind (time=4) [1D] int(i16)");
    assert_eq!(d.root_node.children[1].children[1].children[0].display_name(), "🌡️ salt float(f32)");
    let bare = node("x", "/x", NodeType::Variable);
    assert_eq!(bare.display_name(), "🌡️ x");
    let short = variable("y", "/y", "a, b, c", vec![7], "Char");
    assert_eq!(short.display_name(), "🌡️ y (a=7) [1D] char");
    let long = variable("z", "/z", "a", vec![7, 8], "Char");
    assert_eq!(long.display_name(), "🌡️ z (a=7) [2D] char");
}

#[test]
fn name_lists_are_split_at_comma_and_space() {
    assert_eq!(split_names("time, lat, lon"), vec!["time", "lat", "lon"]);
    assert_eq!(split_names("time"), vec!["time"]);
    assert_eq!(split_names(""), vec![""]);
    assert_eq!(split_names("a,b, c"), vec!["a,b", "c"]);
    assert_eq!(split_names(", , "), vec!["", "", ""]);
    assert_eq!(split_names("a, "), vec!["a", ""]);
    assert_eq!(split_names("a,"), vec!["a,"]);
    assert_eq!(split_names("größe, höhe"), vec!["größe", "höhe"]);
}

#[test]
fn the_outline_draws_the_whole_tree() {
    let d = dataset();
    let text = tree_structure_text(&d.root_node, Some("ocean.nc"));
    let expected = format!(
        "Tree Structure: ocean.nc\n{}\n\n{}",
        "=".repeat(80),
        "└── 🏠 ocean.nc (3)\n    ├── 🌡️ Temperature (time=4, lat=3, lon=5) [3D] float(f64)\n    ├── 📂 surface (2)\n    │   ├── 🌡️ wind (time=4) [1D] int(i16)\n    │   └── 📂 deep (1)\n    │       └── 🌡️ salt float(f32)\n    └── 📏 time\n"
    );
    assert_eq!(text, expected);
    let plain = tree_structure_text(&d.root_node.children[2], None);
    assert_eq!(plain, format!("Tree Structure\n{}\n\n└── 📏 time\n", "=".repeat(80)));
}

#[test]
fn the_summary_lists_what_is_known_of_a_node() {
    let d = dataset();
    assert_eq!(
        node_info_text(&d.root_node.children[1].children[0]),
        "Node: wind\nPath: /surface/wind\nType: Variable\nShape: [4]\nDType: Int(I16)\n\nAttributes:\n  units: m s-1\n\nMetadata:\n  dims: time\n"
    );
    assert_eq!(
        node_info_text(&d.root_node),
        "Node: ocean.nc\nPath: /\nType: Root\n\nAttributes:\n  Institution: Harbour Lab\n"
    );
    assert_eq!(
        node_info_text(&d.root_node.children[0]),
        "Node: Temperature\nPath: /Temperature\nType: Variable\nShape: [4, 3, 5]\nDType: Float(F64)\n\nMetadata:\n  dims: time, lat, lon\n"
    );
    assert_eq!(node_info_text(&d.root_node.children[2]), "Node: time\nPath: /time\nType: Dimension\n");
}

#[test]
fn the_tree_lists_what_is_expanded() {
    let d = dataset();
    let mut tree = TreeState::new();
    assert_eq!(tree.len(), 0);
    assert!(tree.current_node().is_none());
    tree.build_from_dataset(&d);
    assert_eq!(paths(&tree.visible_items()), vec!["/", "/Temperature", "/surface", "/time"]);
    assert!(tree.is_expanded("/"));
    assert!(!tree.is_expanded("/surface"));
    assert_eq!(tree.visible_items()[2].level, 1);
    tree.cursor_down();
    tree.expand_current();
    assert_eq!(tree.len(), 4);
    tree.cursor_down();
    assert_eq!(tree.current_node().unwrap().path, "/surface");
    tree.expand_current();
    assert_eq!(
        paths(&tree.visible_items()),
        vec!["/", "/Temperature", "/surface", "/surface/wind", "/surface/deep", "/time"]
    );
    assert_eq!(tree.visible_items()[3].level, 2);
    assert!(tree.visible_items()[2].expanded);
    tree.toggle_expand(4);
    assert_eq!(tree.len(), 7);
    tree.goto_last();
    assert_eq!(tree.cursor(), 6);
    tree.cursor_down();
    assert_eq!(tree.cursor(), 6);
    tree.toggle_expand(2);
    assert_eq!(tree.len(), 4);
    assert!(tree.current_node().is_none());
    tree.toggle_expand(9);
    tree.goto_first();
    tree.cursor_up();
    assert_eq!(tree.cursor(), 0);
    tree.collapse_current();
    assert_eq!(paths(&tree.visible_items()), vec!["/"]);
    tree.expand_all();
    assert_eq!(tree.len(), 7);
    tree.goto_node("/surface/deep/salt");
    assert_eq!(tree.cursor(), 5);
    tree.goto_node("/nowhere");
    assert_eq!(tree.cursor(), 5);
}

#[test]
fn the_explorer_keeps_the_cursor_on_screen() {
    let d = dataset();
    let mut e = ExplorerState::new();
    assert!(e.show_preview);
    e.build_from_dataset(&d);
    e.expand_all();
    assert_eq!(e.visible_items().len(), 7);
    e.scroll_down();
    assert_eq!(e.preview_scroll, 5);
    e.cursor_down();
    assert_eq!(e.preview_scroll, 0);
    e.goto_last();
    e.adjust_scroll(3);
    assert_eq!(e.scroll_offset(), 4);
    e.adjust_scroll(0);
    assert_eq!(e.scroll_offset(), 4);
    e.goto_node("/Temperature");
    e.adjust_scroll(3);
    assert_eq!(e.scroll_offset(), 1);
    e.cursor_down();
    e.adjust_scroll(3);
    assert_eq!(e.scroll_offset(), 1);
    assert_eq!(e.current_node().unwrap().name, "surface");
    e.collapse_current();
    assert_eq!(e.visible_items().len(), 4);
    e.expand_current();
    assert_eq!(e.visible_items().len(), 7);
    e.cursor_up();
    e.goto_first();
    assert_eq!(e.cursor(), 0);
    e.toggle_preview();
    assert!(!e.show_preview);
    e.preview_scroll = u16::MAX - 2;
    e.scroll_down();
    assert_eq!(e.preview_scroll, u16::MAX);
    e.preview_scroll = 3;
    e.scroll_up();
    assert_eq!(e.preview_scroll, 0);
    assert_eq!(adjusted_scroll(10, 2, 5), 2);
    assert_eq!(adjusted_scroll(0, usize::MAX, usize::MAX), 1);
    assert_eq!(adjusted_scroll(0, usize::MAX - 1, usize::MAX), 0);
    assert_eq!(adjusted_scroll(0, usize::MAX, 1), usize::MAX);
}

#[test]
fn a_search_collects_matches_in_display_order() {
    let d = dataset();
    let mut s = SearchState::new();
    assert!(!s.is_active());
    s.start();
    assert!(s.is_active());
    for c in "TIMEx".chars() {
        s.input(c);
    }
    s.backspace();
    assert_eq!(s.buffer(), "TIME");
    assert_eq!(status_line("Ready", &s), "/TIME");
    s.submit();
    assert!(!s.is_active());
    assert_eq!(s.buffer(), "");
    assert_eq!(s.query(), "TIME");
    assert_eq!(status_line("Ready", &s), "Ready");
    s.perform_search(&d.root_node);
    assert_eq!(s.match_count(), 3);
    assert_eq!(status_line("Ready", &s), "Match 1/3 for 'TIME'");
    assert_eq!(s.current_match_index(), 0);
    assert_eq!(s.current_match_path(), Some("/Temperature"));
    s.next_match();
    assert_eq!(s.current_match_path(), Some("/surface/wind"));
    s.next_match();
    s.next_match();
    assert_eq!(s.current_match_index(), 0);
    s.prev_match();
    assert_eq!(s.current_match_path(), Some("/time"));
    s.start();
    s.backspace();
    s.submit();
    assert_eq!(s.query(), "TIME");
    s.cancel();
    assert_eq!(s.match_count(), 0);
    assert_eq!(s.current_match_path(), None);
    s.next_match();
    s.prev_match();
    assert_eq!(s.current_match_index(), 0);
    let mut empty = SearchState::new();
    empty.perform_search(&d.root_node);
    assert_eq!(empty.match_count(), 0);
}

#[test]
fn the_map_keeps_one_value_per_key() {
    let mut m = StringMap::new();
    assert!(m.is_empty());
    m.insert("units".to_string(), "K".to_string());
    m.insert("long_name".to_string(), "air".to_string());
    m.insert("units".to_string(), "degC".to_string());
    assert_eq!(m.len(), 2);
    assert_eq!(m.get("units").map(|s| s.as_str()), Some("degC"));
    assert_eq!(m.get("Units"), None);
    assert!(m.contains_key("long_name"));
    assert_eq!(m.entries()[0], ("units".to_string(), "degC".to_string()));
    assert_eq!(m.duplicate().entries(), m.entries());
}

#[test]
fn the_set_holds_each_path_once() {
    let mut s = PathSet::new();
    s.insert("/a".to_string());
    s.insert("/b".to_string());
    s.insert("/a".to_string());
    assert!(s.contains("/a"));
    s.remove("/a");
    assert!(!s.contains("/a"));
    assert!(s.contains("/b"));
    assert!(s.duplicate().contains("/b"));
    s.clear();
    assert!(!s.contains("/b"));
}

#[test]
fn paths_are_keys_of_a_well_built_tree() {
    let d = dataset();
    assert!(has_unique_paths(&d.root_node));
    let mut twice = node("twice", "/", NodeType::Root);
    twice.add_child(node("a", "/a", NodeType::Group));
    twice.add_child(node("b", "/a", NodeType::Variable));
    assert!(!has_unique_paths(&twice));
    let mut nested = node("nested", "/", NodeType::Root);
    let mut group = node("g", "/g", NodeType::Group);
    group.add_child(node("root again", "/", NodeType::Variable));
    nested.add_child(group);
    assert!(!has_unique_paths(&nested));
    assert!(all_distinct(&vec![]));
    assert!(all_distinct(&vec!["a".to_string(), "A".to_string()]));
    assert!(!all_distinct(&vec!["a".to_string(), "b".to_string(), "a".to_string()]));
}
