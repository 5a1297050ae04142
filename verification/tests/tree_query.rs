use swayipc::reply::{Node, NodeBorder, NodeLayout, NodeType, Rect};
use sway_alttab::daemon::{Daemon, Stage};
use sway_alttab::fault::Fault;
use sway_alttab::tree::{start, start_from_tree};

fn rect() -> Rect {
    Rect { x: 0, y: 0, width: 0, height: 0 }
}

fn container(id: i64, focused: bool, focus: Vec<i64>, nodes: Vec<Node>, floating: Vec<Node>) -> Node {
    Node {
        id,
        name: None,
        node_type: NodeType::Con,
        border: NodeBorder::None,
        current_border_width: 0,
        layout: NodeLayout::None,
        percent: None,
        rect: rect(),
        window_rect: rect(),
        deco_rect: rect(),
        geometry: rect(),
        urgent: false,
        focused,
        focus,
        nodes,
        floating_nodes: floating,
        sticky: false,
        representation: None,
        fullscreen_mode: None,
        app_id: None,
        pid: None,
        window: None,
        num: None,
        window_properties: None,
        marks: Vec::new(),
        inhibit_idle: None,
        idle_inhibitors: None,
        shell: None,
    }
}

fn leaf(id: i64, focused: bool) -> Node {
    container(id, focused, Vec::new(), Vec::new(), Vec::new())
}

#[test]
fn start_with_a_focused_window() {
    let daemon = start(Some(31)).unwrap();
    assert_eq!(daemon, Daemon::new(31));
    assert_eq!(daemon.stage(), Stage::FocusKnown);
    assert_eq!(daemon.history().current(), 31);
    assert_eq!(daemon.history().read_previous(), 31);
}

#[test]
fn start_without_a_focused_window_fails() {
    assert_eq!(start(None), Err(Fault::Query));
}

#[test]
fn tree_with_the_focus_on_a_tiled_window() {
    let workspace = container(2, false, vec![5, 4], vec![leaf(4, false), leaf(5, true)], Vec::new());
    let root = container(1, false, vec![2], vec![workspace], Vec::new());
    assert_eq!(start_from_tree(&root), Ok(Daemon::new(5)));
}

#[test]
fn tree_with_the_focus_on_a_floating_window() {
    let workspace = container(2, false, vec![9, 4], vec![leaf(4, false)], vec![leaf(9, true)]);
    let output = container(3, false, vec![2], vec![workspace], Vec::new());
    let root = container(1, false, vec![3], vec![output], Vec::new());
    assert_eq!(start_from_tree(&root), Ok(Daemon::new(9)));
}

#[test]
fn tree_whose_root_has_the_focus() {
    let root = container(1, true, vec![2], vec![leaf(2, true)], Vec::new());
    assert_eq!(start_from_tree(&root), Ok(Daemon::new(1)));
}

#[test]
fn tree_without_a_focused_window() {
    let workspace = container(2, false, vec![4], vec![leaf(4, false)], Vec::new());
    let root = container(1, false, vec![2], vec![workspace], Vec::new());
    assert_eq!(start_from_tree(&root), Err(Fault::Query));
    assert_eq!(start_from_tree(&leaf(6, false)), Err(Fault::Query));
}

#[test]
fn focused_window_off_the_focus_path_is_not_found() {
    let workspace = container(2, false, vec![4, 5], vec![leaf(4, false), leaf(5, true)], Vec::new());
    let root = container(1, false, vec![2], vec![workspace], Vec::new());
    assert_eq!(start_from_tree(&root), Err(Fault::Query));
}

#[test]
fn the_topmost_focused_container_on_the_path_is_found() {
    let inner = container(4, true, vec![5], vec![leaf(5, true)], Vec::new());
    let workspace = container(2, false, vec![4], vec![inner], Vec::new());
    let root = container(1, false, vec![2], vec![workspace], Vec::new());
    assert_eq!(start_from_tree(&root), Ok(Daemon::new(4)));
}

#[test]
fn tiled_children_are_looked_at_before_floating_ones() {
    let tiled = container(7, false, vec![8], vec![leaf(8, true)], Vec::new());
    let floating = container(7, false, vec![9], vec![leaf(9, true)], Vec::new());
    let root = container(1, false, vec![7], vec![tiled], vec![floating]);
    assert_eq!(start_from_tree(&root), Ok(Daemon::new(8)));
}

#[test]
fn only_the_head_of_the_focus_list_is_followed() {
    let workspace = container(2, false, vec![6, 5], vec![leaf(5, true)], Vec::new());
    let root = container(1, false, vec![2], vec![workspace], Vec::new());
    assert_eq!(start_from_tree(&root), Err(Fault::Query));
}

#[test]
fn the_first_child_with_the_identifier_is_followed() {
    let workspace = container(2, false, vec![5], vec![leaf(5, false), leaf(5, true)], Vec::new());
    let root = container(1, false, vec![2], vec![workspace], Vec::new());
    assert_eq!(start_from_tree(&root), Err(Fault::Query));
}

fn json_container(id: i64, kind: &str, focused: bool, focus: &str, nodes: &str, floating: &str) -> String {
    let rect = r#"{"x":0,"y":0,"width":1920,"height":1080}"#;
    format!(
        r#"{{"id":{},"name":null,"type":"{}","border":"none","current_border_width":0,
            "layout":"splith","percent":null,"rect":{},"window_rect":{},"deco_rect":{},
            "geometry":{},"urgent":false,"focused":{},"focus":{},"nodes":{},
            "floating_nodes":{},"sticky":false}}"#,
        id, kind, rect, rect, rect, rect, focused, focus, nodes, floating
    )
}

#[test]
fn tree_as_the_window_manager_sends_it() {
    let editor = json_container(8, "con", false, "[]", "[]", "[]");
    let terminal = json_container(9, "con", true, "[]", "[]", "[]");
    let dialog = json_container(12, "floating_con", false, "[]", "[]", "[]");
    let workspace = json_container(
        4,
        "workspace",
        false,
        "[9,12,8]",
        &format!("[{},{}]", editor, terminal),
        &format!("[{}]", dialog),
    );
    let output = json_container(3, "output", false, "[4]", &format!("[{}]", workspace), "[]");
    let root = json_container(1, "root", false, "[3]", &format!("[{}]", output), "[]");
    let tree: Node = serde_json::from_str(&root).unwrap();
    assert_eq!(tree.nodes[0].nodes[0].nodes.len(), 2);
    assert_eq!(start_from_tree(&tree), Ok(Daemon::new(9)));
}
