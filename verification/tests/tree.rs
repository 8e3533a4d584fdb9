use transmission_tui::components::properties::files::{
    insert_into_tree, parse_node, path_segments, Node,
};
use transmission_tui::data::Files;

fn file(name: &str) -> Files {
    Files {
        name: name.to_string(),
        downloaded: "1.0 KB".to_string(),
        total_size: "2.0 KB".to_string(),
        priority: "Normal".to_string(),
        wanted: true,
    }
}

fn shape(nodes: &[Node]) -> String {
    let mut out = String::new();
    for node in nodes {
        match node {
            Node::File(f) => {
                out.push_str(&f.name);
                out.push(';');
            }
            Node::Directory(name, children) => {
                out.push_str(name);
                out.push('{');
                out.push_str(&shape(children));
                out.push('}');
            }
        }
    }
    out
}

#[test]
fn tree_of_three_paths() {
    let nodes = parse_node(&vec![file("a/b/c"), file("a/b/d"), file("x")]);
    assert_eq!(nodes.len(), 2);
    match &nodes[0] {
        Node::Directory(name, children) => {
            assert_eq!(name, "a");
            assert_eq!(children.len(), 1);
            match &children[0] {
                Node::Directory(name, leaves) => {
                    assert_eq!(name, "b");
                    assert_eq!(leaves.len(), 2);
                    assert!(matches!(&leaves[0], Node::File(f) if f.name == "c"));
                    assert!(matches!(&leaves[1], Node::File(f) if f.name == "d"));
                }
                Node::File(_) => panic!("b is a directory"),
            }
        }
        Node::File(_) => panic!("a is a directory"),
    }
    assert!(matches!(&nodes[1], Node::File(f) if f.name == "x"));
}

#[test]
fn siblings_stand_in_first_seen_order() {
    let nodes = parse_node(&vec![
        file("z/1"),
        file("top"),
        file("a/1"),
        file("z/2"),
        file("a/sub/1"),
        file("m"),
    ]);
    assert_eq!(shape(&nodes), "z{1;2;}top;a{1;sub{1;}}m;");
}

#[test]
fn equal_paths_give_two_leaves() {
    let nodes = parse_node(&vec![file("d/f"), file("d/f")]);
    assert_eq!(shape(&nodes), "d{f;f;}");
}

#[test]
fn a_file_and_a_directory_may_share_a_name() {
    let nodes = parse_node(&vec![file("a"), file("a/b"), file("a")]);
    assert_eq!(shape(&nodes), "a;a{b;}a;");
}

#[test]
fn empty_segments_are_names_too() {
    assert_eq!(shape(&parse_node(&vec![file("")])), ";");
    assert_eq!(shape(&parse_node(&vec![file("/x"), file("a//b"), file("a/")])), "{x;}a{{b;};}");
}

#[test]
fn a_leaf_keeps_what_its_file_holds() {
    let mut record = file("dir/name.bin");
    record.downloaded = "5.0 MB".to_string();
    record.total_size = "9.9 MB".to_string();
    record.priority = "High".to_string();
    record.wanted = false;
    let nodes = parse_node(&vec![record]);
    match &nodes[0] {
        Node::Directory(_, children) => match &children[0] {
            Node::File(f) => {
                assert_eq!(f.name, "name.bin");
                assert_eq!(f.downloaded, "5.0 MB");
                assert_eq!(f.total_size, "9.9 MB");
                assert_eq!(f.priority, "High");
                assert!(!f.wanted);
            }
            Node::Directory(..) => panic!("a file was put"),
        },
        Node::File(_) => panic!("dir is a directory"),
    }
}

#[test]
fn no_files_no_tree() {
    assert!(parse_node(&Vec::new()).is_empty());
}

#[test]
fn insert_enters_the_first_directory_of_the_name() {
    let mut nodes = vec![
        Node::File(file("d")),
        Node::Directory("d".to_string(), Vec::new()),
        Node::Directory("d".to_string(), Vec::new()),
    ];
    let parts = vec!["d".to_string(), "new".to_string()];
    insert_into_tree(&mut nodes, &parts, file("new"));
    assert_eq!(shape(&nodes), "d;d{new;}d{}");
    insert_into_tree(&mut nodes, &[], file("nothing"));
    assert_eq!(shape(&nodes), "d;d{new;}d{}");
}

#[test]
fn path_segments_of_a_path() {
    assert_eq!(path_segments("a/b/c"), vec!["a", "b", "c"]);
    assert_eq!(path_segments("x"), vec!["x"]);
}

#[test]
fn labels_of_nodes() {
    let nodes = parse_node(&vec![file("dir/name")]);
    assert_eq!(nodes[0].label(), "dir");
    assert_eq!(nodes[0].identifier(), "dir");
    match &nodes[0] {
        Node::Directory(_, children) => {
            assert_eq!(children[0].identifier(), "name");
            assert_eq!(
                children[0].label(),
                format!("{} {} {:>10}  {:>10}  {:>10}", true, "name", "1.0 KB", "2.0 KB", "Normal")
            );
            assert_eq!(children[0].label(), "true name     1.0 KB      2.0 KB      Normal");
        }
        Node::File(_) => panic!("dir is a directory"),
    }
}
