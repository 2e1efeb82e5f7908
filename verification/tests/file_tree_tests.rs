use lala::file_tree::FileTreeNode;

#[test]
fn test_file_tree_node_creation() {
    let path = "/test/file.txt";
    let node = FileTreeNode::new(path, false);

    assert_eq!(node.name, "file.txt");
    assert_eq!(node.path, path);
    assert!(!node.is_dir);
    assert!(node.error.is_none());
}

#[test]
fn test_file_tree_node_with_error() {
    let path = "/test/dir";
    let error = "Access Denied".to_string();
    let node = FileTreeNode::with_error(path, error.clone());

    assert_eq!(node.name, "dir");
    assert!(node.is_dir);
    assert_eq!(node.error, Some(error));
}
