use unii::FileTree;

#[test]
fn flatten_single_file() {
    let tree = FileTree::File("body".to_string());
    let flat = tree.into_hashmap();
    assert_eq!(flat, vec![(String::new(), "body".to_string())]);
}

#[test]
fn flatten_nested_pair() {
    let tree = FileTree::Directory(vec![(
        "src".to_string(),
        FileTree::Directory(vec![("main.ext".to_string(), FileTree::File("body".to_string()))]),
    )]);
    let flat = tree.into_hashmap();
    assert_eq!(flat, vec![("src/main.ext".to_string(), "body".to_string())]);
}

#[test]
fn flatten_one_entry_per_leaf() {
    let tree = FileTree::Directory(vec![
        ("a".to_string(), FileTree::File("1".to_string())),
        (
            "b".to_string(),
            FileTree::Directory(vec![
                ("c".to_string(), FileTree::File("2".to_string())),
                (
                    "d".to_string(),
                    FileTree::Directory(vec![(
                        "e".to_string(),
                        FileTree::File("3".to_string()),
                    )]),
                ),
            ]),
        ),
    ]);
    let flat = tree.into_hashmap();
    assert_eq!(flat.len(), 3);
    assert_eq!(flat[0], ("a".to_string(), "1".to_string()));
    assert_eq!(flat[1], ("b/c".to_string(), "2".to_string()));
    assert_eq!(flat[2], ("b/d/e".to_string(), "3".to_string()));
    for i in 0..flat.len() {
        for j in 0..i {
            assert_ne!(flat[i].0, flat[j].0);
        }
    }
}

#[test]
fn flatten_empty_directory() {
    let tree = FileTree::Directory(vec![]);
    let flat = tree.into_hashmap();
    assert!(flat.is_empty());
}

#[test]
fn flatten_deep_chain() {
    let tree = FileTree::Directory(vec![(
        "a".to_string(),
        FileTree::Directory(vec![(
            "b".to_string(),
            FileTree::Directory(vec![("c".to_string(), FileTree::File("x".to_string()))]),
        )]),
    )]);
    let flat = tree.into_hashmap();
    assert_eq!(flat, vec![("a/b/c".to_string(), "x".to_string())]);
}
