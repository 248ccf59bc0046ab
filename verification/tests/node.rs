use jpreprocess::node::NJDNode;

#[test]
fn single_node() {
    let node = NJDNode::new_single("．,名詞,接尾,助数詞,*,*,*,．,テン,テン,0/2,*,-1");
    assert_eq!(node.string, "．");
    assert!(!node.is_renyou());

    assert_eq!(
        node.to_string(),
        "．,名詞,接尾,助数詞,*,*,*,．,テン,テン,0/2,*,-1"
    )
}

#[test]
fn multiple_nodes() {
    let nodes = NJDNode::load_csv("あーあ,感動詞,*,*,*,*,*,あー:あ,アー:ア,アー:ア,1/2:1/1,C1");
    assert_eq!(nodes.len(), 2);

    assert_eq!(
        nodes[0].to_string(),
        "あー,感動詞,*,*,*,*,*,あー,アー,アー,1/2,C1,-1"
    );
    assert_eq!(
        nodes[1].to_string(),
        "あ,感動詞,*,*,*,*,*,あ,ア,ア,1/1,C1,0"
    );
}

#[test]
fn test_send() {
    fn assert_send<T: Send>() {}
    assert_send::<NJDNode>();
}

#[test]
fn test_sync() {
    fn assert_sync<T: Sync>() {}
    assert_sync::<NJDNode>();
}
