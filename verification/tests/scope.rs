use cordis_rs::Scope;

#[test]
fn root_is_named_root() {
    let root = Scope::root();
    assert_eq!(root.id(), "root");
    assert_eq!(root.id, "root");
}

#[test]
fn child_takes_its_id_and_nests() {
    let mut root = Scope::root();
    let child = root.child("plugin.a");
    assert_eq!(child.id(), "plugin.a");
    let grandchild = child.child("inner");
    assert_eq!(grandchild.id(), "inner");
    let again = root.child("plugin.a");
    assert_eq!(again.id(), "plugin.a");
    let other = root.child("plugin.b");
    assert_eq!(other.id(), "plugin.b");
    assert_eq!(root.id(), "root");
}

#[test]
fn released_child_is_gone() {
    let mut root = Scope::root();
    root.child("a").child("inner");
    root.child("b");
    assert!(root.release_child("a"));
    assert!(!root.release_child("a"));
    assert!(!root.release_child("zzz"));
    assert!(root.release_child("b"));
}
