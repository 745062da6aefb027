use tsproxy_operator::finalizers::finalizer;
use tsproxy_operator::meta::{ObjectMeta, OwnerReference};

fn owner(name: &str, uid: &str) -> OwnerReference {
    OwnerReference {
        api_version: "v1".to_string(),
        block_owner_deletion: None,
        controller: None,
        kind: "Pod".to_string(),
        name: name.to_string(),
        uid: uid.to_string(),
    }
}

#[test]
fn name_comes_before_the_prefix() {
    let mut meta = ObjectMeta::empty();
    assert_eq!(meta.name_any(), "");
    meta.generate_name = Some("web-".to_string());
    assert_eq!(meta.name_any(), "web-");
    meta.name = Some("web-1".to_string());
    assert_eq!(meta.name_any(), "web-1");
}

#[test]
fn owners_are_found_by_uid() {
    let mut meta = ObjectMeta::empty();
    assert!(!meta.owned_by(&"u1".to_string()));
    meta.owner_references = Some(vec![owner("a", "u1"), owner("b", "u2")]);
    assert!(meta.owned_by(&"u1".to_string()));
    assert!(meta.owned_by(&"u2".to_string()));
    assert!(!meta.owned_by(&"a".to_string()));
}

#[test]
fn first_owner_is_the_first() {
    let mut meta = ObjectMeta::empty();
    assert_eq!(meta.first_owner(), None);
    meta.owner_references = Some(Vec::new());
    assert_eq!(meta.first_owner(), None);
    meta.owner_references = Some(vec![owner("a", "u1"), owner("b", "u2")]);
    assert_eq!(meta.first_owner(), Some("a".to_string()));
}

#[test]
fn added_owner_comes_last() {
    let meta = ObjectMeta::empty().add_owner(owner("a", "u1")).add_owner(owner("b", "u2"));
    assert!(meta.owned_by(&"u1".to_string()));
    assert!(meta.owned_by(&"u2".to_string()));
    assert_eq!(meta.owner_references, Some(vec![owner("a", "u1"), owner("b", "u2")]));
}

#[test]
fn finalizer_is_added_once() {
    let mut meta = ObjectMeta::empty();
    assert!(!meta.has_finalizer());
    assert_eq!(meta.ensure_finalizer(), vec![finalizer()]);
    meta.finalizers = Some(vec!["other".to_string()]);
    assert!(!meta.has_finalizer());
    let with = meta.ensure_finalizer();
    assert_eq!(with, vec!["other".to_string(), finalizer()]);
    meta.finalizers = Some(with.clone());
    assert!(meta.has_finalizer());
    assert_eq!(meta.ensure_finalizer(), with);
}

#[test]
fn finalizers_of_others_stay() {
    let mut meta = ObjectMeta::empty();
    assert!(meta.remove_finalizer().is_empty());
    meta.finalizers = Some(vec!["a".to_string(), finalizer(), "b".to_string()]);
    let rest = meta.remove_finalizer();
    assert_eq!(rest, vec!["a".to_string(), "b".to_string()]);
    meta.finalizers = Some(rest.clone());
    assert!(!meta.has_finalizer());
    meta.finalizers = Some(meta.ensure_finalizer());
    assert_eq!(meta.remove_finalizer(), rest);
}
