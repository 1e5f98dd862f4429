use xml_attr::name::{Name, OwnedName};

#[test]
fn name_display_local_only() {
    assert_eq!(&*Name::local("element").to_string(), "element");
}

#[test]
fn name_display_fully_qualified() {
    let name = Name::qualified("attribute", "urn:namespace", Some("n"));
    assert_eq!(&*name.to_string(), "{urn:namespace}n:attribute");
}

#[test]
fn name_display_namespace_without_prefix() {
    let name = Name::qualified("local", "urn:ns", None);
    assert_eq!(&*name.to_string(), "{urn:ns}local");
}

#[test]
fn owned_name_borrow_preserves_parts() {
    let owned = OwnedName::qualified(
        String::from("attribute"),
        String::from("urn:namespace"),
        Some(String::from("n")),
    );
    let borrowed = owned.borrow();
    assert_eq!(borrowed.local_name, "attribute");
    assert_eq!(borrowed.namespace, Some("urn:namespace"));
    assert_eq!(borrowed.prefix, Some("n"));
    assert_eq!(owned.to_string(), borrowed.to_string());
}

#[test]
fn name_display_prefix_without_namespace() {
    let name = Name {
        local_name: "local",
        namespace: None,
        prefix: Some("p"),
    };
    assert_eq!(&*name.to_string(), "p:local");
}

#[test]
fn name_equality_is_structural() {
    let a = Name::qualified("local", "urn:ns", Some("p"));
    let b = Name::qualified("local", "urn:ns", Some("p"));
    let c = Name::qualified("local", "urn:ns", None);
    let d = Name::local("local");
    assert_eq!(a, b);
    assert_ne!(a, c);
    assert_ne!(a, d);
    assert_ne!(c, d);
}

#[test]
fn owned_name_equality_is_structural() {
    let a = OwnedName::qualified(String::from("l"), String::from("u"), Some(String::from("p")));
    let b = OwnedName::qualified(String::from("l"), String::from("u"), Some(String::from("p")));
    let c = OwnedName::local(String::from("l"));
    assert_eq!(a, b);
    assert_ne!(a, c);
}
