use xml_attr::attribute::{Attribute, OwnedAttribute};
use xml_attr::name::{Name, OwnedName};

#[test]
fn attribute_display() {
    let attr = Attribute::new(
        Name::qualified("attribute", "urn:namespace", Some("n")),
        "its value with > & \" ' < weird symbols",
    );

    assert_eq!(
        &*attr.to_string(),
        "{urn:namespace}n:attribute=\"its value with &gt; &amp; &quot; &apos; &lt; weird symbols\""
    )
}

#[test]
fn attribute_display_empty_value() {
    let attr = Attribute::new(Name::local("id"), "");
    assert_eq!(&*attr.to_string(), "id=\"\"");
}

#[test]
fn attribute_display_safe_value_unchanged() {
    let attr = Attribute::new(Name::local("name"), "hello world");
    assert_eq!(&*attr.to_string(), "name=\"hello world\"");
}

#[test]
fn attribute_equality_ignores_rendering() {
    let a = Attribute::new(Name::qualified("attribute", "urn:namespace", Some("n")), "a & b");
    let b = Attribute::new(Name::qualified("attribute", "urn:namespace", Some("n")), "a & b");
    assert_eq!(a, b);
    let _ = a.to_string();
    let _ = a.to_string();
    let _ = b.to_string();
    assert_eq!(a, b);
    assert_eq!(a.to_string(), b.to_string());
}

#[test]
fn attribute_equality_is_structural_over_raw_value() {
    let a = Attribute::new(Name::local("key"), "x < y");
    let b = Attribute::new(Name::local("key"), "x < y");
    let c = Attribute::new(Name::local("key"), "x > y");
    let d = Attribute::new(Name::local("other"), "x < y");
    assert_eq!(a, b);
    assert_ne!(a, c);
    assert_ne!(a, d);
}

#[test]
fn owned_attribute_borrow_matches_independent_attribute() {
    let owned = OwnedAttribute::new(
        OwnedName::qualified(
            String::from("attribute"),
            String::from("urn:namespace"),
            Some(String::from("n")),
        ),
        String::from("a \"quoted\" value"),
    );
    let independent = Attribute::new(
        Name::qualified("attribute", "urn:namespace", Some("n")),
        "a \"quoted\" value",
    );
    assert_eq!(owned.borrow(), independent);
    assert_eq!(owned.borrow().to_string(), independent.to_string());
    assert_eq!(owned.to_string(), independent.to_string());
}

#[test]
fn owned_attribute_construction_keeps_content() {
    let value = String::from("kept as it is");
    let owned = OwnedAttribute::new(OwnedName::local(String::from("k")), value);
    assert_eq!(owned.value, "kept as it is");
    assert_eq!(owned.name.local_name, "k");
    assert_eq!(&*owned.to_string(), "k=\"kept as it is\"");
}

#[test]
fn owned_attribute_display_no_namespace() {
    let owned = OwnedAttribute::new(OwnedName::local(String::from("id")), String::from(""));
    assert_eq!(&*owned.to_string(), "id=\"\"");
}

#[test]
fn owned_attribute_equality() {
    let a = OwnedAttribute::new(OwnedName::local(String::from("id")), String::from("v & w"));
    let b = OwnedAttribute::new(OwnedName::local(String::from("id")), String::from("v & w"));
    let c = OwnedAttribute::new(OwnedName::local(String::from("id")), String::from("v &amp; w"));
    assert_eq!(a, b);
    assert_ne!(a, c);
    let _ = a.to_string();
    assert_eq!(a, b);
}

#[test]
fn rendered_quoted_portion_has_no_raw_specials() {
    let attr = Attribute::new(Name::local("a"), "x<y & z>'\" done");
    let rendered = attr.to_string();
    let start = rendered.find("=\"").unwrap() + 2;
    let quoted = &rendered[start..rendered.len() - 1];
    let chars: Vec<char> = quoted.chars().collect();
    for (i, c) in chars.iter().enumerate() {
        assert!(*c != '<' && *c != '>' && *c != '"' && *c != '\'');
        if *c == '&' {
            let rest: String = chars[i..].iter().collect();
            assert!(
                rest.starts_with("&amp;")
                    || rest.starts_with("&lt;")
                    || rest.starts_with("&gt;")
                    || rest.starts_with("&quot;")
                    || rest.starts_with("&apos;")
            );
        }
    }
}

#[test]
fn attribute_fields_are_public() {
    let name = Name::local("width");
    let attr = Attribute { name, value: "42" };
    assert_eq!(&*attr.to_string(), "width=\"42\"");
}
