//! XML attribute handling: a qualified name paired with a string value, in a
//! borrowed and an owned flavor, together with the canonical textual rendering
//! `NAME="ESCAPED_VALUE"` and the escaping of XML-significant characters that
//! makes a raw value safe inside a double-quoted attribute literal.

pub mod attribute;
pub mod escape;
pub mod name;
