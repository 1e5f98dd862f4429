//! XML attributes: a qualified name paired with a raw string value, in a
//! borrowed flavor, [`Attribute`], and an owned flavor, [`OwnedAttribute`].
//!
//! Both render as `NAME="ESCAPED_VALUE"`, where the name renders by its own
//! rule and the value is escaped for a double-quoted attribute literal.
//! Equality is structural over the name and the raw, unescaped value:
//! escaping is a presentation concern, not an identity concern.

use vstd::prelude::*;

use vstd::std_specs::cmp::PartialEqSpec;

use crate::escape::entity_starts_at;
use crate::escape::escape_attr;
use crate::escape::escape_str_attribute;
use crate::escape::is_raw_special;
use crate::escape::lemma_escape_no_raw_specials;
use crate::name::Name;
use crate::name::NameModel;
use crate::name::OwnedName;
use crate::name::render_name;

verus! {

/// The mathematical model of an attribute: the model of its qualified name
/// and the character sequence of its raw, unescaped value.
pub ghost struct AttributeModel {
    pub name: NameModel,
    pub value: Seq<char>,
}

/// The textual rendering of an attribute: the rendered name, `="`, the
/// escaped value, and a closing `"`.
pub open spec fn render_attr(a: AttributeModel) -> Seq<char> {
    render_name(a.name) + seq!['=', '"'] + escape_attr(a.value) + seq!['"']
}

/// A borrowed XML attribute: a borrowed qualified name and a borrowed raw
/// string value.
#[derive(Clone, Copy, Debug, Hash)]
pub struct Attribute<'a> {
    /// The attribute's qualified name.
    pub name: Name<'a>,
    /// The attribute's raw, unescaped value.
    pub value: &'a str,
}

impl<'a> View for Attribute<'a> {
    type V = AttributeModel;

    open spec fn view(&self) -> AttributeModel {
        AttributeModel { name: self.name@, value: self.value@ }
    }
}

impl<'a> PartialEq for Attribute<'a> {
    /// Structural equality over the name and the raw value: the escaped,
    /// rendered form plays no part in it.
    fn eq(&self, other: &Attribute<'a>) -> (r: bool) {
        let r = self.name == other.name && crate::name::str_eq(self.value, other.value);
        proof {
            if r {
                assert(self@ == other@);
            }
        }
        r
    }
}

impl<'a> vstd::std_specs::cmp::PartialEqSpecImpl for Attribute<'a> {
    open spec fn obeys_eq_spec() -> bool {
        true
    }

    open spec fn eq_spec(&self, other: &Attribute<'a>) -> bool {
        self@ == other@
    }
}

impl<'a> Eq for Attribute<'a> {}

impl<'a> Attribute<'a> {
    /// Creates a borrowed attribute from a borrowed name and a borrowed raw
    /// value.  The value is stored as given: any character is accepted, and
    /// escaping happens only at rendering time.
    pub fn new(name: Name<'a>, value: &'a str) -> (r: Attribute<'a>)
        requires
            name@.wf(),
        ensures
            r@ == (AttributeModel { name: name@, value: value@ }),
    {
        Attribute { name, value }
    }

    /// Renders the attribute as `NAME="ESCAPED_VALUE"`.
    pub fn to_string(&self) -> (r: String)
        ensures
            r@ == render_attr(self@),
    {
        let mut out = self.name.to_string();
        out.append("=\"");
        let escaped = escape_str_attribute(self.value);
        out.append(escaped.as_str());
        out.append("\"");
        proof {
            reveal_strlit("=\"");
            reveal_strlit("\"");
            assert(out@ =~= render_attr(self@));
        }
        out
    }
}

/// An owned XML attribute: an owned qualified name and an owned raw string
/// value.
#[derive(Clone, Debug, Hash)]
pub struct OwnedAttribute {
    /// The attribute's qualified name.
    pub name: OwnedName,
    /// The attribute's raw, unescaped value.
    pub value: String,
}

impl View for OwnedAttribute {
    type V = AttributeModel;

    open spec fn view(&self) -> AttributeModel {
        AttributeModel { name: self.name@, value: self.value@ }
    }
}

impl PartialEq for OwnedAttribute {
    /// Structural equality over the name and the raw value: the escaped,
    /// rendered form plays no part in it.
    fn eq(&self, other: &OwnedAttribute) -> (r: bool) {
        let r = self.name == other.name && crate::name::str_eq(
            self.value.as_str(),
            other.value.as_str(),
        );
        proof {
            if r {
                assert(self@ == other@);
            }
        }
        r
    }
}

impl vstd::std_specs::cmp::PartialEqSpecImpl for OwnedAttribute {
    open spec fn obeys_eq_spec() -> bool {
        true
    }

    open spec fn eq_spec(&self, other: &OwnedAttribute) -> bool {
        self@ == other@
    }
}

impl Eq for OwnedAttribute {}

impl OwnedAttribute {
    /// Creates an owned attribute from an owned name and an owned raw value.
    /// The value is stored with its content unaltered.
    pub fn new(name: OwnedName, value: String) -> (r: OwnedAttribute)
        requires
            name@.wf(),
        ensures
            r@ == (AttributeModel { name: name@, value: value@ }),
    {
        OwnedAttribute { name, value }
    }

    /// Returns a borrowed `Attribute` referencing this owned attribute's name
    /// and value; the view is unchanged, so the borrowed attribute renders
    /// and compares exactly as this one does.
    pub fn borrow(&self) -> (r: Attribute<'_>)
        ensures
            r@ == self@,
    {
        Attribute { name: self.name.borrow(), value: self.value.as_str() }
    }

    /// Renders the attribute as `NAME="ESCAPED_VALUE"`.
    pub fn to_string(&self) -> (r: String)
        ensures
            r@ == render_attr(self@),
    {
        self.borrow().to_string()
    }
}

/// Law: in the rendering of an attribute, the quoted portion — what stands
/// strictly between the opening `="` and the closing `"` — is exactly the
/// escaped value, and that portion contains no literal `<`, `>`, `"` or `'`,
/// while every `&` in it is the start of a produced entity reference.
pub proof fn lemma_rendered_value_escaped(a: AttributeModel)
    ensures
        render_attr(a).len() == render_name(a.name).len() + 3 + escape_attr(a.value).len(),
        render_attr(a).subrange(
            render_name(a.name).len() as int + 2,
            render_attr(a).len() as int - 1,
        ) == escape_attr(a.value),
        forall|i: int|
            0 <= i < escape_attr(a.value).len() ==> !is_raw_special(
                #[trigger] escape_attr(a.value)[i],
            ),
        forall|i: int|
            0 <= i < escape_attr(a.value).len() && #[trigger] escape_attr(a.value)[i] == '&'
                ==> entity_starts_at(escape_attr(a.value), i),
{
    lemma_escape_no_raw_specials(a.value);
    assert(render_attr(a).subrange(render_name(a.name).len() as int + 2, render_attr(a).len() as int - 1)
        =~= escape_attr(a.value));
}

/// Law: equality of attributes is structural over the qualified name and the
/// raw, unescaped value alone.  Rendering borrows an attribute immutably and
/// returns a fresh string, so no number of renderings of either side can
/// change it: two attributes constructed from the same name and value compare
/// equal however often each has been rendered, and equal attributes always
/// render to the same text.
pub proof fn lemma_eq_independent_of_rendering<'a>(a: Attribute<'a>, b: Attribute<'a>)
    ensures
        a.eq_spec(&b) == (a@ == b@),
        a@ == b@ ==> render_attr(a@) == render_attr(b@),
{
}

/// Law: the borrowed view of an owned attribute is equal to an independently
/// constructed borrowed attribute carrying the same name and value, and the
/// two render to the identical string.  Here `v` stands for the result of
/// `OwnedAttribute::borrow`, whose contract gives `v@ == o@`, and `w` for the
/// independently constructed attribute.
pub proof fn lemma_borrow_owned_consistency<'a>(o: &OwnedAttribute, v: Attribute<'a>, w: Attribute<
    'a,
>)
    requires
        v@ == o@,
        w@ == o@,
    ensures
        v.eq_spec(&w),
        render_attr(v@) == render_attr(w@),
{
}

} // verus!
