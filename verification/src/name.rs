//! Qualified XML names.
//!
//! A qualified name is a local name together with an optional namespace URI
//! and an optional prefix.  It comes in a borrowed flavor, [`Name`], and an
//! owned flavor, [`OwnedName`], and renders as `{namespace}prefix:local`,
//! the namespace part and the prefix part each appearing only when present.

use vstd::prelude::*;

verus! {

/// The model of an optional borrowed string: the character sequence of the
/// string when present.
pub open spec fn opt_str_view(o: Option<&str>) -> Option<Seq<char>> {
    match o {
        Option::Some(s) => Option::Some(s@),
        Option::None => Option::None,
    }
}

/// The model of an optional owned string: the character sequence of the
/// string when present.
pub open spec fn opt_string_view(o: Option<String>) -> Option<Seq<char>> {
    match o {
        Option::Some(s) => Option::Some(s@),
        Option::None => Option::None,
    }
}

/// Decides whether two borrowed strings hold the same characters.
pub(crate) fn str_eq(a: &str, b: &str) -> (r: bool)
    ensures
        r == (a@ == b@),
{
    let alen = a.unicode_len();
    let blen = b.unicode_len();
    if alen != blen {
        return false;
    }
    let mut i: usize = 0;
    while i < alen
        invariant
            i <= alen,
            alen == a@.len(),
            alen == b@.len(),
            forall|j: int| 0 <= j < i ==> a@[j] == b@[j],
        decreases alen - i,
    {
        if a.get_char(i) != b.get_char(i) {
            return false;
        }
        i = i + 1;
    }
    proof {
        assert(a@ =~= b@);
    }
    true
}

/// Decides whether two optional borrowed strings agree: both absent, or both
/// present with the same characters.
fn opt_str_eq(a: &Option<&str>, b: &Option<&str>) -> (r: bool)
    ensures
        r == (opt_str_view(*a) == opt_str_view(*b)),
{
    match (a, b) {
        (Some(x), Some(y)) => str_eq(x, y),
        (None, None) => true,
        _ => false,
    }
}

/// Decides whether two optional owned strings agree: both absent, or both
/// present with the same characters.
fn opt_string_eq(a: &Option<String>, b: &Option<String>) -> (r: bool)
    ensures
        r == (opt_string_view(*a) == opt_string_view(*b)),
{
    match (a, b) {
        (Some(x), Some(y)) => str_eq(x.as_str(), y.as_str()),
        (None, None) => true,
        _ => false,
    }
}

/// The mathematical model of a qualified name: the character sequences of its
/// local name and of its optional namespace URI and prefix.
pub ghost struct NameModel {
    pub local: Seq<char>,
    pub namespace: Option<Seq<char>>,
    pub prefix: Option<Seq<char>>,
}

impl NameModel {
    /// A qualified name is well formed when its local part is non-empty.
    pub open spec fn wf(self) -> bool {
        self.local.len() > 0
    }
}

/// The textual rendering of a qualified name: `{namespace}` when a namespace
/// is present, then `prefix:` when a prefix is present, then the local name.
pub open spec fn render_name(n: NameModel) -> Seq<char> {
    (match n.namespace {
        Option::Some(ns) => seq!['{'] + ns + seq!['}'],
        Option::None => Seq::empty(),
    }) + (match n.prefix {
        Option::Some(p) => p + seq![':'],
        Option::None => Seq::empty(),
    }) + n.local
}

/// A borrowed qualified name: a local name with an optional namespace URI and
/// an optional prefix, all referencing externally owned string data.
#[derive(Clone, Copy, Debug, Hash)]
pub struct Name<'a> {
    /// The local part of the name.
    pub local_name: &'a str,
    /// The namespace URI, if any.
    pub namespace: Option<&'a str>,
    /// The namespace prefix, if any.
    pub prefix: Option<&'a str>,
}

impl<'a> View for Name<'a> {
    type V = NameModel;

    open spec fn view(&self) -> NameModel {
        NameModel {
            local: self.local_name@,
            namespace: opt_str_view(self.namespace),
            prefix: opt_str_view(self.prefix),
        }
    }
}

impl<'a> PartialEq for Name<'a> {
    /// Structural equality: two names are equal exactly when their local
    /// parts, namespaces and prefixes hold the same characters.
    fn eq(&self, other: &Name<'a>) -> (r: bool) {
        let r = str_eq(self.local_name, other.local_name) && opt_str_eq(
            &self.namespace,
            &other.namespace,
        ) && opt_str_eq(&self.prefix, &other.prefix);
        proof {
            if r {
                assert(self@ == other@);
            }
        }
        r
    }
}

impl<'a> vstd::std_specs::cmp::PartialEqSpecImpl for Name<'a> {
    open spec fn obeys_eq_spec() -> bool {
        true
    }

    open spec fn eq_spec(&self, other: &Name<'a>) -> bool {
        self@ == other@
    }
}

impl<'a> Eq for Name<'a> {}

impl<'a> Name<'a> {
    /// Creates a name that has only a local part.
    pub fn local(local_name: &'a str) -> (r: Name<'a>)
        requires
            local_name@.len() > 0,
        ensures
            r@ == (NameModel { local: local_name@, namespace: Option::None, prefix: Option::None }),
            r@.wf(),
    {
        Name { local_name, namespace: None, prefix: None }
    }

    /// Creates a name with a local part, a namespace URI and an optional
    /// prefix.
    pub fn qualified(local_name: &'a str, namespace: &'a str, prefix: Option<&'a str>) -> (r: Name<
        'a,
    >)
        requires
            local_name@.len() > 0,
        ensures
            r@ == (NameModel {
                local: local_name@,
                namespace: Option::Some(namespace@),
                prefix: opt_str_view(prefix),
            }),
            r@.wf(),
    {
        Name { local_name, namespace: Some(namespace), prefix }
    }

    /// Renders the name as `{namespace}prefix:local`, omitting the namespace
    /// part and the prefix part when absent.
    pub fn to_string(&self) -> (r: String)
        ensures
            r@ == render_name(self@),
    {
        let mut out = String::new();
        if let Some(ns) = self.namespace {
            out.append("{");
            out.append(ns);
            out.append("}");
        }
        if let Some(p) = self.prefix {
            out.append(p);
            out.append(":");
        }
        out.append(self.local_name);
        proof {
            reveal_strlit("{");
            reveal_strlit("}");
            reveal_strlit(":");
            assert(out@ =~= render_name(self@));
        }
        out
    }
}

/// An owned qualified name: a local name with an optional namespace URI and
/// an optional prefix, all held as owned strings.
#[derive(Clone, Debug, Hash)]
pub struct OwnedName {
    /// The local part of the name.
    pub local_name: String,
    /// The namespace URI, if any.
    pub namespace: Option<String>,
    /// The namespace prefix, if any.
    pub prefix: Option<String>,
}

impl View for OwnedName {
    type V = NameModel;

    open spec fn view(&self) -> NameModel {
        NameModel {
            local: self.local_name@,
            namespace: opt_string_view(self.namespace),
            prefix: opt_string_view(self.prefix),
        }
    }
}

impl PartialEq for OwnedName {
    /// Structural equality: two names are equal exactly when their local
    /// parts, namespaces and prefixes hold the same characters.
    fn eq(&self, other: &OwnedName) -> (r: bool) {
        let r = self.local_name == other.local_name && opt_string_eq(
            &self.namespace,
            &other.namespace,
        ) && opt_string_eq(&self.prefix, &other.prefix);
        proof {
            if r {
                assert(self@ == other@);
            }
        }
        r
    }
}

impl vstd::std_specs::cmp::PartialEqSpecImpl for OwnedName {
    open spec fn obeys_eq_spec() -> bool {
        true
    }

    open spec fn eq_spec(&self, other: &OwnedName) -> bool {
        self@ == other@
    }
}

impl Eq for OwnedName {}

impl OwnedName {
    /// Creates an owned name that has only a local part.
    pub fn local(local_name: String) -> (r: OwnedName)
        requires
            local_name@.len() > 0,
        ensures
            r@ == (NameModel { local: local_name@, namespace: Option::None, prefix: Option::None }),
            r@.wf(),
    {
        OwnedName { local_name, namespace: None, prefix: None }
    }

    /// Creates an owned name with a local part, a namespace URI and an
    /// optional prefix.
    pub fn qualified(local_name: String, namespace: String, prefix: Option<String>) -> (r:
        OwnedName)
        requires
            local_name@.len() > 0,
        ensures
            r@ == (NameModel {
                local: local_name@,
                namespace: Option::Some(namespace@),
                prefix: opt_string_view(prefix),
            }),
            r@.wf(),
    {
        OwnedName { local_name, namespace: Some(namespace), prefix }
    }

    /// Returns a borrowed `Name` referencing this owned name's data; the view
    /// is unchanged, so the borrowed name renders and compares exactly as
    /// this one does.
    pub fn borrow(&self) -> (r: Name<'_>)
        ensures
            r@ == self@,
    {
        Name {
            local_name: self.local_name.as_str(),
            namespace: match &self.namespace {
                Some(ns) => Some(ns.as_str()),
                None => None,
            },
            prefix: match &self.prefix {
                Some(p) => Some(p.as_str()),
                None => None,
            },
        }
    }

    /// Renders the name as `{namespace}prefix:local`, omitting the namespace
    /// part and the prefix part when absent.
    pub fn to_string(&self) -> (r: String)
        ensures
            r@ == render_name(self@),
    {
        self.borrow().to_string()
    }
}

} // verus!
