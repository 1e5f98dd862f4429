//! Escaping of attribute values.
//!
//! A raw attribute value may contain any character.  Before it can stand
//! inside a double-quoted XML attribute literal, each of the five
//! XML-significant characters must be replaced by its named entity reference:
//! `&` by `&amp;`, `<` by `&lt;`, `>` by `&gt;`, `"` by `&quot;` and `'` by
//! `&apos;`.  Every other character passes through unchanged, in its original
//! order.  The transformation is total and deterministic.

use vstd::prelude::*;

verus! {

/// The replacement for a single character: one of the five XML-significant
/// characters becomes its named entity reference, any other character is kept
/// as itself.
pub open spec fn escape_char(c: char) -> Seq<char> {
    if c == '&' {
        seq!['&', 'a', 'm', 'p', ';']
    } else if c == '<' {
        seq!['&', 'l', 't', ';']
    } else if c == '>' {
        seq!['&', 'g', 't', ';']
    } else if c == '"' {
        seq!['&', 'q', 'u', 'o', 't', ';']
    } else if c == '\'' {
        seq!['&', 'a', 'p', 'o', 's', ';']
    } else {
        seq![c]
    }
}

/// The escaped form of a raw value: the concatenation of `escape_char` over
/// its characters, in order.
pub open spec fn escape_attr(s: Seq<char>) -> Seq<char>
    decreases s.len(),
{
    if s.len() == 0 {
        Seq::empty()
    } else {
        escape_attr(s.drop_last()) + escape_char(s.last())
    }
}

/// A character that must never stand raw inside a double-quoted attribute
/// literal.  The ampersand is treated separately: it is allowed, but only as
/// the first character of an entity reference.
pub open spec fn is_raw_special(c: char) -> bool {
    c == '<' || c == '>' || c == '"' || c == '\''
}

/// One of the five produced entity references begins at position `i` of `r`.
pub open spec fn entity_starts_at(r: Seq<char>, i: int) -> bool {
    ||| (i + 5 <= r.len() && r.subrange(i, i + 5) == escape_char('&'))
    ||| (i + 4 <= r.len() && r.subrange(i, i + 4) == escape_char('<'))
    ||| (i + 4 <= r.len() && r.subrange(i, i + 4) == escape_char('>'))
    ||| (i + 6 <= r.len() && r.subrange(i, i + 6) == escape_char('"'))
    ||| (i + 6 <= r.len() && r.subrange(i, i + 6) == escape_char('\''))
}

/// Law: the escaped form of any raw value contains no literal `<`, `>`, `"`
/// or `'` at all, and every `&` in it is the start of one of the five
/// produced entity references.
pub proof fn lemma_escape_no_raw_specials(s: Seq<char>)
    ensures
        forall|i: int|
            0 <= i < escape_attr(s).len() ==> !is_raw_special(#[trigger] escape_attr(s)[i]),
        forall|i: int|
            0 <= i < escape_attr(s).len() && #[trigger] escape_attr(s)[i] == '&'
                ==> entity_starts_at(escape_attr(s), i),
    decreases s.len(),
{
    if s.len() == 0 {
    } else {
        lemma_escape_no_raw_specials(s.drop_last());
        let r1 = escape_attr(s.drop_last());
        let e = escape_char(s.last());
        let r = escape_attr(s);
        let c = s.last();
        assert(r == r1 + e);
        assert forall|i: int| 0 <= i < r.len() implies !is_raw_special(#[trigger] r[i]) by {
            if i < r1.len() {
                assert(r[i] == r1[i]);
            } else {
                assert(r[i] == e[i - r1.len()]);
            }
        }
        assert forall|i: int| 0 <= i < r.len() && #[trigger] r[i] == '&' implies entity_starts_at(
            r,
            i,
        ) by {
            if i < r1.len() {
                assert(r1[i] == '&');
                assert(entity_starts_at(r1, i));
                if i + 5 <= r1.len() && r1.subrange(i, i + 5) == escape_char('&') {
                    assert(r.subrange(i, i + 5) =~= r1.subrange(i, i + 5));
                } else if i + 4 <= r1.len() && r1.subrange(i, i + 4) == escape_char('<') {
                    assert(r.subrange(i, i + 4) =~= r1.subrange(i, i + 4));
                } else if i + 4 <= r1.len() && r1.subrange(i, i + 4) == escape_char('>') {
                    assert(r.subrange(i, i + 4) =~= r1.subrange(i, i + 4));
                } else if i + 6 <= r1.len() && r1.subrange(i, i + 6) == escape_char('"') {
                    assert(r.subrange(i, i + 6) =~= r1.subrange(i, i + 6));
                } else {
                    assert(i + 6 <= r1.len() && r1.subrange(i, i + 6) == escape_char('\''));
                    assert(r.subrange(i, i + 6) =~= r1.subrange(i, i + 6));
                }
            } else {
                let j = i - r1.len();
                assert(e[j] == '&');
                if c == '&' {
                    assert(j == 0);
                    assert(r.subrange(i, i + 5) =~= e);
                } else if c == '<' {
                    assert(j == 0);
                    assert(r.subrange(i, i + 4) =~= e);
                } else if c == '>' {
                    assert(j == 0);
                    assert(r.subrange(i, i + 4) =~= e);
                } else if c == '"' {
                    assert(j == 0);
                    assert(r.subrange(i, i + 6) =~= e);
                } else if c == '\'' {
                    assert(j == 0);
                    assert(r.subrange(i, i + 6) =~= e);
                } else {
                    assert(e[j] == c && !(c == '&'));
                }
            }
        }
    }
}

/// Escapes a raw string so that it can stand inside a double-quoted XML
/// attribute literal: the five XML-significant characters become named entity
/// references, all other characters pass through unchanged.
pub fn escape_str_attribute(s: &str) -> (r: String)
    ensures
        r@ == escape_attr(s@),
{
    let len = s.unicode_len();
    let mut out = String::new();
    let mut i: usize = 0;
    proof {
        assert(s@.subrange(0, 0) =~= Seq::<char>::empty());
    }
    while i < len
        invariant
            i <= len,
            len == s@.len(),
            out@ == escape_attr(s@.subrange(0, i as int)),
        decreases len - i,
    {
        let c = s.get_char(i);
        if c == '&' {
            out.append("&amp;");
            proof {
                reveal_strlit("&amp;");
                assert("&amp;"@ =~= escape_char(c));
            }
        } else if c == '<' {
            out.append("&lt;");
            proof {
                reveal_strlit("&lt;");
                assert("&lt;"@ =~= escape_char(c));
            }
        } else if c == '>' {
            out.append("&gt;");
            proof {
                reveal_strlit("&gt;");
                assert("&gt;"@ =~= escape_char(c));
            }
        } else if c == '"' {
            out.append("&quot;");
            proof {
                reveal_strlit("&quot;");
                assert("&quot;"@ =~= escape_char(c));
            }
        } else if c == '\'' {
            out.append("&apos;");
            proof {
                reveal_strlit("&apos;");
                assert("&apos;"@ =~= escape_char(c));
            }
        } else {
            let piece = s.substring_char(i, i + 1);
            out.append(piece);
            proof {
                assert(piece@ =~= escape_char(c));
            }
        }
        proof {
            let pre = s@.subrange(0, i as int);
            let ext = s@.subrange(0, i + 1);
            assert(ext.drop_last() =~= pre);
            assert(ext.last() == c);
            assert(out@ == escape_attr(ext));
        }
        i = i + 1;
    }
    proof {
        assert(s@.subrange(0, len as int) =~= s@);
    }
    out
}

} // verus!
