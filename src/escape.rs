//! Escaping of untrusted text for use inside a double-quoted HTML attribute.

use vstd::prelude::*;
use vstd::string::*;

verus! {

/// The markup that stands for one character of an attribute value.
pub open spec fn escape_char_spec(c: char) -> Seq<char> {
    if c == '&' {
        "&amp;"@
    } else if c == '<' {
        "&lt;"@
    } else if c == '>' {
        "&gt;"@
    } else if c == '"' {
        "&quot;"@
    } else if c == '\'' {
        "&#39;"@
    } else {
        seq![c]
    }
}

/// The escaped form of a whole value: each character replaced by its markup.
pub open spec fn escape_spec(s: Seq<char>) -> Seq<char>
    decreases s.len(),
{
    if s.len() == 0 {
        Seq::empty()
    } else {
        escape_spec(s.drop_last()) + escape_char_spec(s.last())
    }
}

/// `e` occurs in `s` at position `i`.
pub open spec fn occurs_at(s: Seq<char>, i: int, e: Seq<char>) -> bool {
    0 <= i && i + e.len() <= s.len() && s.subrange(i, i + e.len()) == e
}

/// One of the five character references that escaping writes starts at `i`.
pub open spec fn entity_at(s: Seq<char>, i: int) -> bool {
    ||| occurs_at(s, i, "&amp;"@)
    ||| occurs_at(s, i, "&lt;"@)
    ||| occurs_at(s, i, "&gt;"@)
    ||| occurs_at(s, i, "&quot;"@)
    ||| occurs_at(s, i, "&#39;"@)
}

/// Text that cannot end a double-quoted attribute value, open a tag, or hold
/// an `&` that does not start a character reference.
pub open spec fn attribute_safe(s: Seq<char>) -> bool {
    forall|i: int|
        0 <= i < s.len() ==> {
            &&& #[trigger] s[i] != '"'
            &&& s[i] != '<'
            &&& s[i] != '>'
            &&& s[i] != '\''
            &&& (s[i] == '&' ==> entity_at(s, i))
        }
}

proof fn lemma_occurs_extend(a: Seq<char>, b: Seq<char>, i: int, e: Seq<char>)
    requires
        occurs_at(a, i, e),
    ensures
        occurs_at(a + b, i, e),
{
    assert((a + b).subrange(i, i + e.len()) =~= a.subrange(i, i + e.len()));
}

proof fn lemma_occurs_shift(a: Seq<char>, b: Seq<char>, j: int, e: Seq<char>)
    requires
        occurs_at(b, j, e),
    ensures
        occurs_at(a + b, j + a.len(), e),
{
    assert((a + b).subrange(j + a.len(), j + a.len() + e.len()) =~= b.subrange(j, j + e.len()));
}

proof fn lemma_entity_extend(a: Seq<char>, b: Seq<char>, i: int)
    requires
        entity_at(a, i),
    ensures
        entity_at(a + b, i),
{
    if occurs_at(a, i, "&amp;"@) {
        lemma_occurs_extend(a, b, i, "&amp;"@);
    } else if occurs_at(a, i, "&lt;"@) {
        lemma_occurs_extend(a, b, i, "&lt;"@);
    } else if occurs_at(a, i, "&gt;"@) {
        lemma_occurs_extend(a, b, i, "&gt;"@);
    } else if occurs_at(a, i, "&quot;"@) {
        lemma_occurs_extend(a, b, i, "&quot;"@);
    } else {
        lemma_occurs_extend(a, b, i, "&#39;"@);
    }
}

proof fn lemma_entity_shift(a: Seq<char>, b: Seq<char>, j: int)
    requires
        entity_at(b, j),
    ensures
        entity_at(a + b, j + a.len()),
{
    if occurs_at(b, j, "&amp;"@) {
        lemma_occurs_shift(a, b, j, "&amp;"@);
    } else if occurs_at(b, j, "&lt;"@) {
        lemma_occurs_shift(a, b, j, "&lt;"@);
    } else if occurs_at(b, j, "&gt;"@) {
        lemma_occurs_shift(a, b, j, "&gt;"@);
    } else if occurs_at(b, j, "&quot;"@) {
        lemma_occurs_shift(a, b, j, "&quot;"@);
    } else {
        lemma_occurs_shift(a, b, j, "&#39;"@);
    }
}

proof fn lemma_concat_safe(a: Seq<char>, b: Seq<char>)
    requires
        attribute_safe(a),
        attribute_safe(b),
    ensures
        attribute_safe(a + b),
{
    let s = a + b;
    assert forall|i: int| 0 <= i < s.len() implies {
        &&& #[trigger] s[i] != '"'
        &&& s[i] != '<'
        &&& s[i] != '>'
        &&& s[i] != '\''
        &&& (s[i] == '&' ==> entity_at(s, i))
    } by {
        if i < a.len() {
            assert(s[i] == a[i]);
            if a[i] == '&' {
                lemma_entity_extend(a, b, i);
            }
        } else {
            let j = i - a.len();
            assert(s[i] == b[j]);
            if b[j] == '&' {
                lemma_entity_shift(a, b, j);
            }
        }
    }
}

proof fn lemma_escape_char_safe(c: char)
    ensures
        attribute_safe(escape_char_spec(c)),
{
    reveal_strlit("&amp;");
    reveal_strlit("&lt;");
    reveal_strlit("&gt;");
    reveal_strlit("&quot;");
    reveal_strlit("&#39;");
    let e = escape_char_spec(c);
    if c == '&' || c == '<' || c == '>' || c == '"' || c == '\'' {
        assert(e.subrange(0, e.len() as int) =~= e);
        assert(entity_at(e, 0));
    }
}

/// Escaped text is inert inside a double-quoted attribute value: it holds no
/// `"`, `<`, `>` or `'`, and each `&` in it starts a character reference.
pub proof fn lemma_escape_is_attribute_safe(s: Seq<char>)
    ensures
        attribute_safe(escape_spec(s)),
    decreases s.len(),
{
    if s.len() > 0 {
        lemma_escape_is_attribute_safe(s.drop_last());
        lemma_escape_char_safe(s.last());
        lemma_concat_safe(escape_spec(s.drop_last()), escape_char_spec(s.last()));
    }
}

/// Escapes `&`, `<`, `>`, `"` and `'` so that `s` can stand inside a
/// double-quoted attribute value.
pub fn html_escape(s: &str) -> (r: String)
    ensures
        r@ == escape_spec(s@),
{
    let n = s.unicode_len();
    let mut out = String::new();
    let mut i: usize = 0;
    while i < n
        invariant
            n == s@.len(),
            i <= n,
            out@ == escape_spec(s@.subrange(0, i as int)),
        decreases n - i,
    {
        let c = s.get_char(i);
        if c == '&' {
            out.append("&amp;");
        } else if c == '<' {
            out.append("&lt;");
        } else if c == '>' {
            out.append("&gt;");
        } else if c == '"' {
            out.append("&quot;");
        } else if c == '\'' {
            out.append("&#39;");
        } else {
            let one = s.substring_char(i, i + 1);
            proof {
                assert(one@ =~= seq![c]);
            }
            out.append(one);
        }
        proof {
            assert(s@.subrange(0, i + 1).drop_last() =~= s@.subrange(0, i as int));
        }
        i = i + 1;
    }
    proof {
        assert(s@.subrange(0, n as int) =~= s@);
    }
    out
}

} // verus!
