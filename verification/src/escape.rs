//! Markup escaping for text content and attribute values.
//!
//! Escaping replaces each markup metacharacter with its entity reference so
//! that literal text cannot be misinterpreted as structure. It operates on
//! raw characters, one at a time, so already-escaped sequences are never
//! produced by the library itself and never double-escaped by it.

use vstd::prelude::*;
use vstd::string::StringExecFns;
use vstd::string::StrSliceExecFns;

verus! {

/// Relies on `String::push`: appends the given character to the end of the
/// string.
pub assume_specification[ String::push ](s: &mut String, c: char)
    ensures
        final(s)@ == old(s)@.push(c),
;

/// What one character of text content becomes in the output.
pub open spec fn text_entity(c: char) -> Seq<char> {
    if c == '&' {
        seq!['&', 'a', 'm', 'p', ';']
    } else if c == '<' {
        seq!['&', 'l', 't', ';']
    } else if c == '>' {
        seq!['&', 'g', 't', ';']
    } else {
        seq![c]
    }
}

/// What one character of a double-quoted attribute value becomes in the
/// output. Quotes are escaped so the value stays inside its delimiters;
/// angle brackets are escaped as well for defense in depth.
pub open spec fn attr_entity(c: char) -> Seq<char> {
    if c == '&' {
        seq!['&', 'a', 'm', 'p', ';']
    } else if c == '"' {
        seq!['&', 'q', 'u', 'o', 't', ';']
    } else if c == '<' {
        seq!['&', 'l', 't', ';']
    } else if c == '>' {
        seq!['&', 'g', 't', ';']
    } else {
        seq![c]
    }
}

/// The escaped form of text content: each character replaced by its entity.
pub open spec fn escaped_text(s: Seq<char>) -> Seq<char>
    decreases s.len(),
{
    if s.len() == 0 {
        Seq::empty()
    } else {
        text_entity(s[0]) + escaped_text(s.drop_first())
    }
}

/// The escaped form of an attribute value: each character replaced by its
/// entity.
pub open spec fn escaped_attr_value(s: Seq<char>) -> Seq<char>
    decreases s.len(),
{
    if s.len() == 0 {
        Seq::empty()
    } else {
        attr_entity(s[0]) + escaped_attr_value(s.drop_first())
    }
}

/// Escaping text distributes over concatenation.
pub proof fn lemma_escaped_text_concat(a: Seq<char>, b: Seq<char>)
    ensures
        escaped_text(a + b) == escaped_text(a) + escaped_text(b),
    decreases a.len(),
{
    if a.len() == 0 {
        assert(a + b =~= b);
        assert(text_entity((a + b)[0]) == text_entity(b[0])) by {
        }
        assert(escaped_text(a) + escaped_text(b) =~= escaped_text(b));
    } else {
        lemma_escaped_text_concat(a.drop_first(), b);
        assert((a + b).drop_first() =~= a.drop_first() + b);
        assert((a + b)[0] == a[0]);
        assert(escaped_text(a + b) =~= escaped_text(a) + escaped_text(b));
    }
}

/// Escaping an attribute value distributes over concatenation.
pub proof fn lemma_escaped_attr_value_concat(a: Seq<char>, b: Seq<char>)
    ensures
        escaped_attr_value(a + b) == escaped_attr_value(a) + escaped_attr_value(b),
    decreases a.len(),
{
    if a.len() == 0 {
        assert(a + b =~= b);
        assert(escaped_attr_value(a) + escaped_attr_value(b) =~= escaped_attr_value(b));
    } else {
        lemma_escaped_attr_value_concat(a.drop_first(), b);
        assert((a + b).drop_first() =~= a.drop_first() + b);
        assert((a + b)[0] == a[0]);
        assert(escaped_attr_value(a + b) =~= escaped_attr_value(a) + escaped_attr_value(b));
    }
}

/// A single character escapes to exactly its entity.
pub proof fn lemma_escaped_text_singleton(c: char)
    ensures
        escaped_text(seq![c]) == text_entity(c),
{
    assert(seq![c].drop_first() =~= Seq::<char>::empty());
    assert(escaped_text(Seq::<char>::empty()) == Seq::<char>::empty());
    assert(text_entity(c) + Seq::<char>::empty() =~= text_entity(c));
}

/// A single character escapes to exactly its entity.
pub proof fn lemma_escaped_attr_value_singleton(c: char)
    ensures
        escaped_attr_value(seq![c]) == attr_entity(c),
{
    assert(seq![c].drop_first() =~= Seq::<char>::empty());
    assert(escaped_attr_value(Seq::<char>::empty()) == Seq::<char>::empty());
    assert(attr_entity(c) + Seq::<char>::empty() =~= attr_entity(c));
}

proof fn lemma_escaped_text_take_step(s: Seq<char>, i: int)
    requires
        0 <= i < s.len(),
    ensures
        escaped_text(s.take(i + 1)) == escaped_text(s.take(i)) + text_entity(s[i]),
{
    assert(s.take(i + 1) =~= s.take(i) + seq![s[i]]);
    lemma_escaped_text_concat(s.take(i), seq![s[i]]);
    lemma_escaped_text_singleton(s[i]);
}

proof fn lemma_escaped_attr_value_take_step(s: Seq<char>, i: int)
    requires
        0 <= i < s.len(),
    ensures
        escaped_attr_value(s.take(i + 1)) == escaped_attr_value(s.take(i)) + attr_entity(s[i]),
{
    assert(s.take(i + 1) =~= s.take(i) + seq![s[i]]);
    lemma_escaped_attr_value_concat(s.take(i), seq![s[i]]);
    lemma_escaped_attr_value_singleton(s[i]);
}

/// No literal angle bracket survives text escaping: every `<` and `>` of the
/// input was replaced, and no entity contains one.
pub proof fn lemma_escaped_text_has_no_angle_brackets(s: Seq<char>)
    ensures
        forall|i: int|
            0 <= i < escaped_text(s).len() ==> escaped_text(s)[i] != '<' && escaped_text(s)[i]
                != '>',
    decreases s.len(),
{
    if s.len() > 0 {
        lemma_escaped_text_has_no_angle_brackets(s.drop_first());
        assert forall|i: int| 0 <= i < escaped_text(s).len() implies escaped_text(s)[i] != '<'
            && escaped_text(s)[i] != '>' by {
            let e = text_entity(s[0]);
            if i < e.len() {
                assert(escaped_text(s)[i] == e[i]);
            } else {
                assert(escaped_text(s)[i] == escaped_text(s.drop_first())[i - e.len()]);
            }
        }
    }
}

/// Wherever the input held a literal `&`, the escaped text holds the five
/// characters of `&amp;`, beginning right after the escape of the prefix.
pub proof fn lemma_escaped_text_keeps_ampersands(s: Seq<char>, i: int)
    requires
        0 <= i < s.len(),
        s[i] == '&',
    ensures
        escaped_text(s.take(i)).len() + 5 <= escaped_text(s).len(),
        escaped_text(s).subrange(
            escaped_text(s.take(i)).len() as int,
            escaped_text(s.take(i)).len() as int + 5,
        ) == seq!['&', 'a', 'm', 'p', ';'],
{
    assert(s =~= s.take(i) + s.skip(i));
    lemma_escaped_text_concat(s.take(i), s.skip(i));
    assert(s.skip(i)[0] == '&');
    assert(escaped_text(s.skip(i)) == seq!['&', 'a', 'm', 'p', ';'] + escaped_text(
        s.skip(i).drop_first(),
    ));
    let j = escaped_text(s.take(i)).len() as int;
    assert(escaped_text(s).subrange(j, j + 5) =~= seq!['&', 'a', 'm', 'p', ';']);
}

/// Escape text content for character data: `&` becomes `&amp;`, `<` becomes
/// `&lt;`, and `>` becomes `&gt;`; every other character passes through
/// unchanged.
pub fn escape_text(s: &str) -> (r: String)
    ensures
        r@ == escaped_text(s@),
{
    let n = s.unicode_len();
    let mut r = String::new();
    let mut i: usize = 0;
    while i < n
        invariant
            n == s@.len(),
            i <= n,
            r@ == escaped_text(s@.take(i as int)),
        decreases n - i,
    {
        let c = s.get_char(i);
        proof {
            lemma_escaped_text_take_step(s@, i as int);
        }
        if c == '&' {
            r.append("&amp;");
            proof {
                reveal_strlit("&amp;");
                assert("&amp;"@ =~= text_entity('&'));
            }
        } else if c == '<' {
            r.append("&lt;");
            proof {
                reveal_strlit("&lt;");
                assert("&lt;"@ =~= text_entity('<'));
            }
        } else if c == '>' {
            r.append("&gt;");
            proof {
                reveal_strlit("&gt;");
                assert("&gt;"@ =~= text_entity('>'));
            }
        } else {
            r.push(c);
            proof {
                assert(r@ =~= escaped_text(s@.take(i as int)) + text_entity(c));
            }
        }
        i = i + 1;
    }
    proof {
        assert(s@.take(n as int) =~= s@);
    }
    r
}

/// Escape an attribute value for a double-quoted position: `&` becomes
/// `&amp;`, `"` becomes `&quot;`, `<` becomes `&lt;`, and `>` becomes
/// `&gt;`; every other character passes through unchanged.
pub fn escape_attr_value(s: &str) -> (r: String)
    ensures
        r@ == escaped_attr_value(s@),
{
    let n = s.unicode_len();
    let mut r = String::new();
    let mut i: usize = 0;
    while i < n
        invariant
            n == s@.len(),
            i <= n,
            r@ == escaped_attr_value(s@.take(i as int)),
        decreases n - i,
    {
        let c = s.get_char(i);
        proof {
            lemma_escaped_attr_value_take_step(s@, i as int);
        }
        if c == '&' {
            r.append("&amp;");
            proof {
                reveal_strlit("&amp;");
                assert("&amp;"@ =~= attr_entity('&'));
            }
        } else if c == '"' {
            r.append("&quot;");
            proof {
                reveal_strlit("&quot;");
                assert("&quot;"@ =~= attr_entity('"'));
            }
        } else if c == '<' {
            r.append("&lt;");
            proof {
                reveal_strlit("&lt;");
                assert("&lt;"@ =~= attr_entity('<'));
            }
        } else if c == '>' {
            r.append("&gt;");
            proof {
                reveal_strlit("&gt;");
                assert("&gt;"@ =~= attr_entity('>'));
            }
        } else {
            r.push(c);
            proof {
                assert(r@ =~= escaped_attr_value(s@.take(i as int)) + attr_entity(c));
            }
        }
        i = i + 1;
    }
    proof {
        assert(s@.take(n as int) =~= s@);
    }
    r
}

} // verus!
