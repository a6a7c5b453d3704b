//! Rendered annotation content.
//!
//! The content of an annotation is the text of its token group, parentheses
//! included: `(C)`, `(packed)`, `(u8)`. It is compared as text and never
//! parsed. Two questions are asked of it: whether it is exactly a given word
//! in parentheses, and whether it names a primitive integer type.

use vstd::prelude::*;

verus! {

/// `inner` wrapped in one pair of parentheses.
pub open spec fn parenthesized(inner: Seq<char>) -> Seq<char> {
    seq!['('] + inner + seq![')']
}

/// Whether `content` begins with `(u` or `(i` and ends with `)`.
///
/// Nothing between the parentheses is checked beyond its first character:
/// `(imaginary)` names a primitive type as far as this predicate goes.
pub open spec fn names_primitive(content: Seq<char>) -> bool {
    &&& seq!['(', 'u'].is_prefix_of(content) || seq!['(', 'i'].is_prefix_of(content)
    &&& seq![')'].is_suffix_of(content)
}

/// `content` without its first and its last character.
pub open spec fn inner_text(content: Seq<char>) -> Seq<char>
    recommends
        content.len() >= 2,
{
    content.subrange(1, content.len() - 1)
}

/// `names_primitive`, character by character.
pub proof fn lemma_names_primitive_chars(content: Seq<char>)
    ensures
        names_primitive(content) <==> {
            &&& content.len() >= 3
            &&& content[0] == '('
            &&& content[1] == 'u' || content[1] == 'i'
            &&& content[content.len() - 1] == ')'
        },
{
    let n = content.len() as int;
    let open_u = seq!['(', 'u'];
    let open_i = seq!['(', 'i'];
    let close = seq![')'];
    if names_primitive(content) {
        assert(content[n - 1] == content.subrange(n - 1, n)[0]);
        assert(content[0] == content.subrange(0, 2)[0]);
        assert(content[1] == content.subrange(0, 2)[1]);
    }
    if n >= 3 && content[0] == '(' && (content[1] == 'u' || content[1] == 'i') && content[n - 1]
        == ')' {
        assert(close =~= content.subrange(n - 1, n));
        if content[1] == 'u' {
            assert(open_u =~= content.subrange(0, 2));
        } else {
            assert(open_i =~= content.subrange(0, 2));
        }
    }
}

/// Content that names a primitive type is its inner text in parentheses:
/// extraction removes the two parentheses and nothing else.
pub proof fn lemma_inner_text_round_trip(content: Seq<char>)
    requires
        names_primitive(content),
    ensures
        parenthesized(inner_text(content)) == content,
        inner_text(content).len() == content.len() - 2,
        inner_text(content)[0] == 'u' || inner_text(content)[0] == 'i',
{
    lemma_names_primitive_chars(content);
    assert(parenthesized(inner_text(content)) =~= content);
}

/// Parenthesized text gives the text back, whatever it holds.
pub proof fn lemma_inner_text_of_parenthesized(inner: Seq<char>)
    ensures
        inner_text(parenthesized(inner)) == inner,
        names_primitive(parenthesized(inner)) <==> inner.len() >= 1 && (inner[0] == 'u' || inner[0]
            == 'i'),
{
    let content = parenthesized(inner);
    lemma_names_primitive_chars(content);
    assert(inner_text(content) =~= inner);
    if inner.len() >= 1 {
        assert(content[1] == inner[0]);
    }
}

/// Whether `content` is exactly `expected` in parentheses.
pub fn is_parenthesized(content: &str, expected: &str) -> (exact: bool)
    ensures
        exact == (content@ == parenthesized(expected@)),
{
    let mut wanted = String::from_str("(");
    wanted.append(expected);
    wanted.append(")");
    proof {
        reveal_strlit("(");
        reveal_strlit(")");
        assert("("@ =~= seq!['(']);
        assert(")"@ =~= seq![')']);
    }
    let given = String::from_str(content);
    given == wanted
}

/// The primitive type that `content` names: its inner text, if it begins
/// with `(u` or `(i` and ends with `)`.
pub fn primitive_type_name(content: &str) -> (name: Option<String>)
    ensures
        match name {
            Some(inner) => names_primitive(content@) && inner@ == inner_text(content@),
            None => !names_primitive(content@),
        },
{
    proof {
        lemma_names_primitive_chars(content@);
    }
    let len = content.unicode_len();
    if len < 3 {
        return None;
    }
    let first = content.get_char(0);
    let second = content.get_char(1);
    let last = content.get_char(len - 1);
    if first == '(' && (second == 'u' || second == 'i') && last == ')' {
        Some(String::from_str(content.substring_char(1, len - 1)))
    } else {
        None
    }
}

} // verus!
