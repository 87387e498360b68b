//! Escaping of text that is interpolated into markup.

use crate::text::{decimal_text, lemma_decimal_characters};
use vstd::prelude::*;

verus! {

/// What stands for `c` in entity-encoded text: an entity for each of the five
/// characters `"`, `&`, `'`, `<`, `>`, and the character itself otherwise.
pub open spec fn entity_of(c: char) -> Seq<char> {
    if c == '"' {
        seq!['&', 'q', 'u', 'o', 't', ';']
    } else if c == '&' {
        seq!['&', 'a', 'm', 'p', ';']
    } else if c == '\'' {
        seq!['&', '#', 'x', '2', '7', ';']
    } else if c == '<' {
        seq!['&', 'l', 't', ';']
    } else if c == '>' {
        seq!['&', 'g', 't', ';']
    } else {
        seq![c]
    }
}

/// Entity-encoded text: the entities of the characters of `text`, in order.
pub open spec fn encoded(text: Seq<char>) -> Seq<char>
    decreases text.len(),
{
    if text.len() == 0 {
        Seq::empty()
    } else {
        encoded(text.drop_last()) + entity_of(text.last())
    }
}

/// What stands for `c` in element content: an entity for each of `&`, `<`,
/// `>`, `"`, and the character itself otherwise.
pub open spec fn content_entity_of(c: char) -> Seq<char> {
    if c == '\'' {
        seq![c]
    } else {
        entity_of(c)
    }
}

/// Escaped element content: the content entities of the characters of `text`,
/// in order.
pub open spec fn escaped(text: Seq<char>) -> Seq<char>
    decreases text.len(),
{
    if text.len() == 0 {
        Seq::empty()
    } else {
        escaped(text.drop_last()) + content_entity_of(text.last())
    }
}

/// Whether `c` opens or closes a tag or an attribute value.
pub open spec fn is_markup_delimiter(c: char) -> bool {
    c == '<' || c == '>' || c == '"'
}

/// Whether `c` is one of the five characters that have an entity.
pub open spec fn has_entity(c: char) -> bool {
    c == '"' || c == '&' || c == '\'' || c == '<' || c == '>'
}

/// Whether an entity stands in `text` at `i`.
pub open spec fn entity_at(text: Seq<char>, i: int) -> bool {
    exists|c: char|
        has_entity(c) && i + entity_of(c).len() <= text.len() && #[trigger] text.subrange(
            i,
            i + entity_of(c).len(),
        ) == entity_of(c)
}

/// Whether no character of `text` opens or closes a tag or an attribute
/// value.
pub open spec fn is_inert(text: Seq<char>) -> bool {
    forall|i: int| 0 <= i < text.len() ==> !is_markup_delimiter(#[trigger] text[i])
}

/// Calls `htmlescape::encode_minimal`, which walks the characters of `text`
/// and writes `&quot;`, `&amp;`, `&#x27;`, `&lt;`, `&gt;` for the five
/// characters it knows and every other character as it is.
#[verifier::external_body]
pub(crate) fn encode_minimal(text: &str) -> (out: String)
    ensures
        out@ == encoded(text@),
{
    htmlescape::encode_minimal(text)
}

/// Calls maud's `Render::render` for `str`, which walks the bytes of `text`
/// and writes `&amp;`, `&lt;`, `&gt;`, `&quot;` for the four ASCII characters
/// it knows and every other byte as it is.
#[verifier::external_body]
pub(crate) fn escape_content(text: &str) -> (out: String)
    ensures
        out@ == escaped(text@),
{
    maud::Render::render(text).into_string()
}

/// No entity holds a character that opens or closes a tag or an attribute
/// value, nor an apostrophe.
pub proof fn lemma_entity_has_no_delimiter(c: char, i: int)
    requires
        0 <= i < entity_of(c).len(),
    ensures
        !is_markup_delimiter(entity_of(c)[i]),
        entity_of(c)[i] != '\'',
{
}

/// Entity-encoded text never holds `<`, `>`, `"` or `'`, whatever the text
/// was.
pub proof fn lemma_encoded_has_no_delimiter(text: Seq<char>, i: int)
    requires
        0 <= i < encoded(text).len(),
    ensures
        !is_markup_delimiter(encoded(text)[i]),
        encoded(text)[i] != '\'',
    decreases text.len(),
{
    if text.len() > 0 {
        let head = encoded(text.drop_last());
        if i < head.len() {
            lemma_encoded_has_no_delimiter(text.drop_last(), i);
        } else {
            lemma_entity_has_no_delimiter(text.last(), i - head.len());
        }
    }
}

/// Escaped element content never holds `<`, `>` or `"`, whatever the text
/// was.
pub proof fn lemma_escaped_has_no_delimiter(text: Seq<char>, i: int)
    requires
        0 <= i < escaped(text).len(),
    ensures
        !is_markup_delimiter(escaped(text)[i]),
    decreases text.len(),
{
    if text.len() > 0 {
        let head = escaped(text.drop_last());
        if i < head.len() {
            lemma_escaped_has_no_delimiter(text.drop_last(), i);
        } else {
            let c = text.last();
            if c != '\'' {
                lemma_entity_has_no_delimiter(c, i - head.len());
            }
        }
    }
}

/// Entity-encoded text is inert, whatever the text was.
pub proof fn lemma_encoded_is_inert(text: Seq<char>)
    ensures
        is_inert(encoded(text)),
{
    assert forall|i: int| 0 <= i < encoded(text).len() implies !is_markup_delimiter(
        #[trigger] encoded(text)[i],
    ) by {
        lemma_encoded_has_no_delimiter(text, i);
    }
}

/// Escaped element content is inert, whatever the text was.
pub proof fn lemma_escaped_is_inert(text: Seq<char>)
    ensures
        is_inert(escaped(text)),
{
    assert forall|i: int| 0 <= i < escaped(text).len() implies !is_markup_delimiter(
        #[trigger] escaped(text)[i],
    ) by {
        lemma_escaped_has_no_delimiter(text, i);
    }
}

/// A decimal numeral is inert.
pub proof fn lemma_decimal_is_inert(n: int)
    ensures
        is_inert(decimal_text(n)),
{
    assert forall|i: int| 0 <= i < decimal_text(n).len() implies !is_markup_delimiter(
        #[trigger] decimal_text(n)[i],
    ) by {
        lemma_decimal_characters(n, i);
    }
}

/// Inert texts, one behind the other, are inert.
pub proof fn lemma_inert_concat(a: Seq<char>, b: Seq<char>)
    requires
        is_inert(a),
        is_inert(b),
    ensures
        is_inert(a + b),
{
}

/// Every `&` in entity-encoded text begins an entity: one that the text
/// held is written as `&amp;`.
pub proof fn lemma_encoded_ampersand_begins_entity(text: Seq<char>, i: int)
    requires
        0 <= i < encoded(text).len(),
        encoded(text)[i] == '&',
    ensures
        entity_at(encoded(text), i),
    decreases text.len(),
{
    if text.len() > 0 {
        let head = encoded(text.drop_last());
        let whole = encoded(text);
        if i < head.len() {
            lemma_encoded_ampersand_begins_entity(text.drop_last(), i);
            let c = choose|c: char|
                has_entity(c) && i + entity_of(c).len() <= head.len() && #[trigger] head.subrange(
                    i,
                    i + entity_of(c).len(),
                ) == entity_of(c);
            assert(whole.subrange(i, i + entity_of(c).len()) =~= head.subrange(
                i,
                i + entity_of(c).len(),
            ));
        } else {
            let c = text.last();
            assert(whole.subrange(i, i + entity_of(c).len()) =~= entity_of(c));
        }
    }
}

/// Every `&` in escaped element content begins an entity: one that the text
/// held is written as `&amp;`.
pub proof fn lemma_escaped_ampersand_begins_entity(text: Seq<char>, i: int)
    requires
        0 <= i < escaped(text).len(),
        escaped(text)[i] == '&',
    ensures
        entity_at(escaped(text), i),
    decreases text.len(),
{
    if text.len() > 0 {
        let head = escaped(text.drop_last());
        let whole = escaped(text);
        if i < head.len() {
            lemma_escaped_ampersand_begins_entity(text.drop_last(), i);
            let c = choose|c: char|
                has_entity(c) && i + entity_of(c).len() <= head.len() && #[trigger] head.subrange(
                    i,
                    i + entity_of(c).len(),
                ) == entity_of(c);
            assert(whole.subrange(i, i + entity_of(c).len()) =~= head.subrange(
                i,
                i + entity_of(c).len(),
            ));
        } else {
            let c = text.last();
            assert(whole.subrange(i, i + entity_of(c).len()) =~= entity_of(c));
        }
    }
}

} // verus!
