//! Fragments of markup, and how they nest.

use crate::escape::{escape_content, escaped};
use crate::text::pairs_text;
use vstd::prelude::*;

verus! {

/// A subtree of markup, serialized. Its view is the markup itself.
#[derive(Debug)]
pub struct Fragment {
    pub markup: String,
}

impl View for Fragment {
    type V = Seq<char>;

    open spec fn view(&self) -> Seq<char> {
        self.markup@
    }
}

/// One attribute inside a start tag: a space, the name, and the escaped value
/// in double quotes.
pub open spec fn attribute_markup(name: Seq<char>, value: Seq<char>) -> Seq<char> {
    " "@ + name + "=\""@ + escaped(value) + "\""@
}

/// The attributes of a start tag, in order.
pub open spec fn attributes_markup(attributes: Seq<(Seq<char>, Seq<char>)>) -> Seq<char>
    decreases attributes.len(),
{
    if attributes.len() == 0 {
        Seq::empty()
    } else {
        attributes_markup(attributes.drop_last()) + attribute_markup(
            attributes.last().0,
            attributes.last().1,
        )
    }
}

/// An element: its start tag with the attributes, its content, its end tag.
pub open spec fn element_markup(
    tag: Seq<char>,
    attributes: Seq<(Seq<char>, Seq<char>)>,
    content: Seq<char>,
) -> Seq<char> {
    "<"@ + tag + attributes_markup(attributes) + ">"@ + content + "</"@ + tag + ">"@
}

impl Fragment {
    /// No markup at all.
    pub fn empty() -> (fragment: Fragment)
        ensures
            fragment@ == Seq::<char>::empty(),
    {
        Fragment { markup: String::new() }
    }

    /// Markup that is inserted as it is.
    pub fn raw(markup: String) -> (fragment: Fragment)
        ensures
            fragment@ == markup@,
    {
        Fragment { markup }
    }

    /// Text as element content: whatever `content` holds, it is escaped.
    pub fn text(content: &str) -> (fragment: Fragment)
        ensures
            fragment@ == escaped(content@),
    {
        Fragment { markup: escape_content(content) }
    }

    /// This fragment with `next` behind it.
    pub fn followed_by(self, next: &Fragment) -> (fragment: Fragment)
        ensures
            fragment@ == self@ + next@,
    {
        let mut markup = self.markup;
        markup.append(next.markup.as_str());
        Fragment { markup }
    }

    /// An element called `tag` around `content`. The attribute values are
    /// escaped.
    pub fn element(tag: &str, attributes: &Vec<(String, String)>, content: &Fragment) -> (fragment:
        Fragment)
        ensures
            fragment@ == element_markup(tag@, pairs_text(attributes@), content@),
    {
        let mut markup = String::new();
        markup.append("<");
        markup.append(tag);
        let ghost opened = markup@;
        let ghost pairs = pairs_text(attributes@);
        let mut i: usize = 0;
        while i < attributes.len()
            invariant
                0 <= i <= attributes.len(),
                pairs == pairs_text(attributes@),
                markup@ == opened + attributes_markup(pairs.subrange(0, i as int)),
            decreases attributes.len() - i,
        {
            let value = escape_content(attributes[i].1.as_str());
            markup.append(" ");
            markup.append(attributes[i].0.as_str());
            markup.append("=\"");
            markup.append(value.as_str());
            markup.append("\"");
            proof {
                let done = pairs.subrange(0, i + 1);
                assert(done.drop_last() =~= pairs.subrange(0, i as int));
            }
            i += 1;
        }
        proof {
            assert(pairs.subrange(0, attributes.len() as int) =~= pairs);
        }
        markup.append(">");
        markup.append(content.markup.as_str());
        markup.append("</");
        markup.append(tag);
        markup.append(">");
        Fragment { markup }
    }
}

} // verus!
