//! Helpers that every walker shares: plain texts, copies and visibility
//! keywords.
use vstd::prelude::*;
use vstd::string::*;
use crate::document::Visibility;
use crate::text::{opt_text, same_text, str_trim, trimmed, views};
use crate::tree::Node;

verus! {

/// Appends `item` to `items`.
pub fn push_item<T: View>(items: &mut Vec<T>, item: T)
    ensures
        views(final(items)@) == views(old(items)@).push(item@),
{
    let ghost before = items@;
    let ghost entry = item@;
    items.push(item);
    proof {
        assert(views(items@) =~= views(before).push(entry));
    }
}

/// An empty vector.
pub fn no_items<T: View>() -> (r: Vec<T>)
    ensures
        r@.len() == 0,
        views(r@) == Seq::<T::V>::empty(),
{
    let r: Vec<T> = Vec::new();
    proof {
        assert(views(r@) =~= Seq::<T::V>::empty());
    }
    r
}

/// The text of an identifier node, trimmed and otherwise as it stands in
/// the source.
pub fn parse_identifier(node: &Node) -> (r: String)
    ensures
        r@ == trimmed(node.text@),
{
    str_trim(node.text.as_str())
}

/// The text of a type, trimmed and otherwise as it stands in the source.
pub fn parse_value_type(node: &Node) -> (r: String)
    ensures
        r@ == trimmed(node.text@),
{
    str_trim(node.text.as_str())
}

/// The text of a template declaration, trimmed and otherwise as it stands
/// in the source.
pub fn parse_template_declaration(node: &Node) -> (r: String)
    ensures
        r@ == trimmed(node.text@),
{
    str_trim(node.text.as_str())
}

/// The text of a default value: that of the node's first child, trimmed and
/// otherwise as it stands in the source.
pub fn parse_default_value(node: &Node) -> (r: String)
    requires
        node.children.len() >= 1,
    ensures
        r@ == trimmed(node.children[0].text@),
{
    str_trim(node.children[0].text.as_str())
}

/// A copy of an optional text.
pub fn clone_text(text: &Option<String>) -> (r: Option<String>)
    ensures
        opt_text(r) == opt_text(*text),
{
    match text {
        Some(s) => Some(s.clone()),
        None => None,
    }
}

/// The trimmed texts of the first `n` of `children`, in order.
pub open spec fn first_texts(children: Seq<Node>, n: nat) -> Seq<Seq<char>> {
    Seq::new(n, |i: int| trimmed(children[i].text@))
}

/// The visibility that a keyword names, if it is one of the three.
pub open spec fn visibility_of(text: Seq<char>) -> Option<Visibility> {
    if text == "private"@ {
        Some(Visibility::Private)
    } else if text == "protected"@ {
        Some(Visibility::Protected)
    } else if text == "public"@ {
        Some(Visibility::Public)
    } else {
        None
    }
}

/// Reads a visibility label; any text but the three keywords gives `None`.
pub fn parse_visibility(node: &Node) -> (r: Option<Visibility>)
    ensures
        r == visibility_of(node.text@),
{
    if same_text(&node.text, "private") {
        Some(Visibility::Private)
    } else if same_text(&node.text, "protected") {
        Some(Visibility::Protected)
    } else if same_text(&node.text, "public") {
        Some(Visibility::Public)
    } else {
        None
    }
}

} // verus!
