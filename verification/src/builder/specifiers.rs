//! The specifier list of a reflection macro.
use vstd::prelude::*;
use crate::builder::primitives::{no_items, parse_identifier, push_item};
use crate::document::{Attribute, AttributeView, Specifiers, SpecifiersView};
use crate::text::trimmed;
use crate::tree::{Node, Rule};

verus! {

/// The attribute that a node of a specifier list declares, if it is one.
pub open spec fn attribute_of(node: Node) -> Option<AttributeView> {
    match node.rule {
        Rule::SpecifierSingle => Some(AttributeView::Single(trimmed(node.children[0].text@))),
        Rule::SpecifierPair => Some(
            AttributeView::Pair { key: trimmed(node.children[0].text@), value: trimmed(node.children[1].text@) },
        ),
        _ => None,
    }
}

/// The attributes that the first `n` of `children` declare, in order.
pub open spec fn attributes_upto(children: Seq<Node>, n: nat) -> Seq<AttributeView>
    decreases n,
{
    if n == 0 {
        Seq::empty()
    } else {
        let before = attributes_upto(children, (n - 1) as nat);
        match attribute_of(children[n - 1]) {
            Some(attribute) => before.push(attribute),
            None => before,
        }
    }
}

/// The specifiers that the first `n` of `children` declare: bare flags and
/// key/value pairs at the top level, and those of each nested meta group.
pub open spec fn specifiers_upto(children: Seq<Node>, n: nat) -> SpecifiersView
    decreases n,
{
    if n == 0 {
        SpecifiersView::empty()
    } else {
        let before = specifiers_upto(children, (n - 1) as nat);
        let child = children[n - 1];
        match child.rule {
            Rule::SpecifierMeta => SpecifiersView {
                meta: before.meta + attributes_upto(child.children@, child.children.len() as nat),
                ..before
            },
            _ => match attribute_of(child) {
                Some(attribute) => SpecifiersView {
                    attributes: before.attributes.push(attribute),
                    ..before
                },
                None => before,
            },
        }
    }
}

/// The specifiers of a reflection macro: those of its argument list, which
/// is its first child; none where it has no child.
pub open spec fn specifiers_of(node: Node) -> SpecifiersView {
    if node.children.len() == 0 {
        SpecifiersView::empty()
    } else {
        specifiers_upto(node.children[0].children@, node.children[0].children.len() as nat)
    }
}

fn parse_attribute(node: &Node) -> (r: Option<Attribute>)
    requires
        node.shaped(),
    ensures
        r is Some <==> attribute_of(*node) is Some,
        r matches Some(attribute) ==> attribute_of(*node) == Some(attribute@),
{
    match node.rule {
        Rule::SpecifierSingle => Some(Attribute::Single(parse_identifier(&node.children[0]))),
        Rule::SpecifierPair => Some(
            Attribute::Pair {
                key: parse_identifier(&node.children[0]),
                value: parse_identifier(&node.children[1]),
            },
        ),
        _ => None,
    }
}

/// Appends the attributes of a nested meta group to the meta list.
pub fn parse_specifier_meta(node: &Node, result: &mut Specifiers)
    requires
        node.well_formed(),
    ensures
        final(result)@ == (SpecifiersView {
            meta: old(result)@.meta + attributes_upto(
                node.children@,
                node.children.len() as nat,
            ),
            ..old(result)@
        }),
{
    let mut i: usize = 0;
    while i < node.children.len()
        invariant
            i <= node.children.len(),
            node.well_formed(),
            result@.attributes == old(result)@.attributes,
            result@.meta =~= old(result)@.meta + attributes_upto(node.children@, i as nat),
        decreases node.children.len() - i,
    {
        proof {
            node.lemma_child(i as int);
        }
        match parse_attribute(&node.children[i]) {
            Some(attribute) => push_item(&mut result.meta, attribute),
            None => {},
        }
        i += 1;
    }
}

/// Reads the specifiers of a reflection macro.
pub fn parse_specifiers(node: &Node) -> (r: Specifiers)
    requires
        node.well_formed(),
    ensures
        r@ == specifiers_of(*node),
{
    let mut result = Specifiers { attributes: no_items(), meta: no_items() };
    if node.children.len() > 0 {
        let list = &node.children[0];
        proof {
            node.lemma_child(0);
        }
        let mut i: usize = 0;
        while i < list.children.len()
            invariant
                i <= list.children.len(),
                list.well_formed(),
                result@ == specifiers_upto(list.children@, i as nat),
            decreases list.children.len() - i,
        {
            let child = &list.children[i];
            proof {
                list.lemma_child(i as int);
            }
            match child.rule {
                Rule::SpecifierMeta => parse_specifier_meta(child, &mut result),
                _ => match parse_attribute(child) {
                    Some(attribute) => push_item(&mut result.attributes, attribute),
                    None => {},
                },
            }
            i += 1;
        }
    }
    result
}

} // verus!
