//! Property declarations.
use vstd::prelude::*;
use vstd::string::*;
use crate::builder::primitives::{
    clone_text, parse_default_value, parse_identifier, parse_value_type,
};
use crate::builder::specifiers::{parse_specifiers, specifiers_of};
use crate::document::{Property, PropertyArray, PropertyArrayView, PropertyView, Visibility};
use crate::text::{opt_text, str_trim, trimmed};
use crate::tree::{Node, Rule};

verus! {

/// The array descriptor of a property: sized by the trimmed text of the
/// node's first child, unsized where it has none.
pub open spec fn array_of(node: Node) -> PropertyArrayView {
    if node.children.len() > 0 {
        PropertyArrayView::Sized(trimmed(node.children[0].text@))
    } else {
        PropertyArrayView::Unsized
    }
}

/// Reads the array descriptor of a property.
pub fn parse_property_array(node: &Node) -> (r: PropertyArray)
    ensures
        r@ == array_of(*node),
{
    if node.children.len() > 0 {
        PropertyArray::Sized(str_trim(node.children[0].text.as_str()))
    } else {
        PropertyArray::Unsized
    }
}

/// The property after the first `n` children of its signature were read
/// into `start`.
pub open spec fn property_signature_upto(children: Seq<Node>, n: nat, start: PropertyView)
    -> PropertyView
    decreases n,
{
    if n == 0 {
        start
    } else {
        let before = property_signature_upto(children, (n - 1) as nat, start);
        let child = children[n - 1];
        match child.rule {
            Rule::ValueType => PropertyView { value_type: trimmed(child.text@), ..before },
            Rule::Identifier => PropertyView { name: trimmed(child.text@), ..before },
            Rule::PropertyArray => PropertyView { array: array_of(child), ..before },
            Rule::DefaultValue => PropertyView {
                default_value: Some(trimmed(child.children[0].text@)),
                ..before
            },
            Rule::Staticness => PropertyView { is_static: true, ..before },
            _ => before,
        }
    }
}

/// Reads the signature of a property.
pub fn parse_property_signature(node: &Node, result: &mut Property)
    requires
        node.well_formed(),
    ensures
        final(result)@ == property_signature_upto(
            node.children@,
            node.children.len() as nat,
            old(result)@,
        ),
{
    let mut i: usize = 0;
    while i < node.children.len()
        invariant
            i <= node.children.len(),
            node.well_formed(),
            result@ == property_signature_upto(node.children@, i as nat, old(result)@),
        decreases node.children.len() - i,
    {
        let child = &node.children[i];
        proof {
            node.lemma_child(i as int);
        }
        match child.rule {
            Rule::ValueType => result.value_type = parse_value_type(child),
            Rule::Identifier => result.name = parse_identifier(child),
            Rule::PropertyArray => result.array = parse_property_array(child),
            Rule::DefaultValue => result.default_value = Some(parse_default_value(child)),
            Rule::Staticness => result.is_static = true,
            _ => {},
        }
        i += 1;
    }
}

/// The property after the first `n` of `children` were read into `start`.
pub open spec fn property_upto(children: Seq<Node>, n: nat, start: PropertyView) -> PropertyView
    decreases n,
{
    if n == 0 {
        start
    } else {
        let before = property_upto(children, (n - 1) as nat, start);
        let child = children[n - 1];
        match child.rule {
            Rule::Uproperty => PropertyView { specifiers: Some(specifiers_of(child)), ..before },
            Rule::PropertySignature => property_signature_upto(
                child.children@,
                child.children.len() as nat,
                before,
            ),
            _ => before,
        }
    }
}

/// The property that a property declaration describes.
pub open spec fn property_of(node: Node, doc_comments: Option<Seq<char>>, visibility: Visibility)
    -> PropertyView {
    property_upto(
        node.children@,
        node.children.len() as nat,
        PropertyView {
            name: Seq::empty(),
            value_type: Seq::empty(),
            array: PropertyArrayView::Unsized,
            default_value: None,
            specifiers: None,
            visibility,
            is_static: false,
            doc_comments,
        },
    )
}

/// Reads a property declaration.
pub fn parse_element_property(node: &Node, doc_comments: &Option<String>, visibility: Visibility)
    -> (r: Property)
    requires
        node.well_formed(),
    ensures
        r@ == property_of(*node, opt_text(*doc_comments), visibility),
{
    let mut result = Property {
        name: String::new(),
        value_type: String::new(),
        array: PropertyArray::Unsized,
        default_value: None,
        specifiers: None,
        visibility,
        is_static: false,
        doc_comments: clone_text(doc_comments),
    };
    let ghost start = result@;
    let mut i: usize = 0;
    while i < node.children.len()
        invariant
            i <= node.children.len(),
            node.well_formed(),
            result@ == property_upto(node.children@, i as nat, start),
        decreases node.children.len() - i,
    {
        let child = &node.children[i];
        proof {
            node.lemma_child(i as int);
        }
        match child.rule {
            Rule::Uproperty => result.specifiers = Some(parse_specifiers(child)),
            Rule::PropertySignature => parse_property_signature(child, &mut result),
            _ => {},
        }
        i += 1;
    }
    result
}

} // verus!
