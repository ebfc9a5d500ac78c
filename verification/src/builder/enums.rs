//! Enum declarations.
use vstd::prelude::*;
use vstd::string::*;
use crate::builder::primitives::{clone_text, first_texts, no_items, parse_identifier, push_item};
use crate::builder::specifiers::{parse_specifiers, specifiers_of};
use crate::document::{Enum, EnumView};
use crate::text::{opt_text, trimmed};
use crate::tree::{Node, Rule};

verus! {

/// The enumeration that the first `n` of `children` describe, from `start`.
pub open spec fn enum_upto(children: Seq<Node>, n: nat, start: EnumView) -> EnumView
    decreases n,
{
    if n == 0 {
        start
    } else {
        let before = enum_upto(children, (n - 1) as nat, start);
        let child = children[n - 1];
        match child.rule {
            Rule::Uenum => EnumView { specifiers: Some(specifiers_of(child)), ..before },
            Rule::EnumSignature => EnumView { name: trimmed(child.children[0].text@), ..before },
            Rule::EnumBody => EnumView {
                variants: before.variants + first_texts(
                    child.children@,
                    child.children.len() as nat,
                ),
                ..before
            },
            _ => before,
        }
    }
}

/// The enumeration that an enum declaration describes.
pub open spec fn enum_of(node: Node, doc_comments: Option<Seq<char>>, filename: Seq<char>)
    -> EnumView {
    enum_upto(
        node.children@,
        node.children.len() as nat,
        EnumView {
            name: Seq::empty(),
            doc_comments,
            specifiers: None,
            variants: Seq::empty(),
            filename,
            fileline: node.line as nat,
        },
    )
}

/// The name of an enumeration: the trimmed text of the signature's first
/// child.
pub fn parse_enum_signature(node: &Node) -> (r: String)
    requires
        node.children.len() >= 1,
    ensures
        r@ == trimmed(node.children[0].text@),
{
    parse_identifier(&node.children[0])
}

/// Appends the variants that an enum body lists.
pub fn parse_enum_body(node: &Node, result: &mut Enum)
    ensures
        final(result)@ == (EnumView {
            variants: old(result)@.variants + first_texts(
                node.children@,
                node.children.len() as nat,
            ),
            ..old(result)@
        }),
{
    let mut i: usize = 0;
    while i < node.children.len()
        invariant
            i <= node.children.len(),
            result@ == (EnumView { variants: result@.variants, ..old(result)@ }),
            result@.variants =~= old(result)@.variants + first_texts(node.children@, i as nat),
        decreases node.children.len() - i,
    {
        push_item(&mut result.variants, parse_identifier(&node.children[i]));
        i += 1;
    }
}

/// Reads an enum declaration.
pub fn parse_element_enum(node: &Node, doc_comments: &Option<String>, filename: &str) -> (r: Enum)
    requires
        node.well_formed(),
    ensures
        r@ == enum_of(*node, opt_text(*doc_comments), filename@),
{
    let mut result = Enum {
        name: String::new(),
        doc_comments: clone_text(doc_comments),
        specifiers: None,
        variants: no_items(),
        filename: filename.to_owned(),
        fileline: node.line,
    };
    let ghost start = result@;
    let mut i: usize = 0;
    while i < node.children.len()
        invariant
            i <= node.children.len(),
            node.well_formed(),
            result@ == enum_upto(node.children@, i as nat, start),
        decreases node.children.len() - i,
    {
        let child = &node.children[i];
        proof {
            node.lemma_child(i as int);
        }
        match child.rule {
            Rule::Uenum => result.specifiers = Some(parse_specifiers(child)),
            Rule::EnumSignature => result.name = parse_enum_signature(child),
            Rule::EnumBody => parse_enum_body(child, &mut result),
            _ => {},
        }
        i += 1;
    }
    result
}

} // verus!
