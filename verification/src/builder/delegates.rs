//! Delegate declarations of the four variants.
use vstd::prelude::*;
use vstd::string::*;
use crate::builder::primitives::{
    clone_text, no_items, parse_identifier, parse_value_type, push_item,
};
use crate::builder::specifiers::{parse_specifiers, specifiers_of};
use crate::document::{Argument, ArgumentView, Delegate, DelegateView};
use crate::text::{opt_text, trimmed};
use crate::tree::{Node, Rule};

verus! {

/// The argument after the first `n` children of a delegate argument were
/// read into `start`. A dynamic delegate names its arguments by an
/// identifier; any other by the delegate's own argument-name production.
pub open spec fn delegate_argument_upto(
    children: Seq<Node>,
    n: nat,
    is_dynamic: bool,
    start: ArgumentView,
) -> ArgumentView
    decreases n,
{
    if n == 0 {
        start
    } else {
        let before = delegate_argument_upto(children, (n - 1) as nat, is_dynamic, start);
        let child = children[n - 1];
        if child.rule == Rule::ValueType {
            ArgumentView { value_type: trimmed(child.text@), ..before }
        } else if child.rule == (if is_dynamic {
            Rule::Identifier
        } else {
            Rule::DelegateArgumentName
        }) {
            ArgumentView { name: Some(trimmed(child.text@)), ..before }
        } else {
            before
        }
    }
}

/// The argument that a delegate argument node describes.
pub open spec fn delegate_argument_of(node: Node, is_dynamic: bool) -> ArgumentView {
    delegate_argument_upto(
        node.children@,
        node.children.len() as nat,
        is_dynamic,
        ArgumentView::empty(),
    )
}

/// Reads one argument of a delegate.
pub fn parse_delegate_arg(node: &Node, is_dynamic: bool) -> (r: Argument)
    ensures
        r@ == delegate_argument_of(*node, is_dynamic),
{
    let mut arg = Argument {
        name: None,
        value_type: String::new(),
        default_value: None,
        doc_comments: None,
    };
    let mut i: usize = 0;
    while i < node.children.len()
        invariant
            i <= node.children.len(),
            arg@ == delegate_argument_upto(
                node.children@,
                i as nat,
                is_dynamic,
                ArgumentView::empty(),
            ),
        decreases node.children.len() - i,
    {
        let child = &node.children[i];
        if is_dynamic {
            match child.rule {
                Rule::Identifier => arg.name = Some(parse_identifier(child)),
                Rule::ValueType => arg.value_type = parse_value_type(child),
                _ => {},
            }
        } else {
            match child.rule {
                Rule::DelegateArgumentName => arg.name = Some(parse_identifier(child)),
                Rule::ValueType => arg.value_type = parse_value_type(child),
                _ => {},
            }
        }
        i += 1;
    }
    arg
}

/// The arguments that the first `n` of `children` declare, in order.
pub open spec fn delegate_arguments_upto(children: Seq<Node>, n: nat, is_dynamic: bool) -> Seq<
    ArgumentView,
>
    decreases n,
{
    if n == 0 {
        Seq::empty()
    } else {
        let before = delegate_arguments_upto(children, (n - 1) as nat, is_dynamic);
        let child = children[n - 1];
        match child.rule {
            Rule::DelegateArgument | Rule::DynamicDelegateArgument => before.push(
                delegate_argument_of(child, is_dynamic),
            ),
            _ => before,
        }
    }
}

/// Appends the arguments of an argument list to a delegate, each read by
/// the grammar that the delegate's dynamic flag selects.
pub fn parse_delegate_args(node: &Node, delegate: &mut Delegate)
    ensures
        final(delegate)@ == (DelegateView {
            arguments: old(delegate)@.arguments + delegate_arguments_upto(
                node.children@,
                node.children.len() as nat,
                old(delegate).dynamic,
            ),
            ..old(delegate)@
        }),
{
    let mut i: usize = 0;
    while i < node.children.len()
        invariant
            i <= node.children.len(),
            delegate@ == (DelegateView { arguments: delegate@.arguments, ..old(delegate)@ }),
            delegate@.arguments =~= old(delegate)@.arguments + delegate_arguments_upto(
                node.children@,
                i as nat,
                old(delegate).dynamic,
            ),
        decreases node.children.len() - i,
    {
        let child = &node.children[i];
        match child.rule {
            Rule::DelegateArgument | Rule::DynamicDelegateArgument => {
                let arg = parse_delegate_arg(child, delegate.dynamic);
                push_item(&mut delegate.arguments, arg);
            },
            _ => {},
        }
        i += 1;
    }
}

/// The delegate after the first `n` of `children` were read into `start`.
pub open spec fn delegate_upto(children: Seq<Node>, n: nat, start: DelegateView) -> DelegateView
    decreases n,
{
    if n == 0 {
        start
    } else {
        let before = delegate_upto(children, (n - 1) as nat, start);
        let child = children[n - 1];
        match child.rule {
            Rule::Udelegate => DelegateView { specifiers: Some(specifiers_of(child)), ..before },
            Rule::DelegateName => DelegateView { name: trimmed(child.text@), ..before },
            Rule::DelegateArguments | Rule::DynamicDelegateArguments => DelegateView {
                arguments: before.arguments + delegate_arguments_upto(
                    child.children@,
                    child.children.len() as nat,
                    before.dynamic,
                ),
                ..before
            },
            Rule::ValueType => DelegateView { return_type: Some(trimmed(child.text@)), ..before },
            _ => before,
        }
    }
}

/// Whether a delegate rule declares a multicast delegate.
pub open spec fn is_multicast(rule: Rule) -> bool {
    rule == Rule::ElementMulticastDelegate || rule == Rule::ElementDynMulticastDelegate
}

/// Whether a delegate rule declares a dynamic delegate.
pub open spec fn is_dynamic(rule: Rule) -> bool {
    rule == Rule::ElementDynamicDelegate || rule == Rule::ElementDynMulticastDelegate
}

/// The delegate that a delegate declaration describes; the rule of the
/// declaration gives the multicast and dynamic flags.
pub open spec fn delegate_of(node: Node, doc_comments: Option<Seq<char>>, filename: Seq<char>)
    -> DelegateView {
    delegate_upto(
        node.children@,
        node.children.len() as nat,
        DelegateView {
            name: Seq::empty(),
            multicast: is_multicast(node.rule),
            dynamic: is_dynamic(node.rule),
            arguments: Seq::empty(),
            return_type: None,
            specifiers: None,
            doc_comments,
            filename,
            fileline: node.line as nat,
        },
    )
}

/// Reads a delegate declaration of any of the four variants.
pub fn parse_element_delegate(node: &Node, doc_comments: &Option<String>, filename: &str) -> (r:
    Delegate)
    requires
        node.well_formed(),
    ensures
        r@ == delegate_of(*node, opt_text(*doc_comments), filename@),
{
    let multicast = match node.rule {
        Rule::ElementMulticastDelegate | Rule::ElementDynMulticastDelegate => true,
        _ => false,
    };
    let dynamic = match node.rule {
        Rule::ElementDynamicDelegate | Rule::ElementDynMulticastDelegate => true,
        _ => false,
    };
    let mut result = Delegate {
        name: String::new(),
        multicast,
        dynamic,
        arguments: no_items(),
        return_type: None,
        specifiers: None,
        doc_comments: clone_text(doc_comments),
        filename: filename.to_owned(),
        fileline: node.line,
    };
    let ghost start = result@;
    let mut i: usize = 0;
    while i < node.children.len()
        invariant
            i <= node.children.len(),
            node.well_formed(),
            result@ == delegate_upto(node.children@, i as nat, start),
        decreases node.children.len() - i,
    {
        let child = &node.children[i];
        proof {
            node.lemma_child(i as int);
        }
        match child.rule {
            Rule::Udelegate => result.specifiers = Some(parse_specifiers(child)),
            Rule::DelegateName => result.name = parse_identifier(child),
            Rule::DelegateArguments | Rule::DynamicDelegateArguments => parse_delegate_args(
                child,
                &mut result,
            ),
            Rule::ValueType => result.return_type = Some(parse_value_type(child)),
            _ => {},
        }
        i += 1;
    }
    result
}

} // verus!
