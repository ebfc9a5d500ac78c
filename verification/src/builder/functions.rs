//! Function declarations and the snippet blocks of their bodies.
use vstd::prelude::*;
use vstd::string::*;
use crate::builder::primitives::{
    clone_text, no_items, parse_default_value, parse_identifier, parse_template_declaration,
    parse_value_type, push_item,
};
use crate::builder::specifiers::{parse_specifiers, specifiers_of};
use crate::collection::{upsert, upserted};
use crate::document::{
    Argument, ArgumentView, Function, FunctionView, Snippet, SnippetView, Visibility,
};
use crate::text::{
    doc_comment_text, opt_text, parse_doc_comments, parse_snippet_inner, snippet_text, trimmed,
    views,
};
use crate::tree::{Node, Rule};

verus! {

/// The argument after the first `n` children of a function argument were
/// read into `start`.
pub open spec fn function_argument_upto(children: Seq<Node>, n: nat, start: ArgumentView)
    -> ArgumentView
    decreases n,
{
    if n == 0 {
        start
    } else {
        let before = function_argument_upto(children, (n - 1) as nat, start);
        let child = children[n - 1];
        match child.rule {
            Rule::DocCommentLines => ArgumentView {
                doc_comments: Some(doc_comment_text(child.text@)),
                ..before
            },
            Rule::ValueType => ArgumentView { value_type: trimmed(child.text@), ..before },
            Rule::Identifier => ArgumentView { name: Some(trimmed(child.text@)), ..before },
            Rule::DefaultValue => ArgumentView {
                default_value: Some(trimmed(child.children[0].text@)),
                ..before
            },
            _ => before,
        }
    }
}

/// The argument that a function argument node describes.
pub open spec fn function_argument_of(node: Node) -> ArgumentView {
    function_argument_upto(node.children@, node.children.len() as nat, ArgumentView::empty())
}

/// Reads one argument of a function.
pub fn parse_function_argument(node: &Node) -> (r: Argument)
    requires
        node.well_formed(),
    ensures
        r@ == function_argument_of(*node),
{
    let mut result = Argument {
        name: None,
        value_type: String::new(),
        default_value: None,
        doc_comments: None,
    };
    let mut i: usize = 0;
    while i < node.children.len()
        invariant
            i <= node.children.len(),
            node.well_formed(),
            result@ == function_argument_upto(node.children@, i as nat, ArgumentView::empty()),
        decreases node.children.len() - i,
    {
        let child = &node.children[i];
        proof {
            node.lemma_child(i as int);
        }
        match child.rule {
            Rule::DocCommentLines => result.doc_comments = Some(
                parse_doc_comments(child.text.as_str()),
            ),
            Rule::ValueType => result.value_type = parse_value_type(child),
            Rule::Identifier => result.name = Some(parse_identifier(child)),
            Rule::DefaultValue => result.default_value = Some(parse_default_value(child)),
            _ => {},
        }
        i += 1;
    }
    result
}

/// The arguments that the first `n` of `children` declare, in order.
pub open spec fn function_arguments_upto(children: Seq<Node>, n: nat) -> Seq<ArgumentView>
    decreases n,
{
    if n == 0 {
        Seq::empty()
    } else {
        let before = function_arguments_upto(children, (n - 1) as nat);
        let child = children[n - 1];
        if child.rule == Rule::FunctionArgument {
            before.push(function_argument_of(child))
        } else {
            before
        }
    }
}

/// Appends the arguments of an argument list to a function.
pub fn parse_function_arguments(node: &Node, result: &mut Function)
    requires
        node.well_formed(),
    ensures
        final(result)@ == (FunctionView {
            arguments: old(result)@.arguments + function_arguments_upto(
                node.children@,
                node.children.len() as nat,
            ),
            ..old(result)@
        }),
{
    let mut i: usize = 0;
    while i < node.children.len()
        invariant
            i <= node.children.len(),
            node.well_formed(),
            result@ == (FunctionView { arguments: result@.arguments, ..old(result)@ }),
            result@.arguments =~= old(result)@.arguments + function_arguments_upto(
                node.children@,
                i as nat,
            ),
        decreases node.children.len() - i,
    {
        let child = &node.children[i];
        proof {
            node.lemma_child(i as int);
        }
        if child.rule == Rule::FunctionArgument {
            push_item(&mut result.arguments, parse_function_argument(child));
        }
        i += 1;
    }
}

/// The function after the first `n` children of its signature were read
/// into `start`.
pub open spec fn function_signature_upto(children: Seq<Node>, n: nat, start: FunctionView)
    -> FunctionView
    decreases n,
{
    if n == 0 {
        start
    } else {
        let before = function_signature_upto(children, (n - 1) as nat, start);
        let child = children[n - 1];
        match child.rule {
            Rule::TemplateDeclaration => FunctionView {
                template: Some(trimmed(child.text@)),
                ..before
            },
            Rule::Virtualness => FunctionView { is_virtual: true, ..before },
            Rule::ValueType => FunctionView { return_type: Some(trimmed(child.text@)), ..before },
            Rule::Operator | Rule::Identifier => FunctionView { name: trimmed(child.text@), ..before },
            Rule::FunctionArguments => FunctionView {
                arguments: before.arguments + function_arguments_upto(
                    child.children@,
                    child.children.len() as nat,
                ),
                ..before
            },
            Rule::Constness => FunctionView { is_const_this: true, ..before },
            Rule::Overrideness => FunctionView { is_override: true, ..before },
            Rule::Staticness => FunctionView { is_static: true, ..before },
            _ => before,
        }
    }
}

/// Reads the signature of a function or constructor.
pub fn parse_function_signature(node: &Node, result: &mut Function)
    requires
        node.well_formed(),
    ensures
        final(result)@ == function_signature_upto(
            node.children@,
            node.children.len() as nat,
            old(result)@,
        ),
{
    let mut i: usize = 0;
    while i < node.children.len()
        invariant
            i <= node.children.len(),
            node.well_formed(),
            result@ == function_signature_upto(node.children@, i as nat, old(result)@),
        decreases node.children.len() - i,
    {
        let child = &node.children[i];
        proof {
            node.lemma_child(i as int);
        }
        match child.rule {
            Rule::TemplateDeclaration => result.template = Some(parse_template_declaration(child)),
            Rule::Virtualness => result.is_virtual = true,
            Rule::ValueType => result.return_type = Some(parse_value_type(child)),
            Rule::Operator | Rule::Identifier => result.name = parse_identifier(child),
            Rule::FunctionArguments => parse_function_arguments(child, result),
            Rule::Constness => result.is_const_this = true,
            Rule::Overrideness => result.is_override = true,
            Rule::Staticness => result.is_static = true,
            _ => {},
        }
        i += 1;
    }
}

/// What the first `n` children of a snippet block give: its identifier and
/// its normalised body, each the last one met.
pub open spec fn snippet_parts_upto(children: Seq<Node>, n: nat) -> (
    Option<Seq<char>>,
    Option<Seq<char>>,
)
    decreases n,
{
    if n == 0 {
        (None, None)
    } else {
        let before = snippet_parts_upto(children, (n - 1) as nat);
        let child = children[n - 1];
        match child.rule {
            Rule::Identifier => (Some(trimmed(child.text@)), before.1),
            Rule::SnippetInner => (before.0, Some(snippet_text(child.text@))),
            _ => before,
        }
    }
}

/// The snippets after a snippet block was registered: entered under its
/// identifier, in the place of an earlier snippet of that name if there is
/// one; unchanged where the block lacks its identifier or its body.
pub open spec fn snippet_registered(node: Node, snippets: Seq<SnippetView>) -> Seq<SnippetView> {
    match snippet_parts_upto(node.children@, node.children.len() as nat) {
        (Some(name), Some(content)) => upserted::<Snippet>(
            snippets,
            SnippetView { name, content },
        ),
        _ => snippets,
    }
}

/// Registers a snippet block.
pub fn parse_snippet(node: &Node, snippets: &mut Vec<Snippet>)
    ensures
        views(final(snippets)@) == snippet_registered(*node, views(old(snippets)@)),
{
    let mut id: Option<String> = None;
    let mut content: Option<String> = None;
    let mut i: usize = 0;
    while i < node.children.len()
        invariant
            i <= node.children.len(),
            (opt_text(id), opt_text(content)) == snippet_parts_upto(node.children@, i as nat),
        decreases node.children.len() - i,
    {
        let child = &node.children[i];
        match child.rule {
            Rule::Identifier => id = Some(parse_identifier(child)),
            Rule::SnippetInner => content = Some(parse_snippet_inner(child.text.as_str())),
            _ => {},
        }
        i += 1;
    }
    match (id, content) {
        (Some(name), Some(content)) => {
            upsert(snippets, Snippet { name, content });
        },
        _ => {},
    }
}

/// The snippets after the snippet blocks among the first `n` children of a
/// function body were registered.
pub open spec fn function_body_snippets_upto(
    children: Seq<Node>,
    n: nat,
    snippets: Seq<SnippetView>,
) -> Seq<SnippetView>
    decreases n,
{
    if n == 0 {
        snippets
    } else {
        let before = function_body_snippets_upto(children, (n - 1) as nat, snippets);
        let child = children[n - 1];
        if child.rule == Rule::Snippet {
            snippet_registered(child, before)
        } else {
            before
        }
    }
}

/// Registers the snippet blocks of a function body; nothing else of a body
/// is read.
pub fn parse_function_body(node: &Node, snippets: &mut Vec<Snippet>)
    ensures
        views(final(snippets)@) == function_body_snippets_upto(
            node.children@,
            node.children.len() as nat,
            views(old(snippets)@),
        ),
{
    let mut i: usize = 0;
    while i < node.children.len()
        invariant
            i <= node.children.len(),
            views(snippets@) == function_body_snippets_upto(
                node.children@,
                i as nat,
                views(old(snippets)@),
            ),
        decreases node.children.len() - i,
    {
        let child = &node.children[i];
        if child.rule == Rule::Snippet {
            parse_snippet(child, snippets);
        }
        i += 1;
    }
}

/// The function after the first `n` of `children` were read into `start`.
pub open spec fn function_upto(children: Seq<Node>, n: nat, start: FunctionView) -> FunctionView
    decreases n,
{
    if n == 0 {
        start
    } else {
        let before = function_upto(children, (n - 1) as nat, start);
        let child = children[n - 1];
        match child.rule {
            Rule::Ufunction => FunctionView { specifiers: Some(specifiers_of(child)), ..before },
            Rule::FunctionSignature | Rule::ConstructorSignature => function_signature_upto(
                child.children@,
                child.children.len() as nat,
                before,
            ),
            _ => before,
        }
    }
}

/// The function that a function declaration describes.
pub open spec fn function_of(
    node: Node,
    doc_comments: Option<Seq<char>>,
    visibility: Visibility,
    filename: Seq<char>,
) -> FunctionView {
    function_upto(
        node.children@,
        node.children.len() as nat,
        FunctionView {
            name: Seq::empty(),
            return_type: None,
            arguments: Seq::empty(),
            template: None,
            is_virtual: false,
            is_const_this: false,
            is_override: false,
            is_static: false,
            specifiers: None,
            visibility,
            doc_comments,
            filename,
            fileline: node.line as nat,
        },
    )
}

/// The snippets after the bodies among the first `n` children of a function
/// declaration were searched for snippet blocks.
pub open spec fn function_snippets_upto(children: Seq<Node>, n: nat, snippets: Seq<SnippetView>)
    -> Seq<SnippetView>
    decreases n,
{
    if n == 0 {
        snippets
    } else {
        let before = function_snippets_upto(children, (n - 1) as nat, snippets);
        let child = children[n - 1];
        if child.rule == Rule::FunctionBody {
            function_body_snippets_upto(child.children@, child.children.len() as nat, before)
        } else {
            before
        }
    }
}

/// Reads a function declaration and registers the snippets of its body.
pub fn parse_element_function(
    node: &Node,
    doc_comments: &Option<String>,
    visibility: Visibility,
    snippets: &mut Vec<Snippet>,
    filename: &str,
) -> (r: Function)
    requires
        node.well_formed(),
    ensures
        r@ == function_of(*node, opt_text(*doc_comments), visibility, filename@),
        views(final(snippets)@) == function_snippets_upto(
            node.children@,
            node.children.len() as nat,
            views(old(snippets)@),
        ),
{
    let mut result = Function {
        name: String::new(),
        return_type: None,
        arguments: no_items(),
        template: None,
        is_virtual: false,
        is_const_this: false,
        is_override: false,
        is_static: false,
        specifiers: None,
        visibility,
        doc_comments: clone_text(doc_comments),
        filename: filename.to_owned(),
        fileline: node.line,
    };
    let ghost start = result@;
    let mut i: usize = 0;
    while i < node.children.len()
        invariant
            i <= node.children.len(),
            node.well_formed(),
            result@ == function_upto(node.children@, i as nat, start),
            views(snippets@) == function_snippets_upto(
                node.children@,
                i as nat,
                views(old(snippets)@),
            ),
        decreases node.children.len() - i,
    {
        let child = &node.children[i];
        proof {
            node.lemma_child(i as int);
        }
        match child.rule {
            Rule::Ufunction => result.specifiers = Some(parse_specifiers(child)),
            Rule::FunctionSignature | Rule::ConstructorSignature => parse_function_signature(
                child,
                &mut result,
            ),
            Rule::FunctionBody => parse_function_body(child, snippets),
            _ => {},
        }
        i += 1;
    }
    result
}

} // verus!
