//! Proxy blocks, whole files, and the entry points.
use vstd::prelude::*;
use vstd::string::*;
use crate::builder::functions::{parse_snippet, snippet_registered};
use crate::builder::laws::{lemma_file_keeps_names_distinct, names_distinct};
use crate::builder::primitives::{no_items, push_item};
use crate::builder::types::{
    Element, element_of, element_snippets, ElementView, names_upto, parse_element, parse_names,
};
use crate::collection::{upsert, upserted};
use crate::document::{
    Delegate, Document, DocumentView, Enum, Function, FunctionView, PropertyView, Proxy, ProxyView,
    SnippetView, StructClass, StructClassMode, Visibility,
};
use crate::policy::ExportPolicy;
use crate::text::{doc_comment_text, opt_text, parse_doc_comments, views};
use crate::tree::{Node, Rule};

verus! {

/// What is known while the children of a proxy block are read.
pub struct ProxyState {
    pub doc_comments: Option<Seq<char>>,
    pub tags: Seq<Seq<char>>,
    pub result: ElementView,
}

/// What the first `n` children of a proxy block give: its doc comment, its
/// tags without repetition, and the forwarded declaration, read on its own
/// under public visibility.
pub open spec fn proxy_upto<P: ExportPolicy>(
    policy: P,
    children: Seq<Node>,
    n: nat,
    filename: Seq<char>,
) -> ProxyState
    decreases n,
{
    if n == 0 {
        ProxyState { doc_comments: None, tags: Seq::empty(), result: ElementView::Empty }
    } else {
        let before = proxy_upto(policy, children, (n - 1) as nat, filename);
        let child = children[n - 1];
        match child.rule {
            Rule::DocCommentLines => ProxyState {
                doc_comments: Some(doc_comment_text(child.text@)),
                ..before
            },
            Rule::ProxyTags => ProxyState {
                tags: names_upto(child.children@, child.children.len() as nat, before.tags),
                ..before
            },
            Rule::Element => ProxyState {
                result: element_of(policy, child, Visibility::Public, filename),
                ..before
            },
            _ => before,
        }
    }
}

/// The snippets after the forwarded declarations among the first `n`
/// children of a proxy block were searched.
pub open spec fn proxy_snippets_upto(children: Seq<Node>, n: nat, snippets: Seq<SnippetView>)
    -> Seq<SnippetView>
    decreases n,
{
    if n == 0 {
        snippets
    } else {
        let before = proxy_snippets_upto(children, (n - 1) as nat, snippets);
        let child = children[n - 1];
        if child.rule == Rule::Element {
            element_snippets(child, before)
        } else {
            before
        }
    }
}

/// The document after a proxy block was read. A forwarded function or
/// property enters its proxy collection under the block's tags and with the
/// block's doc comment; a block without a doc comment adds no entry.
pub open spec fn proxy_registered<P: ExportPolicy>(
    policy: P,
    node: Node,
    filename: Seq<char>,
    document: DocumentView,
) -> DocumentView {
    let state = proxy_upto(policy, node.children@, node.children.len() as nat, filename);
    let searched = DocumentView {
        snippets: proxy_snippets_upto(
            node.children@,
            node.children.len() as nat,
            document.snippets,
        ),
        ..document
    };
    match (state.result, state.doc_comments) {
        (ElementView::Function(item), Some(doc)) => DocumentView {
            proxy_functions: searched.proxy_functions.push(
                ProxyView {
                    tags: state.tags,
                    item: FunctionView { doc_comments: Some(doc), ..item },
                },
            ),
            ..searched
        },
        (ElementView::Property(item), Some(doc)) => DocumentView {
            proxy_properties: searched.proxy_properties.push(
                ProxyView {
                    tags: state.tags,
                    item: PropertyView { doc_comments: Some(doc), ..item },
                },
            ),
            ..searched
        },
        _ => searched,
    }
}

/// The forwarded text that the first `n` children of a proxy block hold.
pub open spec fn proxy_content_upto(children: Seq<Node>, n: nat) -> Seq<char>
    decreases n,
{
    if n == 0 {
        Seq::empty()
    } else {
        let before = proxy_content_upto(children, (n - 1) as nat);
        let child = children[n - 1];
        if child.rule == Rule::ProxyLineContent {
            before + child.text@
        } else {
            before
        }
    }
}

/// The forwarded declaration of a proxy block as text: its content lines,
/// one after the other. Parsed on its own as a declaration, it gives the
/// subtree that the block carries as its declaration child.
pub fn proxy_content(node: &Node) -> (r: String)
    ensures
        r@ == proxy_content_upto(node.children@, node.children.len() as nat),
{
    let mut content = String::new();
    let mut i: usize = 0;
    while i < node.children.len()
        invariant
            i <= node.children.len(),
            content@ == proxy_content_upto(node.children@, i as nat),
        decreases node.children.len() - i,
    {
        let child = &node.children[i];
        if child.rule == Rule::ProxyLineContent {
            content.append(child.text.as_str());
        }
        i += 1;
    }
    content
}

/// Reads a proxy block into the document.
pub fn parse_proxy<P: ExportPolicy>(
    node: &Node,
    policy: &P,
    document: &mut Document,
    filename: &str,
)
    requires
        node.well_formed(),
    ensures
        final(document)@ == proxy_registered(*policy, *node, filename@, old(document)@),
{
    let mut doc_comments: Option<String> = None;
    let mut tags: Vec<String> = no_items();
    let mut result = Element::Empty;
    let mut i: usize = 0;
    while i < node.children.len()
        invariant
            i <= node.children.len(),
            node.well_formed(),
            (ProxyState {
                doc_comments: opt_text(doc_comments),
                tags: views(tags@),
                result: result@,
            }) == proxy_upto(*policy, node.children@, i as nat, filename@),
            document@ == (DocumentView {
                snippets: proxy_snippets_upto(node.children@, i as nat, old(document)@.snippets),
                ..old(document)@
            }),
        decreases node.children.len() - i,
    {
        let child = &node.children[i];
        proof {
            node.lemma_child(i as int);
        }
        match child.rule {
            Rule::DocCommentLines => doc_comments = Some(parse_doc_comments(child.text.as_str())),
            Rule::ProxyTags => parse_names(child, &mut tags),
            Rule::Element => result = parse_element(
                child,
                Visibility::Public,
                policy,
                &mut document.snippets,
                filename,
            ),
            _ => {},
        }
        i += 1;
    }
    match result {
        Element::Function(mut item) => match doc_comments {
            Some(doc) => {
                item.doc_comments = Some(doc);
                push_item(&mut document.proxy_functions, Proxy { tags, item });
            },
            None => {},
        },
        Element::Property(mut item) => match doc_comments {
            Some(doc) => {
                item.doc_comments = Some(doc);
                push_item(&mut document.proxy_properties, Proxy { tags, item });
            },
            None => {},
        },
        _ => {},
    }
}

/// The document after a top-level declaration was read: the snippets of its
/// function bodies are registered, and the entity, where the policy keeps
/// it, enters the collection of its kind by name.
pub open spec fn element_registered<P: ExportPolicy>(
    policy: P,
    node: Node,
    filename: Seq<char>,
    document: DocumentView,
) -> DocumentView {
    let searched = DocumentView {
        snippets: element_snippets(node, document.snippets),
        ..document
    };
    match element_of(policy, node, Visibility::Public, filename) {
        ElementView::Enum(item) if policy.exports_enum(item) => DocumentView {
            enums: upserted::<Enum>(searched.enums, item),
            ..searched
        },
        ElementView::StructClass(item) if policy.exports_struct_class(item) => match item.mode {
            StructClassMode::Struct => DocumentView {
                structs: upserted::<StructClass>(searched.structs, item),
                ..searched
            },
            StructClassMode::Class => DocumentView {
                classes: upserted::<StructClass>(searched.classes, item),
                ..searched
            },
        },
        ElementView::Delegate(item) if policy.exports_delegate(item) => DocumentView {
            delegates: upserted::<Delegate>(searched.delegates, item),
            ..searched
        },
        ElementView::Function(item) if policy.exports_function(item) => DocumentView {
            functions: upserted::<Function>(searched.functions, item),
            ..searched
        },
        _ => searched,
    }
}

/// The document after the first `n` top-level nodes of a file were read, in
/// order: proxy blocks, snippet blocks and declarations; any other node is
/// passed over.
pub open spec fn file_upto<P: ExportPolicy>(
    policy: P,
    children: Seq<Node>,
    n: nat,
    filename: Seq<char>,
    document: DocumentView,
) -> DocumentView
    decreases n,
{
    if n == 0 {
        document
    } else {
        let before = file_upto(policy, children, (n - 1) as nat, filename, document);
        let child = children[n - 1];
        match child.rule {
            Rule::Proxy => proxy_registered(policy, child, filename, before),
            Rule::Snippet => DocumentView {
                snippets: snippet_registered(child, before.snippets),
                ..before
            },
            Rule::Element => element_registered(policy, child, filename, before),
            _ => before,
        }
    }
}

/// The document after a whole file was read.
pub open spec fn file_parsed<P: ExportPolicy>(
    policy: P,
    node: Node,
    filename: Seq<char>,
    document: DocumentView,
) -> DocumentView {
    file_upto(policy, node.children@, node.children.len() as nat, filename, document)
}

/// Reads the top-level nodes of a file into the document.
pub fn parse_file<P: ExportPolicy>(
    node: &Node,
    document: &mut Document,
    policy: &P,
    filename: &str,
)
    requires
        node.well_formed(),
    ensures
        final(document)@ == file_parsed(*policy, *node, filename@, old(document)@),
{
    let mut i: usize = 0;
    while i < node.children.len()
        invariant
            i <= node.children.len(),
            node.well_formed(),
            document@ == file_upto(
                *policy,
                node.children@,
                i as nat,
                filename@,
                old(document)@,
            ),
        decreases node.children.len() - i,
    {
        let child = &node.children[i];
        proof {
            node.lemma_child(i as int);
        }
        match child.rule {
            Rule::Proxy => parse_proxy(child, policy, document, filename),
            Rule::Snippet => parse_snippet(child, &mut document.snippets),
            Rule::Element => match parse_element(
                child,
                Visibility::Public,
                policy,
                &mut document.snippets,
                filename,
            ) {
                Element::Enum(element) => {
                    if policy.can_export_enum(&element) {
                        upsert(&mut document.enums, element);
                    }
                },
                Element::StructClass(element) => {
                    if policy.can_export_struct_class(&element) {
                        match element.mode {
                            StructClassMode::Struct => {
                                upsert(&mut document.structs, element);
                            },
                            StructClassMode::Class => {
                                upsert(&mut document.classes, element);
                            },
                        }
                    }
                },
                Element::Delegate(element) => {
                    if policy.can_export_delegate(&element) {
                        upsert(&mut document.delegates, element);
                    }
                },
                Element::Function(element) => {
                    if policy.can_export_function(&element) {
                        upsert(&mut document.functions, element);
                    }
                },
                _ => {},
            },
            _ => {},
        }
        i += 1;
    }
}

/// Reads the parse tree of one header into the document. A tree whose root
/// is not a file leaves the document as it was.
pub fn parse_unreal_cpp_header<P: ExportPolicy>(
    tree: &Node,
    document: &mut Document,
    settings: &P,
    filename: &str,
)
    requires
        tree.well_formed(),
    ensures
        final(document)@ == if tree.rule == Rule::File {
            file_parsed(*settings, *tree, filename@, old(document)@)
        } else {
            old(document)@
        },
        names_distinct(old(document)@) ==> names_distinct(final(document)@),
{
    proof {
        if names_distinct(document@) {
            lemma_file_keeps_names_distinct(
                *settings,
                tree.children@,
                tree.children.len() as nat,
                filename@,
                document@,
            );
        }
    }
    if tree.rule == Rule::File {
        parse_file(tree, document, settings, filename);
    }
}

/// Reads the parse tree of one declaration that stands on its own, under
/// public visibility, and registers the snippets below it.
pub fn parse_unreal_cpp_element<P: ExportPolicy>(
    tree: &Node,
    document: &mut Document,
    settings: &P,
    filename: &str,
) -> (r: Element)
    requires
        tree.well_formed(),
        tree.rule == Rule::Element,
    ensures
        r@ == element_of(*settings, *tree, Visibility::Public, filename@),
        final(document)@ == (DocumentView {
            snippets: element_snippets(*tree, old(document)@.snippets),
            ..old(document)@
        }),
{
    parse_element(tree, Visibility::Public, settings, &mut document.snippets, filename)
}

} // verus!
