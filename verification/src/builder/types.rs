//! Declarations in general, and structs and classes with their members.
use vstd::prelude::*;
use vstd::string::*;
use crate::builder::delegates::{delegate_of, parse_element_delegate};
use crate::builder::enums::{enum_of, parse_element_enum};
use crate::builder::functions::{function_of, function_snippets_upto, parse_element_function};
use crate::builder::primitives::{
    clone_text, no_items, parse_identifier, parse_template_declaration, parse_value_type,
    parse_visibility, push_item, visibility_of,
};
use crate::builder::properties::{parse_element_property, property_of};
use crate::builder::specifiers::{parse_specifiers, specifiers_of};
use crate::collection::{upsert, upserted};
use crate::document::{
    Delegate, DelegateView, Enum, EnumView, Function, FunctionView, Inheritance, InheritanceView,
    Property, PropertyView, Snippet, SnippetView, StructClass, StructClassMode, StructClassView,
    Visibility,
};
use crate::policy::ExportPolicy;
use crate::text::{doc_comment_text, opt_text, parse_doc_comments, trimmed, views};
use crate::tree::{Node, Rule};

verus! {

/// The base types that an inheritance list names, each a visibility keyword
/// and the trimmed text of the type.
pub open spec fn inheritances_of(node: Node) -> Seq<InheritanceView> {
    Seq::new(
        node.children.len() as nat,
        |i: int|
            InheritanceView {
                visibility: visibility_of(node.children[i].children[0].text@).unwrap(),
                name: trimmed(node.children[i].children[1].text@),
            },
    )
}

/// Reads an inheritance list.
pub fn parse_inheritances(node: &Node) -> (r: Vec<Inheritance>)
    requires
        node.well_formed(),
        node.rule == Rule::Inheritances,
    ensures
        views(r@) == inheritances_of(*node),
{
    let mut result: Vec<Inheritance> = no_items();
    let mut i: usize = 0;
    while i < node.children.len()
        invariant
            i <= node.children.len(),
            node.well_formed(),
            node.rule == Rule::Inheritances,
            views(result@) =~= inheritances_of(*node).take(i as int),
        decreases node.children.len() - i,
    {
        let entry = &node.children[i];
        proof {
            node.lemma_child(i as int);
        }
        let visibility = parse_visibility(&entry.children[0]).unwrap();
        let name = parse_value_type(&entry.children[1]);
        push_item(&mut result, Inheritance { visibility, name });
        i += 1;
    }
    result
}

/// The struct or class after the first `n` children of its signature were
/// read into `start`.
pub open spec fn struct_class_signature_upto(children: Seq<Node>, n: nat, start: StructClassView)
    -> StructClassView
    decreases n,
{
    if n == 0 {
        start
    } else {
        let before = struct_class_signature_upto(children, (n - 1) as nat, start);
        let child = children[n - 1];
        match child.rule {
            Rule::TemplateDeclaration => StructClassView {
                template: Some(trimmed(child.text@)),
                ..before
            },
            Rule::Api => StructClassView { api: Some(trimmed(child.text@)), ..before },
            Rule::Identifier => StructClassView { name: trimmed(child.text@), ..before },
            Rule::Inheritances => StructClassView { inherits: inheritances_of(child), ..before },
            _ => before,
        }
    }
}

/// Reads the signature of a struct or class: template declaration, API
/// macro, name and base types.
pub fn parse_struct_class_signature(node: &Node, result: &mut StructClass)
    requires
        node.well_formed(),
    ensures
        final(result)@ == struct_class_signature_upto(
            node.children@,
            node.children.len() as nat,
            old(result)@,
        ),
{
    let mut i: usize = 0;
    while i < node.children.len()
        invariant
            i <= node.children.len(),
            node.well_formed(),
            result@ == struct_class_signature_upto(node.children@, i as nat, old(result)@),
        decreases node.children.len() - i,
    {
        let child = &node.children[i];
        proof {
            node.lemma_child(i as int);
        }
        match child.rule {
            Rule::TemplateDeclaration => result.template = Some(parse_template_declaration(child)),
            Rule::Api => result.api = Some(parse_identifier(child)),
            Rule::Identifier => result.name = parse_identifier(child),
            Rule::Inheritances => result.inherits = parse_inheritances(child),
            _ => {},
        }
        i += 1;
    }
}

/// What one reflected declaration was read as.
#[derive(Clone, Debug, PartialEq, Eq)]
pub enum Element {
    /// No declaration was found.
    Empty,
    Enum(Enum),
    StructClass(StructClass),
    Property(Property),
    Function(Function),
    Delegate(Delegate),
}

pub enum ElementView {
    Empty,
    Enum(EnumView),
    StructClass(StructClassView),
    Property(PropertyView),
    Function(FunctionView),
    Delegate(DelegateView),
}

impl View for Element {
    type V = ElementView;

    open spec fn view(&self) -> ElementView {
        match self {
            Element::Empty => ElementView::Empty,
            Element::Enum(item) => ElementView::Enum(item@),
            Element::StructClass(item) => ElementView::StructClass(item@),
            Element::Property(item) => ElementView::Property(item@),
            Element::Function(item) => ElementView::Function(item@),
            Element::Delegate(item) => ElementView::Delegate(item@),
        }
    }
}

/// What is known while the children of a declaration are read: the entity
/// read last, and the doc comment that stands before what follows.
pub struct ElementState {
    pub result: ElementView,
    pub doc_comments: Option<Seq<char>>,
}

/// What is known while the members of a struct or class body are read: the
/// type so far, and the visibility that the next member gets.
pub struct BodyState {
    pub item: StructClassView,
    pub visibility: Visibility,
}

/// The names after the trimmed texts of the first `n` of `children` were
/// added, each one unless it is present already.
pub open spec fn names_upto(children: Seq<Node>, n: nat, names: Seq<Seq<char>>) -> Seq<Seq<char>>
    decreases n,
{
    if n == 0 {
        names
    } else {
        upserted::<String>(
            names_upto(children, (n - 1) as nat, names),
            trimmed(children[n - 1].text@),
        )
    }
}

/// Adds the text of each child of `node` to a list of names without
/// repetition.
pub fn parse_names(node: &Node, names: &mut Vec<String>)
    ensures
        views(final(names)@) == names_upto(
            node.children@,
            node.children.len() as nat,
            views(old(names)@),
        ),
{
    let mut i: usize = 0;
    while i < node.children.len()
        invariant
            i <= node.children.len(),
            views(names@) == names_upto(node.children@, i as nat, views(old(names)@)),
        decreases node.children.len() - i,
    {
        upsert(names, parse_identifier(&node.children[i]));
        i += 1;
    }
}

/// The type after a parsed member was offered to it. A property that the
/// policy keeps joins the properties. A function that the policy keeps is a
/// constructor where it has no return type, and a method where it has one.
/// Nothing else changes the type.
pub open spec fn member_added<P: ExportPolicy>(
    policy: P,
    item: StructClassView,
    member: ElementView,
) -> StructClassView {
    match member {
        ElementView::Property(property) => if policy.exports_property(property) {
            StructClassView { properties: item.properties.push(property), ..item }
        } else {
            item
        },
        ElementView::Function(function) => if policy.exports_function(function) {
            if function.return_type is None {
                StructClassView { constructors: item.constructors.push(function), ..item }
            } else {
                StructClassView { methods: item.methods.push(function), ..item }
            }
        } else {
            item
        },
        _ => item,
    }
}

/// The struct or class of the given mode before any of its children is read.
pub open spec fn struct_class_start(
    node: Node,
    doc_comments: Option<Seq<char>>,
    mode: StructClassMode,
    filename: Seq<char>,
) -> StructClassView {
    StructClassView {
        mode,
        name: Seq::empty(),
        doc_comments,
        specifiers: None,
        template: None,
        api: None,
        inherits: Seq::empty(),
        injects: Seq::empty(),
        properties: Seq::empty(),
        methods: Seq::empty(),
        constructors: Seq::empty(),
        filename,
        fileline: node.line as nat,
    }
}

/// What the first `n` children of a declaration give. A doc comment counts
/// for the entities that follow it; of several entities the last one stays.
pub open spec fn element_upto<P: ExportPolicy>(
    policy: P,
    node: Node,
    n: nat,
    visibility: Visibility,
    filename: Seq<char>,
) -> ElementState
    decreases node, n,
{
    if n == 0 || n > node.children.len() {
        ElementState { result: ElementView::Empty, doc_comments: None }
    } else {
        let before = element_upto(policy, node, (n - 1) as nat, visibility, filename);
        let child = node.children[n - 1];
        let doc = before.doc_comments;
        match child.rule {
            Rule::DocCommentLines => ElementState {
                doc_comments: Some(doc_comment_text(child.text@)),
                ..before
            },
            Rule::ElementEnum => ElementState {
                result: ElementView::Enum(enum_of(child, doc, filename)),
                ..before
            },
            Rule::ElementStruct => ElementState {
                result: ElementView::StructClass(
                    struct_class_upto(
                        policy,
                        child,
                        child.children.len() as nat,
                        StructClassMode::Struct,
                        filename,
                        struct_class_start(child, doc, StructClassMode::Struct, filename),
                    ),
                ),
                ..before
            },
            Rule::ElementClass => ElementState {
                result: ElementView::StructClass(
                    struct_class_upto(
                        policy,
                        child,
                        child.children.len() as nat,
                        StructClassMode::Class,
                        filename,
                        struct_class_start(child, doc, StructClassMode::Class, filename),
                    ),
                ),
                ..before
            },
            Rule::ElementProperty => ElementState {
                result: ElementView::Property(property_of(child, doc, visibility)),
                ..before
            },
            Rule::ElementFunction => ElementState {
                result: ElementView::Function(function_of(child, doc, visibility, filename)),
                ..before
            },
            Rule::ElementDelegate
            | Rule::ElementMulticastDelegate
            | Rule::ElementDynamicDelegate
            | Rule::ElementDynMulticastDelegate => ElementState {
                result: ElementView::Delegate(delegate_of(child, doc, filename)),
                ..before
            },
            _ => before,
        }
    }
}

/// The struct or class after the first `n` children of its declaration were
/// read into `start`. The members of a body start at the default visibility
/// of `mode`.
pub open spec fn struct_class_upto<P: ExportPolicy>(
    policy: P,
    node: Node,
    n: nat,
    mode: StructClassMode,
    filename: Seq<char>,
    start: StructClassView,
) -> StructClassView
    decreases node, n,
{
    if n == 0 || n > node.children.len() {
        start
    } else {
        let before = struct_class_upto(policy, node, (n - 1) as nat, mode, filename, start);
        let child = node.children[n - 1];
        match child.rule {
            Rule::Ustruct | Rule::Uclass => StructClassView {
                specifiers: Some(specifiers_of(child)),
                ..before
            },
            Rule::StructSignature | Rule::ClassSignature => struct_class_signature_upto(
                child.children@,
                child.children.len() as nat,
                before,
            ),
            Rule::StructClassBody => body_upto(
                policy,
                child,
                child.children.len() as nat,
                filename,
                BodyState { item: before, visibility: mode.spec_default_visibility() },
            ).item,
            _ => before,
        }
    }
}

/// The state after the first `n` children of a body were read from `start`.
/// A recognised visibility label sets the visibility of the members that
/// follow, an inject adds its identifiers, and a declaration is read under
/// the current visibility and offered to the type.
pub open spec fn body_upto<P: ExportPolicy>(
    policy: P,
    body: Node,
    n: nat,
    filename: Seq<char>,
    start: BodyState,
) -> BodyState
    decreases body, n,
{
    if n == 0 || n > body.children.len() {
        start
    } else {
        let before = body_upto(policy, body, (n - 1) as nat, filename, start);
        let child = body.children[n - 1];
        match child.rule {
            Rule::Visibility => match visibility_of(child.text@) {
                Some(visibility) => BodyState { visibility, ..before },
                None => before,
            },
            Rule::Inject => BodyState {
                item: StructClassView {
                    injects: names_upto(
                        child.children@,
                        child.children.len() as nat,
                        before.item.injects,
                    ),
                    ..before.item
                },
                ..before
            },
            Rule::Element => BodyState {
                item: member_added(
                    policy,
                    before.item,
                    element_upto(
                        policy,
                        child,
                        child.children.len() as nat,
                        before.visibility,
                        filename,
                    ).result,
                ),
                ..before
            },
            _ => before,
        }
    }
}

/// The entity that a declaration describes.
pub open spec fn element_of<P: ExportPolicy>(
    policy: P,
    node: Node,
    visibility: Visibility,
    filename: Seq<char>,
) -> ElementView {
    element_upto(policy, node, node.children.len() as nat, visibility, filename).result
}

/// The snippets after the first `n` children of a declaration were searched:
/// structs and classes through their members, functions through their
/// bodies.
pub open spec fn element_snippets_upto(node: Node, n: nat, snippets: Seq<SnippetView>) -> Seq<
    SnippetView,
>
    decreases node, n,
{
    if n == 0 || n > node.children.len() {
        snippets
    } else {
        let before = element_snippets_upto(node, (n - 1) as nat, snippets);
        let child = node.children[n - 1];
        match child.rule {
            Rule::ElementStruct | Rule::ElementClass => struct_class_snippets_upto(
                child,
                child.children.len() as nat,
                before,
            ),
            Rule::ElementFunction => function_snippets_upto(
                child.children@,
                child.children.len() as nat,
                before,
            ),
            _ => before,
        }
    }
}

/// The snippets after the bodies among the first `n` children of a struct or
/// class declaration were searched.
pub open spec fn struct_class_snippets_upto(node: Node, n: nat, snippets: Seq<SnippetView>) -> Seq<
    SnippetView,
>
    decreases node, n,
{
    if n == 0 || n > node.children.len() {
        snippets
    } else {
        let before = struct_class_snippets_upto(node, (n - 1) as nat, snippets);
        let child = node.children[n - 1];
        if child.rule == Rule::StructClassBody {
            body_snippets_upto(child, child.children.len() as nat, before)
        } else {
            before
        }
    }
}

/// The snippets after the declarations among the first `n` children of a
/// body were searched.
pub open spec fn body_snippets_upto(body: Node, n: nat, snippets: Seq<SnippetView>) -> Seq<
    SnippetView,
>
    decreases body, n,
{
    if n == 0 || n > body.children.len() {
        snippets
    } else {
        let before = body_snippets_upto(body, (n - 1) as nat, snippets);
        let child = body.children[n - 1];
        if child.rule == Rule::Element {
            element_snippets_upto(child, child.children.len() as nat, before)
        } else {
            before
        }
    }
}

/// The snippets after a declaration was searched.
pub open spec fn element_snippets(node: Node, snippets: Seq<SnippetView>) -> Seq<SnippetView> {
    element_snippets_upto(node, node.children.len() as nat, snippets)
}

/// Reads one reflected declaration under the given ambient visibility, and
/// registers the snippets that stand in function bodies below it.
pub fn parse_element<P: ExportPolicy>(
    node: &Node,
    visibility: Visibility,
    policy: &P,
    snippets: &mut Vec<Snippet>,
    filename: &str,
) -> (r: Element)
    requires
        node.well_formed(),
    ensures
        r@ == element_of(*policy, *node, visibility, filename@),
        views(final(snippets)@) == element_snippets(*node, views(old(snippets)@)),
    decreases node,
{
    let mut result = Element::Empty;
    let mut doc_comments: Option<String> = None;
    let mut i: usize = 0;
    while i < node.children.len()
        invariant
            i <= node.children.len(),
            node.well_formed(),
            (ElementState { result: result@, doc_comments: opt_text(doc_comments) })
                == element_upto(*policy, *node, i as nat, visibility, filename@),
            views(snippets@) == element_snippets_upto(*node, i as nat, views(old(snippets)@)),
        decreases node.children.len() - i,
    {
        let child = &node.children[i];
        proof {
            node.lemma_child(i as int);
        }
        match child.rule {
            Rule::DocCommentLines => doc_comments = Some(parse_doc_comments(child.text.as_str())),
            Rule::ElementEnum => result = Element::Enum(
                parse_element_enum(child, &doc_comments, filename),
            ),
            Rule::ElementStruct => result = Element::StructClass(
                parse_element_struct_class(
                    child,
                    &doc_comments,
                    StructClassMode::Struct,
                    policy,
                    snippets,
                    filename,
                ),
            ),
            Rule::ElementClass => result = Element::StructClass(
                parse_element_struct_class(
                    child,
                    &doc_comments,
                    StructClassMode::Class,
                    policy,
                    snippets,
                    filename,
                ),
            ),
            Rule::ElementProperty => result = Element::Property(
                parse_element_property(child, &doc_comments, visibility),
            ),
            Rule::ElementFunction => result = Element::Function(
                parse_element_function(child, &doc_comments, visibility, snippets, filename),
            ),
            Rule::ElementDelegate
            | Rule::ElementMulticastDelegate
            | Rule::ElementDynamicDelegate
            | Rule::ElementDynMulticastDelegate => result = Element::Delegate(
                parse_element_delegate(child, &doc_comments, filename),
            ),
            _ => {},
        }
        i += 1;
    }
    result
}

/// Reads a struct or class declaration of the given mode.
pub fn parse_element_struct_class<P: ExportPolicy>(
    node: &Node,
    doc_comments: &Option<String>,
    mode: StructClassMode,
    policy: &P,
    snippets: &mut Vec<Snippet>,
    filename: &str,
) -> (r: StructClass)
    requires
        node.well_formed(),
    ensures
        r@ == struct_class_upto(
            *policy,
            *node,
            node.children.len() as nat,
            mode,
            filename@,
            struct_class_start(*node, opt_text(*doc_comments), mode, filename@),
        ),
        views(final(snippets)@) == struct_class_snippets_upto(
            *node,
            node.children.len() as nat,
            views(old(snippets)@),
        ),
    decreases node,
{
    let mut result = StructClass {
        mode,
        name: String::new(),
        doc_comments: clone_text(doc_comments),
        specifiers: None,
        template: None,
        api: None,
        inherits: no_items(),
        injects: no_items(),
        properties: no_items(),
        methods: no_items(),
        constructors: no_items(),
        filename: filename.to_owned(),
        fileline: node.line,
    };
    let ghost start = result@;
    let mut i: usize = 0;
    while i < node.children.len()
        invariant
            i <= node.children.len(),
            node.well_formed(),
            start == struct_class_start(*node, opt_text(*doc_comments), mode, filename@),
            result@ == struct_class_upto(*policy, *node, i as nat, mode, filename@, start),
            views(snippets@) == struct_class_snippets_upto(
                *node,
                i as nat,
                views(old(snippets)@),
            ),
        decreases node.children.len() - i,
    {
        let child = &node.children[i];
        proof {
            node.lemma_child(i as int);
        }
        match child.rule {
            Rule::Ustruct | Rule::Uclass => result.specifiers = Some(parse_specifiers(child)),
            Rule::StructSignature | Rule::ClassSignature => parse_struct_class_signature(
                child,
                &mut result,
            ),
            Rule::StructClassBody => parse_struct_class_body(
                child,
                &mut result,
                mode.default_visibility(),
                policy,
                snippets,
                filename,
            ),
            _ => {},
        }
        i += 1;
    }
    result
}

/// Reads the body of a struct or class: one pass over its children with the
/// visibility threaded through, starting from `visibility`.
pub fn parse_struct_class_body<P: ExportPolicy>(
    node: &Node,
    result: &mut StructClass,
    visibility: Visibility,
    policy: &P,
    snippets: &mut Vec<Snippet>,
    filename: &str,
)
    requires
        node.well_formed(),
    ensures
        final(result)@ == body_upto(
            *policy,
            *node,
            node.children.len() as nat,
            filename@,
            BodyState { item: old(result)@, visibility },
        ).item,
        views(final(snippets)@) == body_snippets_upto(
            *node,
            node.children.len() as nat,
            views(old(snippets)@),
        ),
    decreases node,
{
    let ghost start = BodyState { item: result@, visibility };
    let mut current = visibility;
    let mut i: usize = 0;
    while i < node.children.len()
        invariant
            i <= node.children.len(),
            node.well_formed(),
            (BodyState { item: result@, visibility: current }) == body_upto(
                *policy,
                *node,
                i as nat,
                filename@,
                start,
            ),
            views(snippets@) == body_snippets_upto(*node, i as nat, views(old(snippets)@)),
        decreases node.children.len() - i,
    {
        let child = &node.children[i];
        proof {
            node.lemma_child(i as int);
        }
        match child.rule {
            Rule::Visibility => match parse_visibility(child) {
                Some(v) => current = v,
                None => {},
            },
            Rule::Inject => parse_names(child, &mut result.injects),
            Rule::Element => match parse_element(child, current, policy, snippets, filename) {
                Element::Property(element) => {
                    if policy.can_export_property(&element) {
                        push_item(&mut result.properties, element);
                    }
                },
                Element::Function(element) => {
                    if policy.can_export_function(&element) {
                        if element.return_type.is_none() {
                            push_item(&mut result.constructors, element);
                        } else {
                            push_item(&mut result.methods, element);
                        }
                    }
                },
                _ => {},
            },
            _ => {},
        }
        i += 1;
    }
}

} // verus!
