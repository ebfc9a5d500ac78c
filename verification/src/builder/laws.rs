//! What holds of every tree: visibility scoping, constructors, delegate
//! flags, overwriting by name, and proxies without doc comments.
use vstd::prelude::*;
use crate::builder::delegates::{delegate_of, delegate_upto, is_dynamic, is_multicast};
use crate::builder::file::{
    element_registered, file_upto, proxy_registered, proxy_snippets_upto, proxy_upto,
};
use crate::builder::functions::{
    function_body_snippets_upto, function_signature_upto, function_snippets_upto, function_upto,
    snippet_parts_upto, snippet_registered,
};
use crate::builder::primitives::visibility_of;
use crate::builder::properties::{property_signature_upto, property_upto};
use crate::builder::types::{
    body_snippets_upto, body_upto, BodyState, element_of, element_snippets_upto, element_upto,
    ElementView, member_added, struct_class_signature_upto, struct_class_snippets_upto,
    struct_class_start, struct_class_upto,
};
use crate::collection::{
    distinct_names, has_name, index_of, lemma_index_of, lemma_upserted, names_of,
};
use crate::document::{
    Delegate, DelegateView, DocumentView, Enum, EnumView, Function, FunctionView,
    PropertyArrayView, PropertyView, Snippet, SnippetView, StructClass, StructClassMode,
    StructClassView, Visibility,
};
use crate::policy::ExportPolicy;
use crate::tree::{Node, Rule};

verus! {

/// Reading the signature of a property leaves its visibility and its doc
/// comment as they were.
pub proof fn lemma_property_signature_keeps(children: Seq<Node>, n: nat, start: PropertyView)
    ensures
        property_signature_upto(children, n, start).visibility == start.visibility,
        property_signature_upto(children, n, start).doc_comments == start.doc_comments,
    decreases n,
{
    if n > 0 {
        lemma_property_signature_keeps(children, (n - 1) as nat, start);
    }
}

/// A property has the visibility and the doc comment that it was read under.
pub proof fn lemma_property_keeps(children: Seq<Node>, n: nat, start: PropertyView)
    ensures
        property_upto(children, n, start).visibility == start.visibility,
        property_upto(children, n, start).doc_comments == start.doc_comments,
    decreases n,
{
    if n > 0 {
        let before = property_upto(children, (n - 1) as nat, start);
        let child = children[n - 1];
        lemma_property_keeps(children, (n - 1) as nat, start);
        lemma_property_signature_keeps(child.children@, child.children.len() as nat, before);
    }
}

/// Reading the signature of a function leaves its visibility and its doc
/// comment as they were.
pub proof fn lemma_function_signature_keeps(children: Seq<Node>, n: nat, start: FunctionView)
    ensures
        function_signature_upto(children, n, start).visibility == start.visibility,
        function_signature_upto(children, n, start).doc_comments == start.doc_comments,
    decreases n,
{
    if n > 0 {
        lemma_function_signature_keeps(children, (n - 1) as nat, start);
    }
}

/// A function has the visibility and the doc comment that it was read under.
pub proof fn lemma_function_keeps(children: Seq<Node>, n: nat, start: FunctionView)
    ensures
        function_upto(children, n, start).visibility == start.visibility,
        function_upto(children, n, start).doc_comments == start.doc_comments,
    decreases n,
{
    if n > 0 {
        let before = function_upto(children, (n - 1) as nat, start);
        let child = children[n - 1];
        lemma_function_keeps(children, (n - 1) as nat, start);
        lemma_function_signature_keeps(child.children@, child.children.len() as nat, before);
    }
}

/// Whether a member carries the given visibility, where it is a property or
/// a function.
pub open spec fn member_has_visibility(member: ElementView, visibility: Visibility) -> bool {
    match member {
        ElementView::Property(item) => item.visibility == visibility,
        ElementView::Function(item) => item.visibility == visibility,
        _ => true,
    }
}

/// A property or function that a declaration gives carries the ambient
/// visibility that the declaration was read under.
pub proof fn lemma_element_visibility<P: ExportPolicy>(
    policy: P,
    node: Node,
    n: nat,
    visibility: Visibility,
    filename: Seq<char>,
)
    ensures
        member_has_visibility(
            element_upto(policy, node, n, visibility, filename).result,
            visibility,
        ),
    decreases n,
{
    if n > 0 && n <= node.children.len() {
        lemma_element_visibility(policy, node, (n - 1) as nat, visibility, filename);
        let before = element_upto(policy, node, (n - 1) as nat, visibility, filename);
        let child = node.children[n - 1];
        let property_start = PropertyView {
            name: Seq::empty(),
            value_type: Seq::empty(),
            array: PropertyArrayView::Unsized,
            default_value: None,
            specifiers: None,
            visibility,
            is_static: false,
            doc_comments: before.doc_comments,
        };
        lemma_property_keeps(child.children@, child.children.len() as nat, property_start);
        let function_start = FunctionView {
            name: Seq::empty(),
            return_type: None,
            arguments: Seq::empty(),
            template: None,
            is_virtual: false,
            is_const_this: false,
            is_override: false,
            is_static: false,
            specifiers: None,
            visibility,
            doc_comments: before.doc_comments,
            filename,
            fileline: child.line as nat,
        };
        lemma_function_keeps(child.children@, child.children.len() as nat, function_start);
    }
}

/// Whether a child of a body is a visibility label with one of the three
/// keywords.
pub open spec fn is_label(node: Node) -> bool {
    node.rule == Rule::Visibility && visibility_of(node.text@) is Some
}

/// Between two labels the threaded visibility does not change.
pub proof fn lemma_visibility_between_labels<P: ExportPolicy>(
    policy: P,
    body: Node,
    filename: Seq<char>,
    start: BodyState,
    from: nat,
    to: nat,
)
    requires
        from <= to <= body.children.len(),
        forall|j: int| from <= j < to ==> !is_label(#[trigger] body.children[j]),
    ensures
        body_upto(policy, body, to, filename, start).visibility == body_upto(
            policy,
            body,
            from,
            filename,
            start,
        ).visibility,
    decreases to - from,
{
    if from < to {
        lemma_visibility_between_labels(policy, body, filename, start, from, (to - 1) as nat);
        assert(!is_label(body.children[to - 1]));
    }
}

/// The members of a body follow its labels. The member at index `k` is read
/// under the visibility of the nearest recognised label before it (at index
/// `label`), or under the visibility that the body starts with where no
/// label stands before it (`label` is -1); a property or function read
/// there carries that visibility, and is then offered to the type.
pub proof fn lemma_members_follow_labels<P: ExportPolicy>(
    policy: P,
    body: Node,
    filename: Seq<char>,
    start: BodyState,
    label: int,
    k: int,
)
    requires
        -1 <= label < k < body.children.len(),
        label >= 0 ==> is_label(body.children[label]),
        forall|j: int| label < j < k ==> !is_label(#[trigger] body.children[j]),
        body.children[k].rule == Rule::Element,
    ensures
        ({
            let visibility = if label < 0 {
                start.visibility
            } else {
                visibility_of(body.children[label].text@).unwrap()
            };
            let before = body_upto(policy, body, k as nat, filename, start);
            let member = element_of(policy, body.children[k], visibility, filename);
            &&& before.visibility == visibility
            &&& member_has_visibility(member, visibility)
            &&& body_upto(policy, body, (k + 1) as nat, filename, start).item == member_added(
                policy,
                before.item,
                member,
            )
        }),
{
    lemma_visibility_between_labels(policy, body, filename, start, (label + 1) as nat, k as nat);
    let visibility = body_upto(policy, body, k as nat, filename, start).visibility;
    lemma_element_visibility(
        policy,
        body.children[k],
        body.children[k].children.len() as nat,
        visibility,
        filename,
    );
}

/// The members of a struct body start out public, those of a class body
/// private: a body among the children of a declaration is read from the
/// default visibility of the declaration's mode.
pub proof fn lemma_body_starts_at_default<P: ExportPolicy>(
    policy: P,
    node: Node,
    n: nat,
    mode: StructClassMode,
    filename: Seq<char>,
    start: StructClassView,
)
    requires
        0 < n <= node.children.len(),
        node.children[n - 1].rule == Rule::StructClassBody,
    ensures
        struct_class_upto(policy, node, n, mode, filename, start) == body_upto(
            policy,
            node.children[n - 1],
            node.children[n - 1].children.len() as nat,
            filename,
            BodyState {
                item: struct_class_upto(policy, node, (n - 1) as nat, mode, filename, start),
                visibility: match mode {
                    StructClassMode::Struct => Visibility::Public,
                    StructClassMode::Class => Visibility::Private,
                },
            },
        ).item,
{
}

/// Whether every constructor lacks a return type and every method has one.
pub open spec fn members_sorted(item: StructClassView) -> bool {
    &&& forall|i: int|
        0 <= i < item.constructors.len() ==> (#[trigger] item.constructors[i]).return_type is None
    &&& forall|i: int|
        0 <= i < item.methods.len() ==> (#[trigger] item.methods[i]).return_type is Some
}

/// A function without a return type that is offered to a type becomes a
/// constructor where the policy keeps it, whatever its name, and never a
/// method; one with a return type becomes a method and never a constructor.
pub proof fn lemma_member_added<P: ExportPolicy>(
    policy: P,
    item: StructClassView,
    function: FunctionView,
)
    ensures
        ({
            let after = member_added(policy, item, ElementView::Function(function));
            &&& after.properties == item.properties
            &&& function.return_type is None ==> after.methods == item.methods
            &&& function.return_type is None && policy.exports_function(function)
                ==> after.constructors == item.constructors.push(function)
            &&& function.return_type is Some ==> after.constructors == item.constructors
            &&& function.return_type is Some && policy.exports_function(function) ==> after.methods
                == item.methods.push(function)
            &&& !policy.exports_function(function) ==> after == item
            &&& members_sorted(item) ==> members_sorted(after)
        }),
{
}

/// Reading a signature leaves the members of a type as they were.
pub proof fn lemma_signature_keeps_members(children: Seq<Node>, n: nat, start: StructClassView)
    ensures
        struct_class_signature_upto(children, n, start).constructors == start.constructors,
        struct_class_signature_upto(children, n, start).methods == start.methods,
        struct_class_signature_upto(children, n, start).properties == start.properties,
    decreases n,
{
    if n > 0 {
        lemma_signature_keeps_members(children, (n - 1) as nat, start);
    }
}

/// Reading a body keeps constructors and methods apart.
pub proof fn lemma_body_sorted<P: ExportPolicy>(
    policy: P,
    body: Node,
    n: nat,
    filename: Seq<char>,
    start: BodyState,
)
    requires
        members_sorted(start.item),
    ensures
        members_sorted(body_upto(policy, body, n, filename, start).item),
    decreases n,
{
    if n > 0 && n <= body.children.len() {
        lemma_body_sorted(policy, body, (n - 1) as nat, filename, start);
        let before = body_upto(policy, body, (n - 1) as nat, filename, start);
        let child = body.children[n - 1];
        let member = element_upto(
            policy,
            child,
            child.children.len() as nat,
            before.visibility,
            filename,
        ).result;
        match member {
            ElementView::Function(function) => {
                lemma_member_added(policy, before.item, function);
            },
            _ => {},
        }
    }
}

/// Reading a struct or class declaration keeps constructors and methods
/// apart.
pub proof fn lemma_struct_class_sorted<P: ExportPolicy>(
    policy: P,
    node: Node,
    n: nat,
    mode: StructClassMode,
    filename: Seq<char>,
    start: StructClassView,
)
    requires
        members_sorted(start),
    ensures
        members_sorted(struct_class_upto(policy, node, n, mode, filename, start)),
    decreases n,
{
    if n > 0 && n <= node.children.len() {
        lemma_struct_class_sorted(policy, node, (n - 1) as nat, mode, filename, start);
        let before = struct_class_upto(policy, node, (n - 1) as nat, mode, filename, start);
        let child = node.children[n - 1];
        lemma_signature_keeps_members(child.children@, child.children.len() as nat, before);
        lemma_body_sorted(
            policy,
            child,
            child.children.len() as nat,
            filename,
            BodyState { item: before, visibility: mode.spec_default_visibility() },
        );
    }
}

/// In every struct or class that is read from a declaration, each
/// constructor is a function without a return type and each method is one
/// with a return type.
pub proof fn lemma_constructors_have_no_return_type<P: ExportPolicy>(
    policy: P,
    node: Node,
    doc_comments: Option<Seq<char>>,
    mode: StructClassMode,
    filename: Seq<char>,
)
    ensures
        members_sorted(
            struct_class_upto(
                policy,
                node,
                node.children.len() as nat,
                mode,
                filename,
                struct_class_start(node, doc_comments, mode, filename),
            ),
        ),
{
    lemma_struct_class_sorted(
        policy,
        node,
        node.children.len() as nat,
        mode,
        filename,
        struct_class_start(node, doc_comments, mode, filename),
    );
}

/// Reading the children of a delegate leaves its flags as they were.
pub proof fn lemma_delegate_keeps_flags(children: Seq<Node>, n: nat, start: DelegateView)
    ensures
        delegate_upto(children, n, start).multicast == start.multicast,
        delegate_upto(children, n, start).dynamic == start.dynamic,
    decreases n,
{
    if n > 0 {
        lemma_delegate_keeps_flags(children, (n - 1) as nat, start);
    }
}

/// The variant of a delegate declaration alone decides its flags, and its
/// arguments are read by the grammar that the dynamic flag selects.
pub proof fn lemma_delegate_flags(node: Node, doc_comments: Option<Seq<char>>, filename: Seq<char>)
    ensures
        delegate_of(node, doc_comments, filename).multicast == is_multicast(node.rule),
        delegate_of(node, doc_comments, filename).dynamic == is_dynamic(node.rule),
{
    let start = DelegateView {
        name: Seq::empty(),
        multicast: is_multicast(node.rule),
        dynamic: is_dynamic(node.rule),
        arguments: Seq::empty(),
        return_type: None,
        specifiers: None,
        doc_comments,
        filename,
        fileline: node.line as nat,
    };
    lemma_delegate_keeps_flags(node.children@, node.children.len() as nat, start);
}

/// Declaring an enum under a name that the document holds already puts the
/// new enum in the place of the earlier one: the collection is as long as it
/// was, and every enum of another name stays where it was.
pub proof fn lemma_redeclared_enum_overwrites<P: ExportPolicy>(
    policy: P,
    node: Node,
    filename: Seq<char>,
    document: DocumentView,
    item: EnumView,
)
    requires
        element_of(policy, node, Visibility::Public, filename) == ElementView::Enum(item),
        policy.exports_enum(item),
        has_name::<Enum>(document.enums, item),
    ensures
        ({
            let after = element_registered(policy, node, filename, document).enums;
            let at = index_of(
                names_of::<Enum>(document.enums),
                item.name,
            );
            &&& after.len() == document.enums.len()
            &&& 0 <= at < after.len()
            &&& after[at] == item
            &&& document.enums[at].name == item.name
            &&& forall|i: int| 0 <= i < after.len() && i != at ==> after[i] == document.enums[i]
        }),
{
    lemma_upserted::<Enum>(document.enums, item);
    lemma_index_of(
        names_of::<Enum>(document.enums),
        item.name,
    );
}

/// A proxy block without a doc comment reads nothing into its state.
pub proof fn lemma_proxy_without_doc_comments<P: ExportPolicy>(
    policy: P,
    children: Seq<Node>,
    n: nat,
    filename: Seq<char>,
)
    requires
        n <= children.len(),
        forall|i: int| 0 <= i < n ==> (#[trigger] children[i]).rule != Rule::DocCommentLines,
    ensures
        proxy_upto(policy, children, n, filename).doc_comments is None,
    decreases n,
{
    if n > 0 {
        lemma_proxy_without_doc_comments(policy, children, (n - 1) as nat, filename);
        assert(children[n - 1].rule != Rule::DocCommentLines);
    }
}

/// A proxy block that holds no doc comment adds no entry to either proxy
/// collection, whatever it forwards; nothing but the snippets can change.
pub proof fn lemma_proxy_needs_doc_comments<P: ExportPolicy>(
    policy: P,
    node: Node,
    filename: Seq<char>,
    document: DocumentView,
)
    requires
        forall|i: int|
            0 <= i < node.children.len() ==> (#[trigger] node.children[i]).rule
                != Rule::DocCommentLines,
    ensures
        proxy_registered(policy, node, filename, document) == (DocumentView {
            snippets: proxy_registered(policy, node, filename, document).snippets,
            ..document
        }),
{
    lemma_proxy_without_doc_comments(
        policy,
        node.children@,
        node.children.len() as nat,
        filename,
    );
}

/// Whether no collection of the document that is keyed by name holds a
/// name twice.
pub open spec fn names_distinct(document: DocumentView) -> bool {
    &&& distinct_names::<Enum>(document.enums)
    &&& distinct_names::<StructClass>(document.structs)
    &&& distinct_names::<StructClass>(document.classes)
    &&& distinct_names::<Function>(document.functions)
    &&& distinct_names::<Delegate>(document.delegates)
    &&& distinct_names::<Snippet>(document.snippets)
}

/// Registering a snippet block keeps the names of the snippets distinct.
pub proof fn lemma_snippet_registered_distinct(node: Node, snippets: Seq<SnippetView>)
    requires
        distinct_names::<Snippet>(snippets),
    ensures
        distinct_names::<Snippet>(snippet_registered(node, snippets)),
{
    match snippet_parts_upto(node.children@, node.children.len() as nat) {
        (Some(name), Some(content)) => {
            lemma_upserted::<Snippet>(snippets, SnippetView { name, content });
        },
        _ => {},
    }
}

/// Searching a function body keeps the names of the snippets distinct.
pub proof fn lemma_function_body_snippets_distinct(
    children: Seq<Node>,
    n: nat,
    snippets: Seq<SnippetView>,
)
    requires
        distinct_names::<Snippet>(snippets),
    ensures
        distinct_names::<Snippet>(function_body_snippets_upto(children, n, snippets)),
    decreases n,
{
    if n > 0 {
        lemma_function_body_snippets_distinct(children, (n - 1) as nat, snippets);
        lemma_snippet_registered_distinct(
            children[n - 1],
            function_body_snippets_upto(children, (n - 1) as nat, snippets),
        );
    }
}

/// Searching a function declaration keeps the names of the snippets
/// distinct.
pub proof fn lemma_function_snippets_distinct(
    children: Seq<Node>,
    n: nat,
    snippets: Seq<SnippetView>,
)
    requires
        distinct_names::<Snippet>(snippets),
    ensures
        distinct_names::<Snippet>(function_snippets_upto(children, n, snippets)),
    decreases n,
{
    if n > 0 {
        lemma_function_snippets_distinct(children, (n - 1) as nat, snippets);
        let child = children[n - 1];
        lemma_function_body_snippets_distinct(
            child.children@,
            child.children.len() as nat,
            function_snippets_upto(children, (n - 1) as nat, snippets),
        );
    }
}

/// Searching a declaration keeps the names of the snippets distinct.
pub proof fn lemma_element_snippets_distinct(node: Node, n: nat, snippets: Seq<SnippetView>)
    requires
        distinct_names::<Snippet>(snippets),
    ensures
        distinct_names::<Snippet>(element_snippets_upto(node, n, snippets)),
    decreases node, n,
{
    if n > 0 && n <= node.children.len() {
        lemma_element_snippets_distinct(node, (n - 1) as nat, snippets);
        let before = element_snippets_upto(node, (n - 1) as nat, snippets);
        let child = node.children[n - 1];
        lemma_struct_class_snippets_distinct(child, child.children.len() as nat, before);
        lemma_function_snippets_distinct(child.children@, child.children.len() as nat, before);
    }
}

/// Searching a struct or class declaration keeps the names of the snippets
/// distinct.
pub proof fn lemma_struct_class_snippets_distinct(
    node: Node,
    n: nat,
    snippets: Seq<SnippetView>,
)
    requires
        distinct_names::<Snippet>(snippets),
    ensures
        distinct_names::<Snippet>(struct_class_snippets_upto(node, n, snippets)),
    decreases node, n,
{
    if n > 0 && n <= node.children.len() {
        lemma_struct_class_snippets_distinct(node, (n - 1) as nat, snippets);
        let child = node.children[n - 1];
        lemma_body_snippets_distinct(
            child,
            child.children.len() as nat,
            struct_class_snippets_upto(node, (n - 1) as nat, snippets),
        );
    }
}

/// Searching the body of a struct or class keeps the names of the snippets
/// distinct.
pub proof fn lemma_body_snippets_distinct(body: Node, n: nat, snippets: Seq<SnippetView>)
    requires
        distinct_names::<Snippet>(snippets),
    ensures
        distinct_names::<Snippet>(body_snippets_upto(body, n, snippets)),
    decreases body, n,
{
    if n > 0 && n <= body.children.len() {
        lemma_body_snippets_distinct(body, (n - 1) as nat, snippets);
        let child = body.children[n - 1];
        lemma_element_snippets_distinct(
            child,
            child.children.len() as nat,
            body_snippets_upto(body, (n - 1) as nat, snippets),
        );
    }
}

/// Searching a proxy block keeps the names of the snippets distinct.
pub proof fn lemma_proxy_snippets_distinct(children: Seq<Node>, n: nat, snippets: Seq<SnippetView>)
    requires
        distinct_names::<Snippet>(snippets),
    ensures
        distinct_names::<Snippet>(proxy_snippets_upto(children, n, snippets)),
    decreases n,
{
    if n > 0 {
        lemma_proxy_snippets_distinct(children, (n - 1) as nat, snippets);
        let child = children[n - 1];
        lemma_element_snippets_distinct(
            child,
            child.children.len() as nat,
            proxy_snippets_upto(children, (n - 1) as nat, snippets),
        );
    }
}

/// Reading a top-level declaration keeps the names of a document distinct.
pub proof fn lemma_element_registered_distinct<P: ExportPolicy>(
    policy: P,
    node: Node,
    filename: Seq<char>,
    document: DocumentView,
)
    requires
        names_distinct(document),
    ensures
        names_distinct(element_registered(policy, node, filename, document)),
{
    lemma_element_snippets_distinct(node, node.children.len() as nat, document.snippets);
    match element_of(policy, node, Visibility::Public, filename) {
        ElementView::Enum(item) => lemma_upserted::<Enum>(document.enums, item),
        ElementView::StructClass(item) => {
            lemma_upserted::<StructClass>(document.structs, item);
            lemma_upserted::<StructClass>(document.classes, item);
        },
        ElementView::Delegate(item) => lemma_upserted::<Delegate>(document.delegates, item),
        ElementView::Function(item) => lemma_upserted::<Function>(document.functions, item),
        _ => {},
    }
}

/// Reading a file keeps the names of a document distinct: in each
/// collection that is keyed by name, and among the snippets, a name that is
/// declared again takes the place of the earlier entry.
pub proof fn lemma_file_keeps_names_distinct<P: ExportPolicy>(
    policy: P,
    children: Seq<Node>,
    n: nat,
    filename: Seq<char>,
    document: DocumentView,
)
    requires
        names_distinct(document),
    ensures
        names_distinct(file_upto(policy, children, n, filename, document)),
    decreases n,
{
    if n > 0 {
        lemma_file_keeps_names_distinct(policy, children, (n - 1) as nat, filename, document);
        let before = file_upto(policy, children, (n - 1) as nat, filename, document);
        let child = children[n - 1];
        lemma_proxy_snippets_distinct(
            child.children@,
            child.children.len() as nat,
            before.snippets,
        );
        lemma_snippet_registered_distinct(child, before.snippets);
        lemma_element_registered_distinct(policy, child, filename, before);
    }
}

} // verus!
