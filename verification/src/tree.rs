//! The parse tree that the semantic builder walks: each node carries the
//! kind of the grammar rule that matched, the matched text, the line it
//! starts on, and its children in source order.
use vstd::prelude::*;
use crate::text::same_text;

verus! {

/// The kinds of grammar rule that a node can stand for.
#[derive(Clone, Copy, Debug, PartialEq, Eq, Structural)]
pub enum Rule {
    File,
    Proxy,
    ProxyTags,
    ProxyLineContent,
    Snippet,
    SnippetInner,
    Identifier,
    DocCommentLines,
    Element,
    ElementEnum,
    ElementStruct,
    ElementClass,
    ElementProperty,
    ElementFunction,
    ElementDelegate,
    ElementMulticastDelegate,
    ElementDynamicDelegate,
    ElementDynMulticastDelegate,
    SpecifierSingle,
    SpecifierPair,
    SpecifierMeta,
    Uenum,
    EnumSignature,
    EnumBody,
    Ustruct,
    Uclass,
    StructSignature,
    ClassSignature,
    StructClassBody,
    TemplateDeclaration,
    Api,
    Inheritances,
    Visibility,
    Inject,
    Uproperty,
    PropertySignature,
    ValueType,
    PropertyArray,
    DefaultValue,
    Staticness,
    Udelegate,
    DelegateName,
    DelegateArguments,
    DynamicDelegateArguments,
    DelegateArgument,
    DynamicDelegateArgument,
    DelegateArgumentName,
    Ufunction,
    FunctionSignature,
    ConstructorSignature,
    FunctionBody,
    Virtualness,
    Operator,
    FunctionArguments,
    FunctionArgument,
    Constness,
    Overrideness,
    /// Any rule that the builder does not know; such nodes are passed over.
    Other,
}

/// One node of a parse tree.
#[derive(Debug)]
pub struct Node {
    pub rule: Rule,
    pub text: String,
    pub line: usize,
    pub children: Vec<Node>,
}

/// Whether `text` is one of the three visibility keywords.
pub open spec fn is_visibility_keyword(text: Seq<char>) -> bool {
    text == "private"@ || text == "protected"@ || text == "public"@
}

impl Node {
    /// Whether the node has the children that its rule always comes with.
    pub open spec fn shaped(&self) -> bool {
        match self.rule {
            Rule::SpecifierSingle | Rule::EnumSignature | Rule::DefaultValue => self.children.len()
                >= 1,
            Rule::SpecifierPair => self.children.len() >= 2,
            _ => true,
        }
    }

    /// Whether the node is one entry of an inheritance list: a visibility
    /// keyword followed by the base type.
    pub open spec fn is_inheritance(&self) -> bool {
        self.children.len() >= 2 && is_visibility_keyword(self.children[0].text@)
    }

    /// Whether every node of the tree has the children that its rule always
    /// comes with, and every entry of an inheritance list is one.
    pub open spec fn well_formed(&self) -> bool
        decreases self,
    {
        &&& self.shaped()
        &&& forall|i: int|
            0 <= i < self.children.len() ==> (#[trigger] self.children[i]).well_formed()
        &&& self.rule == Rule::Inheritances ==> forall|i: int|
            0 <= i < self.children.len() ==> (#[trigger] self.children[i]).is_inheritance()
    }

    /// The children of a well-formed node are well formed.
    pub proof fn lemma_child(&self, i: int)
        requires
            self.well_formed(),
            0 <= i < self.children.len(),
        ensures
            self.children[i].well_formed(),
            self.children[i].shaped(),
            self.rule == Rule::Inheritances ==> self.children[i].is_inheritance(),
    {
        reveal_with_fuel(Node::well_formed, 2);
    }
}

/// Checks that a tree is well formed.
pub fn is_well_formed(node: &Node) -> (r: bool)
    ensures
        r == node.well_formed(),
    decreases node,
{
    let count: usize = node.children.len();
    let shaped = match node.rule {
        Rule::SpecifierSingle | Rule::EnumSignature | Rule::DefaultValue => count >= 1,
        Rule::SpecifierPair => count >= 2,
        _ => true,
    };
    if !shaped {
        return false;
    }
    let inheritances = node.rule == Rule::Inheritances;
    let mut i: usize = 0;
    while i < count
        invariant
            i <= count,
            count == node.children.len(),
            node.shaped(),
            inheritances == (node.rule == Rule::Inheritances),
            forall|j: int| 0 <= j < i ==> (#[trigger] node.children[j]).well_formed(),
            inheritances ==> forall|j: int|
                0 <= j < i ==> (#[trigger] node.children[j]).is_inheritance(),
        decreases count - i,
    {
        let child = &node.children[i];
        if !is_well_formed(child) {
            return false;
        }
        if inheritances {
            if child.children.len() < 2 {
                return false;
            }
            let word = &child.children[0].text;
            if !(same_text(word, "private") || same_text(word, "protected") || same_text(
                word,
                "public",
            )) {
                return false;
            }
        }
        i += 1;
    }
    true
}

} // verus!
