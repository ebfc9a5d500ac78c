//! The document model: the entities extracted from headers, the collections
//! that hold them, and the mathematical view of each.
use vstd::prelude::*;
use crate::text::{opt_text, texts, views};

verus! {

/// Access level of a member or of a base type.
#[derive(Clone, Copy, Debug, PartialEq, Eq, Structural)]
pub enum Visibility {
    Public,
    Protected,
    Private,
}

/// Whether a type was declared as a struct or as a class.
#[derive(Clone, Copy, Debug, PartialEq, Eq, Structural)]
pub enum StructClassMode {
    Struct,
    Class,
}

impl StructClassMode {
    /// The visibility of members that stand before any label.
    pub open spec fn spec_default_visibility(self) -> Visibility {
        match self {
            StructClassMode::Struct => Visibility::Public,
            StructClassMode::Class => Visibility::Private,
        }
    }

    /// The visibility of members that stand before any label: public in a
    /// struct, private in a class.
    #[verifier::when_used_as_spec(spec_default_visibility)]
    pub fn default_visibility(self) -> (r: Visibility)
        ensures
            r == self.spec_default_visibility(),
    {
        match self {
            StructClassMode::Struct => Visibility::Public,
            StructClassMode::Class => Visibility::Private,
        }
    }
}

/// One attribute of a specifier list.
#[derive(Clone, Debug, PartialEq, Eq)]
pub enum Attribute {
    Single(String),
    Pair { key: String, value: String },
}

pub enum AttributeView {
    Single(Seq<char>),
    Pair { key: Seq<char>, value: Seq<char> },
}

impl View for Attribute {
    type V = AttributeView;

    open spec fn view(&self) -> AttributeView {
        match self {
            Attribute::Single(name) => AttributeView::Single(name@),
            Attribute::Pair { key, value } => AttributeView::Pair { key: key@, value: value@ },
        }
    }
}

/// The attributes of a reflection macro: those at the top level and those of
/// its nested meta group, each in source order.
#[derive(Clone, Debug, PartialEq, Eq)]
pub struct Specifiers {
    pub attributes: Vec<Attribute>,
    pub meta: Vec<Attribute>,
}

pub struct SpecifiersView {
    pub attributes: Seq<AttributeView>,
    pub meta: Seq<AttributeView>,
}

impl View for Specifiers {
    type V = SpecifiersView;

    open spec fn view(&self) -> SpecifiersView {
        SpecifiersView { attributes: views(self.attributes@), meta: views(self.meta@) }
    }
}

/// The view of optional specifiers.
pub open spec fn opt_specifiers(o: Option<Specifiers>) -> Option<SpecifiersView> {
    match o {
        Some(s) => Some(s@),
        None => None,
    }
}

impl SpecifiersView {
    pub open spec fn empty() -> SpecifiersView {
        SpecifiersView { attributes: Seq::empty(), meta: Seq::empty() }
    }
}

/// An enumeration.
#[derive(Clone, Debug, PartialEq, Eq)]
pub struct Enum {
    pub name: String,
    pub doc_comments: Option<String>,
    pub specifiers: Option<Specifiers>,
    pub variants: Vec<String>,
    pub filename: String,
    pub fileline: usize,
}

pub struct EnumView {
    pub name: Seq<char>,
    pub doc_comments: Option<Seq<char>>,
    pub specifiers: Option<SpecifiersView>,
    pub variants: Seq<Seq<char>>,
    pub filename: Seq<char>,
    pub fileline: nat,
}

impl View for Enum {
    type V = EnumView;

    open spec fn view(&self) -> EnumView {
        EnumView {
            name: self.name@,
            doc_comments: opt_text(self.doc_comments),
            specifiers: opt_specifiers(self.specifiers),
            variants: texts(self.variants@),
            filename: self.filename@,
            fileline: self.fileline as nat,
        }
    }
}

/// Whether a property is an array, and of what declared size.
#[derive(Clone, Debug, PartialEq, Eq)]
pub enum PropertyArray {
    Unsized,
    Sized(String),
}

pub enum PropertyArrayView {
    Unsized,
    Sized(Seq<char>),
}

impl View for PropertyArray {
    type V = PropertyArrayView;

    open spec fn view(&self) -> PropertyArrayView {
        match self {
            PropertyArray::Unsized => PropertyArrayView::Unsized,
            PropertyArray::Sized(size) => PropertyArrayView::Sized(size@),
        }
    }
}

/// A property of a struct or class.
#[derive(Clone, Debug, PartialEq, Eq)]
pub struct Property {
    pub name: String,
    pub value_type: String,
    pub array: PropertyArray,
    pub default_value: Option<String>,
    pub specifiers: Option<Specifiers>,
    pub visibility: Visibility,
    pub is_static: bool,
    pub doc_comments: Option<String>,
}

pub struct PropertyView {
    pub name: Seq<char>,
    pub value_type: Seq<char>,
    pub array: PropertyArrayView,
    pub default_value: Option<Seq<char>>,
    pub specifiers: Option<SpecifiersView>,
    pub visibility: Visibility,
    pub is_static: bool,
    pub doc_comments: Option<Seq<char>>,
}

impl View for Property {
    type V = PropertyView;

    open spec fn view(&self) -> PropertyView {
        PropertyView {
            name: self.name@,
            value_type: self.value_type@,
            array: self.array@,
            default_value: opt_text(self.default_value),
            specifiers: opt_specifiers(self.specifiers),
            visibility: self.visibility,
            is_static: self.is_static,
            doc_comments: opt_text(self.doc_comments),
        }
    }
}

/// An argument of a function or of a delegate.
#[derive(Clone, Debug, PartialEq, Eq)]
pub struct Argument {
    pub name: Option<String>,
    pub value_type: String,
    pub default_value: Option<String>,
    pub doc_comments: Option<String>,
}

pub struct ArgumentView {
    pub name: Option<Seq<char>>,
    pub value_type: Seq<char>,
    pub default_value: Option<Seq<char>>,
    pub doc_comments: Option<Seq<char>>,
}

impl View for Argument {
    type V = ArgumentView;

    open spec fn view(&self) -> ArgumentView {
        ArgumentView {
            name: opt_text(self.name),
            value_type: self.value_type@,
            default_value: opt_text(self.default_value),
            doc_comments: opt_text(self.doc_comments),
        }
    }
}

impl ArgumentView {
    pub open spec fn empty() -> ArgumentView {
        ArgumentView {
            name: None,
            value_type: Seq::empty(),
            default_value: None,
            doc_comments: None,
        }
    }
}

/// A function; one without a return type is a constructor.
#[derive(Clone, Debug, PartialEq, Eq)]
pub struct Function {
    pub name: String,
    pub return_type: Option<String>,
    pub arguments: Vec<Argument>,
    pub template: Option<String>,
    pub is_virtual: bool,
    pub is_const_this: bool,
    pub is_override: bool,
    pub is_static: bool,
    pub specifiers: Option<Specifiers>,
    pub visibility: Visibility,
    pub doc_comments: Option<String>,
    pub filename: String,
    pub fileline: usize,
}

pub struct FunctionView {
    pub name: Seq<char>,
    pub return_type: Option<Seq<char>>,
    pub arguments: Seq<ArgumentView>,
    pub template: Option<Seq<char>>,
    pub is_virtual: bool,
    pub is_const_this: bool,
    pub is_override: bool,
    pub is_static: bool,
    pub specifiers: Option<SpecifiersView>,
    pub visibility: Visibility,
    pub doc_comments: Option<Seq<char>>,
    pub filename: Seq<char>,
    pub fileline: nat,
}

impl View for Function {
    type V = FunctionView;

    open spec fn view(&self) -> FunctionView {
        FunctionView {
            name: self.name@,
            return_type: opt_text(self.return_type),
            arguments: views(self.arguments@),
            template: opt_text(self.template),
            is_virtual: self.is_virtual,
            is_const_this: self.is_const_this,
            is_override: self.is_override,
            is_static: self.is_static,
            specifiers: opt_specifiers(self.specifiers),
            visibility: self.visibility,
            doc_comments: opt_text(self.doc_comments),
            filename: self.filename@,
            fileline: self.fileline as nat,
        }
    }
}

/// A base type with the visibility it is inherited under.
#[derive(Clone, Debug, PartialEq, Eq)]
pub struct Inheritance {
    pub visibility: Visibility,
    pub name: String,
}

pub struct InheritanceView {
    pub visibility: Visibility,
    pub name: Seq<char>,
}

impl View for Inheritance {
    type V = InheritanceView;

    open spec fn view(&self) -> InheritanceView {
        InheritanceView { visibility: self.visibility, name: self.name@ }
    }
}

/// A struct or a class with its members.
#[derive(Clone, Debug, PartialEq, Eq)]
pub struct StructClass {
    pub mode: StructClassMode,
    pub name: String,
    pub doc_comments: Option<String>,
    pub specifiers: Option<Specifiers>,
    pub template: Option<String>,
    pub api: Option<String>,
    pub inherits: Vec<Inheritance>,
    pub injects: Vec<String>,
    pub properties: Vec<Property>,
    pub methods: Vec<Function>,
    pub constructors: Vec<Function>,
    pub filename: String,
    pub fileline: usize,
}

pub struct StructClassView {
    pub mode: StructClassMode,
    pub name: Seq<char>,
    pub doc_comments: Option<Seq<char>>,
    pub specifiers: Option<SpecifiersView>,
    pub template: Option<Seq<char>>,
    pub api: Option<Seq<char>>,
    pub inherits: Seq<InheritanceView>,
    pub injects: Seq<Seq<char>>,
    pub properties: Seq<PropertyView>,
    pub methods: Seq<FunctionView>,
    pub constructors: Seq<FunctionView>,
    pub filename: Seq<char>,
    pub fileline: nat,
}

impl View for StructClass {
    type V = StructClassView;

    open spec fn view(&self) -> StructClassView {
        StructClassView {
            mode: self.mode,
            name: self.name@,
            doc_comments: opt_text(self.doc_comments),
            specifiers: opt_specifiers(self.specifiers),
            template: opt_text(self.template),
            api: opt_text(self.api),
            inherits: views(self.inherits@),
            injects: texts(self.injects@),
            properties: views(self.properties@),
            methods: views(self.methods@),
            constructors: views(self.constructors@),
            filename: self.filename@,
            fileline: self.fileline as nat,
        }
    }
}

/// A delegate declaration.
#[derive(Clone, Debug, PartialEq, Eq)]
pub struct Delegate {
    pub name: String,
    pub multicast: bool,
    pub dynamic: bool,
    pub arguments: Vec<Argument>,
    pub return_type: Option<String>,
    pub specifiers: Option<Specifiers>,
    pub doc_comments: Option<String>,
    pub filename: String,
    pub fileline: usize,
}

pub struct DelegateView {
    pub name: Seq<char>,
    pub multicast: bool,
    pub dynamic: bool,
    pub arguments: Seq<ArgumentView>,
    pub return_type: Option<Seq<char>>,
    pub specifiers: Option<SpecifiersView>,
    pub doc_comments: Option<Seq<char>>,
    pub filename: Seq<char>,
    pub fileline: nat,
}

impl View for Delegate {
    type V = DelegateView;

    open spec fn view(&self) -> DelegateView {
        DelegateView {
            name: self.name@,
            multicast: self.multicast,
            dynamic: self.dynamic,
            arguments: views(self.arguments@),
            return_type: opt_text(self.return_type),
            specifiers: opt_specifiers(self.specifiers),
            doc_comments: opt_text(self.doc_comments),
            filename: self.filename@,
            fileline: self.fileline as nat,
        }
    }
}

/// A symbol declared elsewhere and documented here under a set of tags.
#[derive(Clone, Debug, PartialEq, Eq)]
pub struct Proxy<T> {
    pub tags: Vec<String>,
    pub item: T,
}

pub struct ProxyView<V> {
    pub tags: Seq<Seq<char>>,
    pub item: V,
}

impl<T: View> View for Proxy<T> {
    type V = ProxyView<T::V>;

    open spec fn view(&self) -> ProxyView<T::V> {
        ProxyView { tags: texts(self.tags@), item: self.item@ }
    }
}

/// A named block of text, its indentation normalised.
#[derive(Clone, Debug, PartialEq, Eq)]
pub struct Snippet {
    pub name: String,
    pub content: String,
}

pub struct SnippetView {
    pub name: Seq<char>,
    pub content: Seq<char>,
}

impl View for Snippet {
    type V = SnippetView;

    open spec fn view(&self) -> SnippetView {
        SnippetView { name: self.name@, content: self.content@ }
    }
}

/// A file of the hand-written part of the book, by its path below the
/// book's directory.
#[derive(Clone, Debug, PartialEq, Eq)]
pub struct BookFile {
    pub name: String,
    pub content: String,
}

pub struct BookFileView {
    pub name: Seq<char>,
    pub content: Seq<char>,
}

impl View for BookFile {
    type V = BookFileView;

    open spec fn view(&self) -> BookFileView {
        BookFileView { name: self.name@, content: self.content@ }
    }
}

/// Everything extracted so far, each collection in insertion order.
#[derive(Clone, Debug, PartialEq, Eq)]
pub struct Document {
    pub enums: Vec<Enum>,
    pub structs: Vec<StructClass>,
    pub classes: Vec<StructClass>,
    pub functions: Vec<Function>,
    pub delegates: Vec<Delegate>,
    pub proxy_functions: Vec<Proxy<Function>>,
    pub proxy_properties: Vec<Proxy<Property>>,
    pub snippets: Vec<Snippet>,
}

pub struct DocumentView {
    pub enums: Seq<EnumView>,
    pub structs: Seq<StructClassView>,
    pub classes: Seq<StructClassView>,
    pub functions: Seq<FunctionView>,
    pub delegates: Seq<DelegateView>,
    pub proxy_functions: Seq<ProxyView<FunctionView>>,
    pub proxy_properties: Seq<ProxyView<PropertyView>>,
    pub snippets: Seq<SnippetView>,
}

impl View for Document {
    type V = DocumentView;

    open spec fn view(&self) -> DocumentView {
        DocumentView {
            enums: views(self.enums@),
            structs: views(self.structs@),
            classes: views(self.classes@),
            functions: views(self.functions@),
            delegates: views(self.delegates@),
            proxy_functions: views(self.proxy_functions@),
            proxy_properties: views(self.proxy_properties@),
            snippets: views(self.snippets@),
        }
    }
}

impl DocumentView {
    /// The document that holds nothing.
    pub open spec fn empty() -> DocumentView {
        DocumentView {
            enums: Seq::empty(),
            structs: Seq::empty(),
            classes: Seq::empty(),
            functions: Seq::empty(),
            delegates: Seq::empty(),
            proxy_functions: Seq::empty(),
            proxy_properties: Seq::empty(),
            snippets: Seq::empty(),
        }
    }
}

impl Document {
    /// A document that holds nothing.
    pub fn new() -> (r: Document)
        ensures
            r@ == DocumentView::empty(),
    {
        let r = Document {
            enums: Vec::new(),
            structs: Vec::new(),
            classes: Vec::new(),
            functions: Vec::new(),
            delegates: Vec::new(),
            proxy_functions: Vec::new(),
            proxy_properties: Vec::new(),
            snippets: Vec::new(),
        };
        proof {
            assert(r@.enums =~= Seq::empty());
            assert(r@.structs =~= Seq::empty());
            assert(r@.classes =~= Seq::empty());
            assert(r@.functions =~= Seq::empty());
            assert(r@.delegates =~= Seq::empty());
            assert(r@.proxy_functions =~= Seq::empty());
            assert(r@.proxy_properties =~= Seq::empty());
            assert(r@.snippets =~= Seq::empty());
        }
        r
    }
}

impl Default for Document {
    fn default() -> (r: Document)
        ensures
            r@ == DocumentView::empty(),
    {
        Document::new()
    }
}

} // verus!
