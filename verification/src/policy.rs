//! The export policy: which of the parsed entities enter the document.
use vstd::prelude::*;
use crate::document::{
    Delegate, DelegateView, Enum, EnumView, Function, FunctionView, Property, PropertyView,
    StructClass, StructClassView, Visibility,
};

verus! {

/// Decides, entity by entity, whether a parsed entity is kept. Each answer
/// depends on the policy and on the entity alone.
pub trait ExportPolicy {
    spec fn exports_enum(&self, item: EnumView) -> bool;

    fn can_export_enum(&self, item: &Enum) -> (r: bool)
        ensures
            r == self.exports_enum(item@),
    ;

    spec fn exports_struct_class(&self, item: StructClassView) -> bool;

    fn can_export_struct_class(&self, item: &StructClass) -> (r: bool)
        ensures
            r == self.exports_struct_class(item@),
    ;

    spec fn exports_property(&self, item: PropertyView) -> bool;

    fn can_export_property(&self, item: &Property) -> (r: bool)
        ensures
            r == self.exports_property(item@),
    ;

    spec fn exports_function(&self, item: FunctionView) -> bool;

    fn can_export_function(&self, item: &Function) -> (r: bool)
        ensures
            r == self.exports_function(item@),
    ;

    spec fn exports_delegate(&self, item: DelegateView) -> bool;

    fn can_export_delegate(&self, item: &Delegate) -> (r: bool)
        ensures
            r == self.exports_delegate(item@),
    ;
}

/// The policy of the command line tool: an entity is kept where it is
/// documented, or where everything is shown; a member in addition only
/// where its visibility is documented.
#[derive(Clone, Copy, Debug, PartialEq, Eq)]
pub struct Settings {
    pub document_private: bool,
    pub document_protected: bool,
    pub show_all: bool,
}

impl Default for Settings {
    fn default() -> (r: Settings)
        ensures
            !r.document_private,
            !r.document_protected,
            !r.show_all,
    {
        Settings { document_private: false, document_protected: false, show_all: false }
    }
}

impl Settings {
    /// Whether members of the given visibility are documented.
    pub open spec fn shows(&self, visibility: Visibility) -> bool {
        match visibility {
            Visibility::Public => true,
            Visibility::Protected => self.document_protected,
            Visibility::Private => self.document_private,
        }
    }

    /// Whether members of the given visibility are documented: public ones
    /// always, the others where the settings say so.
    pub fn can_show(&self, visibility: Visibility) -> (r: bool)
        ensures
            r == self.shows(visibility),
    {
        match visibility {
            Visibility::Public => true,
            Visibility::Protected => self.document_protected,
            Visibility::Private => self.document_private,
        }
    }
}

impl ExportPolicy for Settings {
    open spec fn exports_enum(&self, item: EnumView) -> bool {
        self.show_all || item.doc_comments is Some
    }

    fn can_export_enum(&self, item: &Enum) -> (r: bool) {
        self.show_all || item.doc_comments.is_some()
    }

    open spec fn exports_struct_class(&self, item: StructClassView) -> bool {
        self.show_all || item.doc_comments is Some
    }

    fn can_export_struct_class(&self, item: &StructClass) -> (r: bool) {
        self.show_all || item.doc_comments.is_some()
    }

    open spec fn exports_property(&self, item: PropertyView) -> bool {
        self.shows(item.visibility) && (self.show_all || item.doc_comments is Some)
    }

    fn can_export_property(&self, item: &Property) -> (r: bool) {
        self.can_show(item.visibility) && (self.show_all || item.doc_comments.is_some())
    }

    open spec fn exports_function(&self, item: FunctionView) -> bool {
        self.shows(item.visibility) && (self.show_all || item.doc_comments is Some)
    }

    fn can_export_function(&self, item: &Function) -> (r: bool) {
        self.can_show(item.visibility) && (self.show_all || item.doc_comments.is_some())
    }

    open spec fn exports_delegate(&self, item: DelegateView) -> bool {
        self.show_all || item.doc_comments is Some
    }

    fn can_export_delegate(&self, item: &Delegate) -> (r: bool) {
        self.show_all || item.doc_comments.is_some()
    }
}

} // verus!
