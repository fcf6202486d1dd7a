//! The document model: severities, diagnostics, top-level items, and the
//! shape of a parsed document.

use vstd::prelude::*;

verus! {

/// How serious one diagnostic is, ordered `Note < Warning < Error`.
#[derive(Clone, Copy, PartialEq, Eq, PartialOrd, Ord, Structural, Debug)]
pub enum Severity {
    Note,
    Warning,
    Error,
}

/// One problem reported by the grammar engine: a severity and a
/// human-readable message.
#[derive(Clone, Debug)]
pub struct Diag {
    pub severity: Severity,
    pub message: String,
}

/// The mathematical image of a `Diag`.
pub ghost struct DiagSpec {
    pub severity: Severity,
    pub message: Seq<char>,
}

impl View for Diag {
    type V = DiagSpec;

    open spec fn view(&self) -> DiagSpec {
        DiagSpec { severity: self.severity, message: self.message@ }
    }
}

/// The kind of a top-level declaration under the document root.
#[derive(Clone, Copy, PartialEq, Eq, Structural, Debug)]
pub enum ItemKind {
    Workflow,
    Task,
    Other,
}

/// A top-level declaration: its kind and, for workflows and tasks, the
/// declared name.  For other declarations the name is empty.
#[derive(Clone, Debug)]
pub struct TopItem {
    pub kind: ItemKind,
    pub name: String,
}

/// The mathematical image of a `TopItem`.
pub ghost struct ItemSpec {
    pub kind: ItemKind,
    pub name: Seq<char>,
}

impl View for TopItem {
    type V = ItemSpec;

    open spec fn view(&self) -> ItemSpec {
        ItemSpec { kind: self.kind, name: self.name@ }
    }
}

/// The shape of a parsed document: a recognized version 1.x document with its
/// top-level items in source order, or a document whose grammar version the
/// facade does not understand.
#[derive(Clone, Debug)]
pub enum DocAst {
    V1(Vec<TopItem>),
    Unsupported,
}

/// The mathematical image of a `DocAst`.
pub ghost enum AstSpec {
    V1 { items: Seq<ItemSpec> },
    Unsupported,
}

/// The images of a sequence of top-level items.
pub open spec fn view_items(items: Seq<TopItem>) -> Seq<ItemSpec> {
    items.map_values(|t: TopItem| t@)
}

impl View for DocAst {
    type V = AstSpec;

    open spec fn view(&self) -> AstSpec {
        match self {
            DocAst::V1(items) => AstSpec::V1 { items: view_items(items@) },
            DocAst::Unsupported => AstSpec::Unsupported,
        }
    }
}

/// The single error of a parse: all error-severity messages, each on its own
/// line, in the order the engine emitted them.
#[derive(Clone, Debug)]
pub struct ValidationFailed {
    pub message: String,
}

} // verus!
