//! The trusted boundary to the grammar engine (`wdl_ast`).
//!
//! The engine parses source text into a syntax tree plus diagnostics.  Each
//! wrapper here converts one step of that output into the crate's own model;
//! everything downstream of these wrappers is verified.

use vstd::prelude::*;
use wdl_ast::AstToken;
use crate::model::{AstSpec, Diag, DiagSpec, ItemKind, ItemSpec, Severity, TopItem};

verus! {

/// What one parse yields: the shape of the tree and the diagnostics, in
/// emission order.
pub ghost struct EngineSpec {
    pub ast: AstSpec,
    pub diags: Seq<DiagSpec>,
}

/// What the grammar engine yields for a given source text.  Parsing is a pure
/// function of the text, so its result bears a name of its own.
pub uninterp spec fn engine_of(s: Seq<char>) -> EngineSpec;

/// The shape held by an opaque parsed tree.
pub uninterp spec fn tree_ast_of(t: ParsedTree) -> AstSpec;

/// The kind and name of one raw top-level item.
pub uninterp spec fn item_spec_of(i: RawItem) -> ItemSpec;

/// The severity and message of one raw diagnostic.
pub uninterp spec fn diag_spec_of(d: wdl_ast::Diagnostic) -> DiagSpec;

#[verifier::external_type_specification]
#[verifier::external_body]
pub struct ExDiagnostic(wdl_ast::Diagnostic);

/// An opaque syntax tree produced by the grammar engine.  The engine's tree
/// type is generic over its node representation, which cannot be declared
/// here, so the tree sits in a field Verus does not read.
#[verifier::external_body]
pub struct ParsedTree {
    inner: wdl_ast::Document,
}

/// One opaque top-level item of a version 1.x tree, held the same way.
#[verifier::external_body]
pub struct RawItem {
    inner: wdl_ast::v1::DocumentItem,
}

/// Relies on `wdl_ast::Document::parse`: it always returns a tree and a list
/// of diagnostics — problems surface as diagnostics, never as a failure of
/// the call itself — and it is deterministic in the source text.
#[verifier::external_body]
pub(crate) fn parse_source(source: &str) -> (r: (ParsedTree, Vec<wdl_ast::Diagnostic>))
    ensures
        tree_ast_of(r.0) == engine_of(source@).ast,
        r.1@.map_values(|d: wdl_ast::Diagnostic| diag_spec_of(d)) == engine_of(source@).diags,
{
    let (document, diagnostics) = wdl_ast::Document::parse(source, None);
    (ParsedTree { inner: document }, diagnostics)
}

/// Relies on `wdl_ast::Document::ast` and `wdl_ast::v1::Ast::items`: a tree
/// is either a recognized version 1.x document carrying its top-level items
/// in source order, or an unsupported grammar version carrying none.
#[verifier::external_body]
pub(crate) fn tree_items(t: &ParsedTree) -> (r: Option<Vec<RawItem>>)
    ensures
        r matches Some(items) ==> tree_ast_of(*t)
            == (AstSpec::V1 { items: items@.map_values(|i: RawItem| item_spec_of(i)) }),
        r is None ==> tree_ast_of(*t) == AstSpec::Unsupported,
{
    match t.inner.ast() {
        wdl_ast::Ast::V1(ast) => Some(ast.items().map(|i| RawItem { inner: i }).collect()),
        wdl_ast::Ast::Unsupported => None,
    }
}

/// Relies on the variants of `wdl_ast::v1::DocumentItem`, and on
/// `WorkflowDefinition::name` / `TaskDefinition::name` (with
/// `AstToken::text`) for the declared name of a workflow or task.
#[verifier::external_body]
pub(crate) fn item_model(i: &RawItem) -> (r: TopItem)
    ensures
        r@ == item_spec_of(*i),
{
    match &i.inner {
        wdl_ast::v1::DocumentItem::Workflow(w) => TopItem {
            kind: ItemKind::Workflow,
            name: w.name().text().to_string(),
        },
        wdl_ast::v1::DocumentItem::Task(t) => TopItem {
            kind: ItemKind::Task,
            name: t.name().text().to_string(),
        },
        wdl_ast::v1::DocumentItem::Import(_) => TopItem { kind: ItemKind::Other, name: String::new() },
        wdl_ast::v1::DocumentItem::Struct(_) => TopItem { kind: ItemKind::Other, name: String::new() },
        wdl_ast::v1::DocumentItem::Enum(_) => TopItem { kind: ItemKind::Other, name: String::new() },
    }
}

/// Relies on `wdl_ast::Diagnostic::severity` and
/// `wdl_ast::Diagnostic::message`, converting the engine's severity scale
/// one variant at a time.
#[verifier::external_body]
pub(crate) fn diag_model(d: &wdl_ast::Diagnostic) -> (r: Diag)
    ensures
        r@ == diag_spec_of(*d),
{
    let severity = match d.severity() {
        wdl_ast::Severity::Error => Severity::Error,
        wdl_ast::Severity::Warning => Severity::Warning,
        wdl_ast::Severity::Note => Severity::Note,
    };
    Diag { severity, message: d.message().to_string() }
}

} // verus!
