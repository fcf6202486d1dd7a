//! The document facade: parse text, accept or reject on error-severity
//! diagnostics, and summarize an accepted document.

use vstd::prelude::*;
use crate::engine::{
    ParsedTree, RawItem, engine_of, item_model, item_spec_of, parse_source, tree_ast_of,
    tree_items,
};
use crate::model::{AstSpec, DocAst, ItemKind, Severity, TopItem, ValidationFailed, view_items};
use crate::report::{
    collect_error_messages, error_messages, join_lines, join_with_newlines, lemma_map_push,
    model_diags,
};
use crate::summary::{describe_spec, find_first_name};

verus! {

/// An opaque handle to a successfully parsed document.  It exists only when
/// the parse produced no error-severity diagnostic, and it is read-only.
#[derive(Debug)]
pub struct WdlDocument {
    ast: DocAst,
}

impl View for WdlDocument {
    type V = AstSpec;

    closed spec fn view(&self) -> AstSpec {
        self.ast@
    }
}

/// The outcome of a parse: an accepted document of the given shape, or a
/// rejection carrying the aggregated error message.
pub ghost enum Outcome {
    Accepted { ast: AstSpec },
    Rejected { message: Seq<char> },
}

/// The one outcome the contract of `parse_document` allows for a given
/// source text: accepted exactly when the engine reports no error-severity
/// diagnostic, rejected with the newline-joined error messages otherwise.
pub open spec fn parse_outcome(s: Seq<char>) -> Outcome {
    let parsed = engine_of(s);
    let errors = error_messages(parsed.diags);
    if errors.len() == 0 {
        Outcome::Accepted { ast: parsed.ast }
    } else {
        Outcome::Rejected { message: join_lines(errors) }
    }
}

/// The outcome a concrete parse result denotes.
pub open spec fn result_outcome(r: Result<WdlDocument, ValidationFailed>) -> Outcome {
    match r {
        Ok(doc) => Outcome::Accepted { ast: doc@ },
        Err(e) => Outcome::Rejected { message: e.message@ },
    }
}

/// Convert the engine's raw items into the crate's model, in order.
fn model_items(raw: &Vec<RawItem>) -> (r: Vec<TopItem>)
    ensures
        view_items(r@) == raw@.map_values(|i: RawItem| item_spec_of(i)),
{
    let mut out: Vec<TopItem> = Vec::new();
    let mut idx: usize = 0;
    while idx < raw.len()
        invariant
            idx <= raw.len(),
            view_items(out@) == raw@.take(idx as int).map_values(|i: RawItem| item_spec_of(i)),
        decreases raw.len() - idx,
    {
        let item = item_model(&raw[idx]);
        let ghost prev = out@;
        out.push(item);
        proof {
            lemma_map_push(prev, |t: TopItem| t@, out@.last());
            lemma_map_push(
                raw@.take(idx as int),
                |i: RawItem| item_spec_of(i),
                raw@[idx as int],
            );
            assert(raw@.take(idx + 1) =~= raw@.take(idx as int).push(raw@[idx as int]));
        }
        idx += 1;
    }
    proof {
        assert(raw@.take(raw@.len() as int) =~= raw@);
    }
    out
}

/// Rebuild the shape of an accepted tree in the crate's model.
fn build_ast(tree: &ParsedTree) -> (r: DocAst)
    ensures
        r@ == tree_ast_of(*tree),
{
    match tree_items(tree) {
        Some(raw) => DocAst::V1(model_items(&raw)),
        None => DocAst::Unsupported,
    }
}

/// Parse a source text.  Accept with a handle when the engine reports no
/// error-severity diagnostic; reject with the error-severity messages,
/// newline-joined in emission order, otherwise.  Warnings and notes are
/// dropped either way.
pub fn parse_document(source: &str) -> (r: Result<WdlDocument, ValidationFailed>)
    ensures
        result_outcome(r) == parse_outcome(source@),
        (r is Ok) <==> error_messages(engine_of(source@).diags).len() == 0,
{
    let (tree, raw_diags) = parse_source(source);
    let diags = model_diags(&raw_diags);
    let messages = collect_error_messages(&diags);
    if messages.len() > 0 {
        let message = join_with_newlines(&messages);
        Err(ValidationFailed { message })
    } else {
        let ast = build_ast(&tree);
        Ok(WdlDocument { ast })
    }
}

impl WdlDocument {
    /// Summarize the document: the unsupported marker for an unsupported
    /// version; otherwise the first workflow name, else the first task name,
    /// else the nameless marker.
    pub fn describe(&self) -> (r: String)
        ensures
            r@ == describe_spec(self@),
    {
        match &self.ast {
            DocAst::Unsupported => String::from_str("<WdlDocument unsupported version>"),
            DocAst::V1(items) => match find_first_name(items, ItemKind::Workflow) {
                Some(name) => {
                    let mut out = String::from_str("<WdlDocument workflow=");
                    out.append(name.as_str());
                    out.append(">");
                    out
                },
                None => match find_first_name(items, ItemKind::Task) {
                    Some(name) => {
                        let mut out = String::from_str("<WdlDocument task=");
                        out.append(name.as_str());
                        out.append(">");
                        out
                    },
                    None => String::from_str("<WdlDocument parsed successfully>"),
                },
            },
        }
    }
}

/// Parsing is deterministic: any two results that `parse_document`'s
/// contract allows for the same source text denote the same outcome — the
/// same accept/reject decision, the same document shape, and, on rejection,
/// the same message.
pub proof fn lemma_parse_deterministic(
    s: Seq<char>,
    r1: Result<WdlDocument, ValidationFailed>,
    r2: Result<WdlDocument, ValidationFailed>,
)
    requires
        result_outcome(r1) == parse_outcome(s),
        result_outcome(r2) == parse_outcome(s),
    ensures
        result_outcome(r1) == result_outcome(r2),
        (r1 is Ok) <==> (r2 is Ok),
{
}

/// A source text is accepted exactly when the engine reports no
/// error-severity diagnostic for it.
pub proof fn lemma_accept_iff_no_errors(s: Seq<char>)
    ensures
        (parse_outcome(s) is Accepted) <==> (forall|i: int|
            0 <= i < engine_of(s).diags.len() ==> #[trigger] engine_of(s).diags[i].severity
                != Severity::Error),
{
    crate::report::lemma_no_error_messages(engine_of(s).diags);
}

/// On rejection, the message is the newline-join of exactly the
/// error-severity messages, in emission order.
pub proof fn lemma_rejection_message(s: Seq<char>)
    ensures
        error_messages(engine_of(s).diags).len() > 0 ==> parse_outcome(s) == (Outcome::Rejected {
            message: join_lines(error_messages(engine_of(s).diags)),
        }),
{
}

} // verus!
