//! Filtering diagnostics by severity and aggregating error messages.

use vstd::prelude::*;
use crate::engine::{diag_model, diag_spec_of};
use crate::model::{Diag, DiagSpec, Severity};

verus! {

/// The messages of exactly the error-severity diagnostics, in emission order.
pub open spec fn error_messages(diags: Seq<DiagSpec>) -> Seq<Seq<char>>
    decreases diags.len(),
{
    if diags.len() == 0 {
        Seq::empty()
    } else if diags.last().severity == Severity::Error {
        error_messages(diags.drop_last()).push(diags.last().message)
    } else {
        error_messages(diags.drop_last())
    }
}

/// The given messages joined with a newline between consecutive ones.
pub open spec fn join_lines(msgs: Seq<Seq<char>>) -> Seq<char>
    decreases msgs.len(),
{
    if msgs.len() == 0 {
        Seq::empty()
    } else if msgs.len() == 1 {
        msgs[0]
    } else {
        join_lines(msgs.drop_last()) + seq!['\n'] + msgs.last()
    }
}

/// There are no error messages exactly when no diagnostic has error severity.
pub proof fn lemma_no_error_messages(diags: Seq<DiagSpec>)
    ensures
        error_messages(diags).len() == 0 <==> (forall|i: int|
            0 <= i < diags.len() ==> #[trigger] diags[i].severity != Severity::Error),
    decreases diags.len(),
{
    if diags.len() > 0 {
        lemma_no_error_messages(diags.drop_last());
        assert(forall|i: int| 0 <= i < diags.len() - 1 ==> diags.drop_last()[i] == diags[i]);
        assert(diags[diags.len() - 1] == diags.last());
    }
}

/// The images of a sequence of diagnostics.
pub open spec fn view_diags(diags: Seq<Diag>) -> Seq<DiagSpec> {
    diags.map_values(|d: Diag| d@)
}

/// Mapping a function over a sequence commutes with appending one element.
pub proof fn lemma_map_push<A, B>(s: Seq<A>, f: spec_fn(A) -> B, x: A)
    ensures
        s.push(x).map_values(f) =~= s.map_values(f).push(f(x)),
{
}

/// Convert the engine's raw diagnostics into the crate's model, in order.
pub fn model_diags(raw: &Vec<wdl_ast::Diagnostic>) -> (r: Vec<Diag>)
    ensures
        view_diags(r@) == raw@.map_values(|d: wdl_ast::Diagnostic| diag_spec_of(d)),
{
    let mut out: Vec<Diag> = Vec::new();
    let mut idx: usize = 0;
    while idx < raw.len()
        invariant
            idx <= raw.len(),
            view_diags(out@) == raw@.take(idx as int).map_values(
                |d: wdl_ast::Diagnostic| diag_spec_of(d),
            ),
        decreases raw.len() - idx,
    {
        let d = diag_model(&raw[idx]);
        let ghost prev = out@;
        out.push(d);
        proof {
            lemma_map_push(prev, |d: Diag| d@, d);
            lemma_map_push(
                raw@.take(idx as int),
                |d: wdl_ast::Diagnostic| diag_spec_of(d),
                raw@[idx as int],
            );
            assert(raw@.take(idx + 1) =~= raw@.take(idx as int).push(raw@[idx as int]));
        }
        idx += 1;
    }
    proof {
        assert(raw@.take(raw@.len() as int) =~= raw@);
    }
    out
}

/// Collect the messages of the error-severity diagnostics, in order.
pub fn collect_error_messages(diags: &Vec<Diag>) -> (r: Vec<String>)
    ensures
        r@.map_values(|m: String| m@) == error_messages(view_diags(diags@)),
{
    let mut out: Vec<String> = Vec::new();
    let mut idx: usize = 0;
    while idx < diags.len()
        invariant
            idx <= diags.len(),
            out@.map_values(|m: String| m@) == error_messages(view_diags(diags@.take(idx as int))),
        decreases diags.len() - idx,
    {
        proof {
            lemma_map_push(diags@.take(idx as int), |d: Diag| d@, diags@[idx as int]);
            assert(diags@.take(idx + 1) =~= diags@.take(idx as int).push(diags@[idx as int]));
            assert(view_diags(diags@.take(idx + 1)).drop_last() =~= view_diags(
                diags@.take(idx as int),
            ));
        }
        if diags[idx].severity == Severity::Error {
            let ghost prev = out@;
            let message = diags[idx].message.clone();
            out.push(message);
            proof {
                lemma_map_push(prev, |m: String| m@, out@.last());
            }
        }
        idx += 1;
    }
    proof {
        assert(diags@.take(diags@.len() as int) =~= diags@);
    }
    out
}

/// Join the messages with a newline between consecutive ones.
pub fn join_with_newlines(msgs: &Vec<String>) -> (r: String)
    ensures
        r@ == join_lines(msgs@.map_values(|m: String| m@)),
{
    let mut out = String::new();
    let mut idx: usize = 0;
    while idx < msgs.len()
        invariant
            idx <= msgs.len(),
            out@ == join_lines(msgs@.take(idx as int).map_values(|m: String| m@)),
        decreases msgs.len() - idx,
    {
        if idx > 0 {
            out.append("\n");
            proof {
                reveal_strlit("\n");
                assert("\n"@ =~= seq!['\n']);
            }
        }
        out.append(msgs[idx].as_str());
        proof {
            assert(msgs@.take(idx + 1).map_values(|m: String| m@).drop_last() =~= msgs@.take(
                idx as int,
            ).map_values(|m: String| m@));
            assert(msgs@.take(idx + 1).map_values(|m: String| m@).last() == msgs@[idx as int]@);
        }
        idx += 1;
    }
    proof {
        assert(msgs@.take(msgs@.len() as int) =~= msgs@);
    }
    out
}

} // verus!
