//! Whole runs: from a document, or from the input bytes, to the patch line.
use vstd::prelude::*;
use crate::compute::{compute_single_phase, compute_two_phase, single_phase_outcome, two_phase_outcome};
use crate::json::{document_of, json_of, parse_document};
use crate::laws::lemma_decoding_fixes_outcome;
use crate::model::{Document, PatchEntry, RiskError};
use crate::patch::{patch_text, render_patch};

verus! {

/// The patch line for a computation's outcome, or its failure.
pub open spec fn response(o: Result<Seq<PatchEntry>, RiskError>) -> Result<Seq<char>, RiskError> {
    match o {
        Ok(entries) => Ok(patch_text(entries)),
        Err(e) => Err(e),
    }
}

pub open spec fn text_view(r: Result<String, RiskError>) -> Result<Seq<char>, RiskError> {
    match r {
        Ok(t) => Ok(t@),
        Err(e) => Err(e),
    }
}

/// The one-phase patch line for `doc`.
pub fn respond_single_phase(doc: &Document) -> (r: Result<String, RiskError>)
    ensures
        text_view(r) == response(single_phase_outcome(*doc)),
{
    match compute_single_phase(doc) {
        Ok(entries) => Ok(render_patch(&entries)),
        Err(e) => Err(e),
    }
}

/// The two-phase patch line for `doc`.
pub fn respond_two_phase(doc: &Document) -> (r: Result<String, RiskError>)
    ensures
        text_view(r) == response(two_phase_outcome(*doc)),
{
    match compute_two_phase(doc) {
        Ok(entries) => Ok(render_patch(&entries)),
        Err(e) => Err(e),
    }
}

/// What a run on `input` may return, given the computation's outcome on a
/// document: input that is not JSON fails as malformed, and JSON input
/// gives the response for the document read from it.
pub open spec fn run_result(
    input: Seq<u8>,
    outcome: spec_fn(Document) -> Result<Seq<PatchEntry>, RiskError>,
    r: Result<Seq<char>, RiskError>,
) -> bool {
    match json_of(input) {
        None => r is Err && r->Err_0 is Malformed,
        Some(j) => r == response(outcome(document_of(j))),
    }
}

pub open spec fn single_phase_of(doc: Document) -> Result<Seq<PatchEntry>, RiskError> {
    single_phase_outcome(doc)
}

pub open spec fn two_phase_of(doc: Document) -> Result<Seq<PatchEntry>, RiskError> {
    two_phase_outcome(doc)
}

/// Runs the one-phase computation on JSON input: the patch line for the
/// document the input holds, or why there is none.
pub fn run_single_phase(input: &[u8]) -> (r: Result<String, RiskError>)
    ensures
        run_result(input@, |d: Document| single_phase_of(d), text_view(r)),
{
    match parse_document(input) {
        Ok(doc) => {
            proof {
                let j = json_of(input@)->Some_0;
                lemma_decoding_fixes_outcome(j, doc, document_of(j));
            }
            respond_single_phase(&doc)
        },
        Err(e) => Err(e),
    }
}

/// Runs the two-phase computation on JSON input: the patch line for the
/// document the input holds, or why there is none.
pub fn run_two_phase(input: &[u8]) -> (r: Result<String, RiskError>)
    ensures
        run_result(input@, |d: Document| two_phase_of(d), text_view(r)),
{
    match parse_document(input) {
        Ok(doc) => {
            proof {
                let j = json_of(input@)->Some_0;
                lemma_decoding_fixes_outcome(j, doc, document_of(j));
            }
            respond_two_phase(&doc)
        },
        Err(e) => Err(e),
    }
}

} // verus!
