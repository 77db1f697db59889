//! The patch as one line of JSON, and the diagnostics of failed runs.
use vstd::prelude::*;
use crate::decimal::{decimal_of, decimal_text};
use crate::model::{PatchEntry, Phase, RiskError};

verus! {

/// `{"field_id":<id>,"bind_value_ids":[<value id>]}`
pub open spec fn entry_text(e: PatchEntry) -> Seq<char> {
    "{\"field_id\":"@ + decimal_of(e.field_id as int) + ",\"bind_value_ids\":["@ + id_text(e.bind_value_id) + "]}"@
}

/// The JSON text of an option identifier.
pub open spec fn id_text(id: Option<String>) -> Seq<char> {
    match id {
        Some(t) => t@,
        None => "null"@,
    }
}

/// The entries' texts, separated by commas.
pub open spec fn entries_text(s: Seq<PatchEntry>) -> Seq<char>
    decreases s.len(),
{
    if s.len() == 0 {
        Seq::empty()
    } else if s.len() == 1 {
        entry_text(s[0])
    } else {
        entries_text(s.drop_last()) + ","@ + entry_text(s.last())
    }
}

/// `{"values":[<entries>]}`
pub open spec fn patch_text(s: Seq<PatchEntry>) -> Seq<char> {
    "{\"values\":["@ + entries_text(s) + "]}"@
}

/// Writes one patch entry as JSON.
pub fn render_entry(e: &PatchEntry) -> (r: String)
    ensures
        r@ == entry_text(*e),
{
    let mut text = String::from_str("{\"field_id\":");
    let id = decimal_text(e.field_id);
    text.append(id.as_str());
    text.append(",\"bind_value_ids\":[");
    match &e.bind_value_id {
        Some(t) => text.append(t.as_str()),
        None => text.append("null"),
    }
    text.append("]}");
    text
}

/// Writes the patch as one compact line of JSON, entries in order.
pub fn render_patch(entries: &Vec<PatchEntry>) -> (r: String)
    ensures
        r@ == patch_text(entries@),
{
    let mut body = String::new();
    let mut i: usize = 0;
    while i < entries.len()
        invariant
            i <= entries@.len(),
            body@ == entries_text(entries@.take(i as int)),
        decreases entries.len() - i,
    {
        let ghost prefix = entries@.take(i + 1);
        assert(prefix.drop_last() =~= entries@.take(i as int));
        if i > 0 {
            body.append(",");
        }
        let piece = render_entry(&entries[i]);
        body.append(piece.as_str());
        i = i + 1;
    }
    assert(entries@.take(entries@.len() as int) =~= entries@);
    let mut text = String::from_str("{\"values\":[");
    text.append(body.as_str());
    text.append("]}");
    text
}

/// The diagnostic reported for a failed run.
pub open spec fn error_message(e: RiskError) -> Seq<char> {
    match e {
        RiskError::Malformed(detail) => "ser: "@ + detail@,
        RiskError::RiskFieldMissing(Phase::AfterMitigation) => "Cannot find field_risk_after"@,
        RiskError::RiskFieldMissing(_) => "Cannot find field_risk"@,
        RiskError::RiskValuesMissing(Phase::AfterMitigation) => "Cannot find Risk values after mitigation"@,
        RiskError::RiskValuesMissing(_) => "Cannot find Risk values"@,
        RiskError::FactorMissing => "Cannot find Severity or Probability field"@,
        RiskError::ProductOutOfRange => "Risk product out of range"@,
        RiskError::NoMatchingValue => "Cannot find matching Risk value"@,
    }
}

impl RiskError {
    /// The one-line diagnostic of this failure.
    pub fn message(&self) -> (r: String)
        ensures
            r@ == error_message(*self),
    {
        match self {
            RiskError::Malformed(detail) => String::from_str("ser: ").concat(detail.as_str()),
            RiskError::RiskFieldMissing(Phase::AfterMitigation) => String::from_str("Cannot find field_risk_after"),
            RiskError::RiskFieldMissing(_) => String::from_str("Cannot find field_risk"),
            RiskError::RiskValuesMissing(Phase::AfterMitigation) => String::from_str("Cannot find Risk values after mitigation"),
            RiskError::RiskValuesMissing(_) => String::from_str("Cannot find Risk values"),
            RiskError::FactorMissing => String::from_str("Cannot find Severity or Probability field"),
            RiskError::ProductOutOfRange => String::from_str("Risk product out of range"),
            RiskError::NoMatchingValue => String::from_str("Cannot find matching Risk value"),
        }
    }
}

} // verus!
