//! Finding fields by label: the factor values of the artifact and the legal
//! values of a risk field.
use vstd::prelude::*;
use crate::decimal::{parse_i64, parsed_i64};
use crate::model::{label_is, label_matches, Document, FieldDefinition, FieldSnapshot, OptionDefinition};

verus! {

/// Index of the first snapshot at or after `i` labelled `want`.
pub open spec fn first_snapshot(s: Seq<FieldSnapshot>, want: Seq<char>, i: int) -> Option<int>
    decreases s.len() - i,
{
    if i < 0 || i >= s.len() {
        None
    } else if label_matches(s[i].label, want) {
        Some(i)
    } else {
        first_snapshot(s, want, i + 1)
    }
}

/// Index of the first field definition at or after `i` labelled `want`.
pub open spec fn first_definition(s: Seq<FieldDefinition>, want: Seq<char>, i: int) -> Option<int>
    decreases s.len() - i,
{
    if i < 0 || i >= s.len() {
        None
    } else if label_matches(s[i].label, want) {
        Some(i)
    } else {
        first_definition(s, want, i + 1)
    }
}

/// The integer held by the factor field labelled `label`: the first such
/// field's first selected option, its label read as a 64-bit integer.
pub open spec fn factor_value(doc: Document, label: Seq<char>) -> Option<int> {
    match first_snapshot(doc.current_values@, label, 0) {
        Some(i) => {
            let selected = doc.current_values@[i].values@;
            if selected.len() > 0 {
                match selected[0].label {
                    Some(t) => parsed_i64(t@),
                    None => None,
                }
            } else {
                None
            }
        },
        None => None,
    }
}

/// Why a risk field could not be resolved.
#[derive(Clone, Copy, Debug, PartialEq, Eq, Structural)]
pub enum Unresolved {
    /// No tracker field has the label.
    FieldMissing,
    /// The field has no list of legal values.
    ValuesMissing,
}

/// The identifier a field definition is updated under; an absent one reads
/// as zero.
pub open spec fn field_id_of(d: FieldDefinition) -> int {
    match d.field_id {
        Some(id) => id as int,
        None => 0,
    }
}

/// The identifier and legal values of the first tracker field labelled
/// `label`.
pub open spec fn resolution(doc: Document, label: Seq<char>) -> Result<(int, Seq<OptionDefinition>), Unresolved> {
    match first_definition(doc.tracker_fields@, label, 0) {
        Some(i) => {
            let d = doc.tracker_fields@[i];
            match d.values {
                Some(v) => Ok((field_id_of(d), v@)),
                None => Err(Unresolved::ValuesMissing),
            }
        },
        None => Err(Unresolved::FieldMissing),
    }
}

/// Reads the integer selected in the factor field labelled `field_label`.
pub fn locate_numeric_factor(doc: &Document, field_label: &str) -> (r: Option<i64>)
    ensures
        match r {
            Some(v) => factor_value(*doc, field_label@) == Some(v as int),
            None => factor_value(*doc, field_label@) is None,
        },
{
    let fields = &doc.current_values;
    let mut i: usize = 0;
    while i < fields.len()
        invariant
            i <= fields@.len(),
            fields@ == doc.current_values@,
            first_snapshot(fields@, field_label@, 0) == first_snapshot(fields@, field_label@, i as int),
        decreases fields.len() - i,
    {
        if label_is(&fields[i].label, field_label) {
            let selected = &fields[i].values;
            if selected.len() == 0 {
                return None;
            }
            return match &selected[0].label {
                Some(t) => parse_i64(t.as_str()),
                None => None,
            };
        }
        i = i + 1;
    }
    None
}

/// Finds the tracker field labelled `risk_field_label` and returns its
/// identifier and legal values.
pub fn resolve_risk_field<'a>(doc: &'a Document, risk_field_label: &str) -> (r: Result<(i64, &'a Vec<OptionDefinition>), Unresolved>)
    ensures
        match r {
            Ok((id, values)) => resolution(*doc, risk_field_label@) == Ok::<(int, Seq<OptionDefinition>), Unresolved>((id as int, values@)),
            Err(e) => resolution(*doc, risk_field_label@) == Err::<(int, Seq<OptionDefinition>), Unresolved>(e),
        },
{
    let fields = &doc.tracker_fields;
    let mut i: usize = 0;
    while i < fields.len()
        invariant
            i <= fields@.len(),
            fields@ == doc.tracker_fields@,
            first_definition(fields@, risk_field_label@, 0) == first_definition(fields@, risk_field_label@, i as int),
        decreases fields.len() - i,
    {
        let d = &fields[i];
        if label_is(&d.label, risk_field_label) {
            let id: i64 = match d.field_id {
                Some(id) => id,
                None => 0,
            };
            return match &d.values {
                Some(values) => Ok((id, values)),
                None => Err(Unresolved::ValuesMissing),
            };
        }
        i = i + 1;
    }
    Err(Unresolved::FieldMissing)
}

} // verus!
