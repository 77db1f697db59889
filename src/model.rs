//! The artifact document as the computation reads it, and the patch it
//! produces.
use vstd::prelude::*;

verus! {

/// The option selected in a field of the artifact. `label` is `None` when
/// the document gives no text label.
#[derive(Debug)]
pub struct OptionRef {
    pub label: Option<String>,
}

/// One field of the artifact as submitted: its label and selected options.
#[derive(Debug)]
pub struct FieldSnapshot {
    pub label: Option<String>,
    pub values: Vec<OptionRef>,
}

/// One legal value of an enumerated tracker field. `id` is the identifier's
/// JSON text, carried verbatim into the patch; `None` when it is absent,
/// which the patch writes as `null`.
#[derive(Debug)]
pub struct OptionDefinition {
    pub id: Option<String>,
    pub label: Option<String>,
}

/// One field of the tracker's schema. `values` is `None` when the field has
/// no list of legal values.
#[derive(Debug)]
pub struct FieldDefinition {
    pub label: Option<String>,
    pub field_id: Option<i64>,
    pub values: Option<Vec<OptionDefinition>>,
}

/// The input: the artifact's current field values and the tracker's fields.
#[derive(Debug)]
pub struct Document {
    pub current_values: Vec<FieldSnapshot>,
    pub tracker_fields: Vec<FieldDefinition>,
}

/// One update of the patch: bind the field `field_id` to the option whose
/// identifier has the JSON text `bind_value_id` (`null` when `None`).
#[derive(Debug)]
pub struct PatchEntry {
    pub field_id: i64,
    pub bind_value_id: Option<String>,
}

/// Which risk computation a risk-field failure belongs to.
#[derive(Clone, Copy, Debug, PartialEq, Eq, Structural)]
pub enum Phase {
    /// The single computation of the one-phase variant.
    Sole,
    BeforeMitigation,
    AfterMitigation,
}

/// Why no patch was produced.
#[derive(Debug)]
pub enum RiskError {
    /// The input is not JSON; holds the parser's diagnostic.
    Malformed(String),
    /// The tracker has no field with the risk label of this phase.
    RiskFieldMissing(Phase),
    /// The risk field of this phase has no list of legal values.
    RiskValuesMissing(Phase),
    /// A severity, probability or detectability value is absent or not an
    /// integer.
    FactorMissing,
    /// The product of the factors does not fit in 64 bits.
    ProductOutOfRange,
    /// No legal value of a risk field is labelled with the product.
    NoMatchingValue,
}

/// True when `l` is a text label equal to `want`, character for character.
pub open spec fn label_matches(l: Option<String>, want: Seq<char>) -> bool {
    match l {
        Some(s) => s@ == want,
        None => false,
    }
}

/// Tests whether `l` is a text label equal to `want`.
pub fn label_is(l: &Option<String>, want: &str) -> (r: bool)
    ensures
        r == label_matches(*l, want@),
{
    match l {
        Some(s) => {
            let w = String::from_str(want);
            *s == w
        },
        None => false,
    }
}

} // verus!
