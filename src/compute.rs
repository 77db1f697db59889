//! The risk computation: three factors multiplied, the product matched by
//! label against the risk field's legal values, one patch entry per phase.
use vstd::prelude::*;
use crate::decimal::{decimal_of, decimal_text};
use crate::locate::{factor_value, locate_numeric_factor, resolution, resolve_risk_field, Unresolved};
use crate::model::{label_matches, Document, OptionDefinition, PatchEntry, Phase, RiskError};

verus! {

/// Labels of the severity, probability, detectability and risk fields of a
/// phase.
pub open spec fn phase_labels(p: Phase) -> (Seq<char>, Seq<char>, Seq<char>, Seq<char>) {
    match p {
        Phase::Sole => ("Severity"@, "Probability"@, "Detectability"@, "Risk"@),
        Phase::BeforeMitigation => (
            "Severity before mitigation"@,
            "Probability before mitigation"@,
            "Detectability before mitigation"@,
            "Risk level before mitigation"@,
        ),
        Phase::AfterMitigation => (
            "Severity after mitigation"@,
            "Probability after mitigation"@,
            "Detectability after mitigation"@,
            "Risk level after mitigation"@,
        ),
    }
}

/// The field labels of a phase, in the order severity, probability,
/// detectability, risk.
pub fn labels_of(p: Phase) -> (r: (&'static str, &'static str, &'static str, &'static str))
    ensures
        (r.0@, r.1@, r.2@, r.3@) == phase_labels(p),
{
    match p {
        Phase::Sole => ("Severity", "Probability", "Detectability", "Risk"),
        Phase::BeforeMitigation => (
            "Severity before mitigation",
            "Probability before mitigation",
            "Detectability before mitigation",
            "Risk level before mitigation",
        ),
        Phase::AfterMitigation => (
            "Severity after mitigation",
            "Probability after mitigation",
            "Detectability after mitigation",
            "Risk level after mitigation",
        ),
    }
}

/// The risk field of a phase: its identifier and legal values.
pub open spec fn phase_risk_field(doc: Document, p: Phase) -> Result<(int, Seq<OptionDefinition>), RiskError> {
    match resolution(doc, phase_labels(p).3) {
        Ok(found) => Ok(found),
        Err(Unresolved::FieldMissing) => Err(RiskError::RiskFieldMissing(p)),
        Err(Unresolved::ValuesMissing) => Err(RiskError::RiskValuesMissing(p)),
    }
}

/// The three factor values of a phase, when all of them are present.
pub open spec fn phase_factors(doc: Document, p: Phase) -> Option<(int, int, int)> {
    let labels = phase_labels(p);
    match (factor_value(doc, labels.0), factor_value(doc, labels.1), factor_value(doc, labels.2)) {
        (Some(s), Some(q), Some(d)) => Some((s, q, d)),
        _ => None,
    }
}

/// The product `a * b * c` when it fits in 64 bits.
pub open spec fn product_in_range(a: int, b: int, c: int) -> Option<int> {
    if i64::MIN <= a * b * c && a * b * c <= i64::MAX {
        Some(a * b * c)
    } else {
        None
    }
}

/// Index of the first option at or after `i` labelled `want`.
pub open spec fn first_option(s: Seq<OptionDefinition>, want: Seq<char>, i: int) -> Option<int>
    decreases s.len() - i,
{
    if i < 0 || i >= s.len() {
        None
    } else if label_matches(s[i].label, want) {
        Some(i)
    } else {
        first_option(s, want, i + 1)
    }
}

/// The patch entry binding field `field_id` to the first option labelled
/// with the decimal text of `product`.
pub open spec fn settle(field_id: int, options: Seq<OptionDefinition>, product: int) -> Result<PatchEntry, RiskError> {
    match first_option(options, decimal_of(product), 0) {
        Some(k) => Ok(PatchEntry { field_id: field_id as i64, bind_value_id: options[k].id }),
        None => Err(RiskError::NoMatchingValue),
    }
}

/// What the one-phase computation yields for `doc`.
pub open spec fn single_phase_outcome(doc: Document) -> Result<Seq<PatchEntry>, RiskError> {
    match phase_risk_field(doc, Phase::Sole) {
        Err(e) => Err(e),
        Ok((id, options)) => match phase_factors(doc, Phase::Sole) {
            None => Err(RiskError::FactorMissing),
            Some((s, q, d)) => match product_in_range(s, q, d) {
                None => Err(RiskError::ProductOutOfRange),
                Some(prod) => match settle(id, options, prod) {
                    Ok(entry) => Ok(seq![entry]),
                    Err(e) => Err(e),
                },
            },
        },
    }
}

/// What the two-phase computation yields for `doc`: both risk fields are
/// resolved first, then all six factors are read, then both products are
/// matched; the entries come before mitigation first.
pub open spec fn two_phase_outcome(doc: Document) -> Result<Seq<PatchEntry>, RiskError> {
    match (phase_risk_field(doc, Phase::BeforeMitigation), phase_risk_field(doc, Phase::AfterMitigation)) {
        (Err(e), _) => Err(e),
        (Ok(_), Err(e)) => Err(e),
        (Ok((id_b, opts_b)), Ok((id_a, opts_a))) => match (
            phase_factors(doc, Phase::BeforeMitigation),
            phase_factors(doc, Phase::AfterMitigation),
        ) {
            (Some((sb, qb, db)), Some((sa, qa, da))) => match (product_in_range(sb, qb, db), product_in_range(sa, qa, da)) {
                (Some(pb), Some(pa)) => match (settle(id_b, opts_b, pb), settle(id_a, opts_a, pa)) {
                    (Ok(eb), Ok(ea)) => Ok(seq![eb, ea]),
                    _ => Err(RiskError::NoMatchingValue),
                },
                _ => Err(RiskError::ProductOutOfRange),
            },
            _ => Err(RiskError::FactorMissing),
        },
    }
}

/// A computation's result with the entries seen as a sequence.
pub open spec fn patch_view(r: Result<Vec<PatchEntry>, RiskError>) -> Result<Seq<PatchEntry>, RiskError> {
    match r {
        Ok(v) => Ok(v@),
        Err(e) => Err(e),
    }
}

proof fn lemma_zero_product(a: int, b: int, c: int)
    requires
        a == 0 || b == 0 || c == 0,
    ensures
        a * b * c == 0,
{
    assert(a * b * c == 0) by (nonlinear_arith)
        requires
            a == 0 || b == 0 || c == 0,
    ;
}

proof fn lemma_bounded_product(x: int, y: int, bx: int, by: int)
    requires
        -bx <= x <= bx,
        -by <= y <= by,
    ensures
        -(bx * by) <= x * y <= bx * by,
{
    assert(-(bx * by) <= x * y <= bx * by) by (nonlinear_arith)
        requires
            -bx <= x <= bx,
            -by <= y <= by,
    ;
}

proof fn lemma_growing_product(x: int, c: int, bound: int)
    requires
        x > bound || x < -bound,
        bound >= 0,
        c != 0,
    ensures
        x * c > bound || x * c < -bound,
{
    assert(x * c > bound || x * c < -bound) by (nonlinear_arith)
        requires
            x > bound || x < -bound,
            bound >= 0,
            c != 0,
    ;
}

/// Multiplies three factors, or `None` when the product does not fit in 64
/// bits.
pub fn factor_product(a: i64, b: i64, c: i64) -> (r: Option<i64>)
    ensures
        match r {
            Some(v) => product_in_range(a as int, b as int, c as int) == Some(v as int),
            None => product_in_range(a as int, b as int, c as int) is None,
        },
{
    if a == 0 || b == 0 || c == 0 {
        proof {
            lemma_zero_product(a as int, b as int, c as int);
        }
        return Some(0);
    }
    proof {
        lemma_bounded_product(a as int, b as int, 0x8000_0000_0000_0000, 0x8000_0000_0000_0000);
    }
    let ab: i128 = a as i128 * b as i128;
    if ab > 0x8000_0000_0000_0000 || ab < -0x8000_0000_0000_0000 {
        proof {
            lemma_growing_product(ab as int, c as int, 0x8000_0000_0000_0000);
        }
        return None;
    }
    proof {
        lemma_bounded_product(ab as int, c as int, 0x8000_0000_0000_0000, 0x8000_0000_0000_0000);
    }
    let abc: i128 = ab * c as i128;
    if abc < i64::MIN as i128 || abc > i64::MAX as i128 {
        None
    } else {
        Some(abc as i64)
    }
}

/// Index of the first option labelled with the decimal text of `product`.
pub fn find_matching_option(options: &Vec<OptionDefinition>, product: i64) -> (r: Option<usize>)
    ensures
        match r {
            Some(k) => k < options@.len() && first_option(options@, decimal_of(product as int), 0) == Some(k as int),
            None => first_option(options@, decimal_of(product as int), 0) is None,
        },
{
    let want = decimal_text(product);
    let mut i: usize = 0;
    while i < options.len()
        invariant
            i <= options@.len(),
            want@ == decimal_of(product as int),
            first_option(options@, want@, 0) == first_option(options@, want@, i as int),
        decreases options.len() - i,
    {
        if label_is_text(&options[i].label, &want) {
            return Some(i);
        }
        i = i + 1;
    }
    None
}

fn label_is_text(l: &Option<String>, want: &String) -> (r: bool)
    ensures
        r == label_matches(*l, want@),
{
    match l {
        Some(s) => *s == *want,
        None => false,
    }
}

/// Binds the risk field `field_id` to the option labelled with `product`.
pub fn settle_phase(field_id: i64, options: &Vec<OptionDefinition>, product: i64) -> (r: Result<PatchEntry, RiskError>)
    ensures
        r == settle(field_id as int, options@, product as int),
{
    match find_matching_option(options, product) {
        Some(k) => Ok(PatchEntry { field_id, bind_value_id: options[k].id.clone() }),
        None => Err(RiskError::NoMatchingValue),
    }
}

/// Finds the risk field of a phase.
pub fn resolve_phase<'a>(doc: &'a Document, p: Phase) -> (r: Result<(i64, &'a Vec<OptionDefinition>), RiskError>)
    ensures
        match r {
            Ok((id, values)) => phase_risk_field(*doc, p) == Ok::<(int, Seq<OptionDefinition>), RiskError>((id as int, values@)),
            Err(e) => phase_risk_field(*doc, p) == Err::<(int, Seq<OptionDefinition>), RiskError>(e),
        },
{
    let labels = labels_of(p);
    match resolve_risk_field(doc, labels.3) {
        Ok(found) => Ok(found),
        Err(Unresolved::FieldMissing) => Err(RiskError::RiskFieldMissing(p)),
        Err(Unresolved::ValuesMissing) => Err(RiskError::RiskValuesMissing(p)),
    }
}

/// Reads the severity, probability and detectability of a phase.
pub fn read_factors(doc: &Document, p: Phase) -> (r: Option<(i64, i64, i64)>)
    ensures
        match r {
            Some((s, q, d)) => phase_factors(*doc, p) == Some((s as int, q as int, d as int)),
            None => phase_factors(*doc, p) is None,
        },
{
    let labels = labels_of(p);
    let s = locate_numeric_factor(doc, labels.0);
    let q = locate_numeric_factor(doc, labels.1);
    let d = locate_numeric_factor(doc, labels.2);
    match (s, q, d) {
        (Some(s), Some(q), Some(d)) => Some((s, q, d)),
        _ => None,
    }
}

/// The one-phase computation: sets "Risk" from "Severity", "Probability"
/// and "Detectability".
pub fn compute_single_phase(doc: &Document) -> (r: Result<Vec<PatchEntry>, RiskError>)
    ensures
        patch_view(r) == single_phase_outcome(*doc),
{
    let (id, options) = match resolve_phase(doc, Phase::Sole) {
        Ok(found) => found,
        Err(e) => return Err(e),
    };
    let (s, q, d) = match read_factors(doc, Phase::Sole) {
        Some(f) => f,
        None => return Err(RiskError::FactorMissing),
    };
    let prod = match factor_product(s, q, d) {
        Some(v) => v,
        None => return Err(RiskError::ProductOutOfRange),
    };
    match settle_phase(id, options, prod) {
        Ok(entry) => {
            let entries = vec![entry];
            assert(entries@ =~= seq![entry]);
            Ok(entries)
        },
        Err(e) => Err(e),
    }
}

/// The two-phase computation: sets the risk level before and after
/// mitigation, each from its own three factors, or neither.
pub fn compute_two_phase(doc: &Document) -> (r: Result<Vec<PatchEntry>, RiskError>)
    ensures
        patch_view(r) == two_phase_outcome(*doc),
{
    let (id_b, opts_b) = match resolve_phase(doc, Phase::BeforeMitigation) {
        Ok(found) => found,
        Err(e) => return Err(e),
    };
    let (id_a, opts_a) = match resolve_phase(doc, Phase::AfterMitigation) {
        Ok(found) => found,
        Err(e) => return Err(e),
    };
    let before = read_factors(doc, Phase::BeforeMitigation);
    let after = read_factors(doc, Phase::AfterMitigation);
    let ((sb, qb, db), (sa, qa, da)) = match (before, after) {
        (Some(fb), Some(fa)) => (fb, fa),
        _ => return Err(RiskError::FactorMissing),
    };
    let pb = factor_product(sb, qb, db);
    let pa = factor_product(sa, qa, da);
    let (pb, pa) = match (pb, pa) {
        (Some(pb), Some(pa)) => (pb, pa),
        _ => return Err(RiskError::ProductOutOfRange),
    };
    let eb = settle_phase(id_b, opts_b, pb);
    let ea = settle_phase(id_a, opts_a, pa);
    match (eb, ea) {
        (Ok(eb), Ok(ea)) => {
            let entries = vec![eb, ea];
            assert(entries@ =~= seq![eb, ea]);
            Ok(entries)
        },
        _ => Err(RiskError::NoMatchingValue),
    }
}

} // verus!
