//! What holds of every run, proved over the computation's specification.
use vstd::prelude::*;
use crate::compute::{
    first_option, phase_factors, phase_labels, phase_risk_field, product_in_range, settle,
    single_phase_outcome, two_phase_outcome,
};
use crate::decimal::{decimal_of, digits_value, nat_digits, parsed_i64};
use crate::json::{decodes, Json};
use crate::locate::{factor_value, first_definition, first_snapshot, resolution};
use crate::model::{label_matches, Document, FieldDefinition, FieldSnapshot, OptionDefinition, PatchEntry, Phase, RiskError};
use crate::respond::{run_result, single_phase_of, two_phase_of};

verus! {

/// The option a search settles on carries the wanted label.
pub proof fn lemma_found_option_matches(s: Seq<OptionDefinition>, want: Seq<char>, i: int)
    requires
        0 <= i,
    ensures
        match first_option(s, want, i) {
            Some(j) => i <= j < s.len() && label_matches(s[j].label, want),
            None => forall|k: int| i <= k < s.len() && 0 <= k ==> !label_matches(#[trigger] s[k].label, want),
        },
    decreases s.len() - i,
{
    if 0 <= i < s.len() && !label_matches(s[i].label, want) {
        lemma_found_option_matches(s, want, i + 1);
    }
}

/// The field snapshot a search settles on carries the wanted label.
pub proof fn lemma_found_snapshot_matches(s: Seq<FieldSnapshot>, want: Seq<char>, i: int)
    requires
        0 <= i,
    ensures
        match first_snapshot(s, want, i) {
            Some(j) => i <= j < s.len() && label_matches(s[j].label, want),
            None => forall|k: int| i <= k < s.len() && 0 <= k ==> !label_matches(#[trigger] s[k].label, want),
        },
    decreases s.len() - i,
{
    if 0 <= i < s.len() && !label_matches(s[i].label, want) {
        lemma_found_snapshot_matches(s, want, i + 1);
    }
}

/// When the risk field resolves, its three factors are integers, and one of
/// its legal values is labelled with their product, the one-phase run
/// succeeds with a single entry: the risk field's identifier, bound to the
/// identifier of an option labelled with the product.
pub proof fn lemma_matching_product_is_bound(
    doc: Document,
    field_id: int,
    options: Seq<OptionDefinition>,
    s: int,
    q: int,
    d: int,
    k: int,
)
    requires
        phase_risk_field(doc, Phase::Sole) == Ok::<(int, Seq<OptionDefinition>), RiskError>((field_id, options)),
        phase_factors(doc, Phase::Sole) == Some((s, q, d)),
        i64::MIN <= s * q * d <= i64::MAX,
        0 <= k < options.len(),
        label_matches(options[k].label, decimal_of(s * q * d)),
    ensures
        single_phase_outcome(doc) is Ok,
        single_phase_outcome(doc)->Ok_0.len() == 1,
        single_phase_outcome(doc)->Ok_0[0].field_id == field_id as i64,
        exists|j: int| #![auto]
            0 <= j < options.len() && label_matches(options[j].label, decimal_of(s * q * d))
                && options[j].id == single_phase_outcome(doc)->Ok_0[0].bind_value_id,
{
    lemma_found_option_matches(options, decimal_of(s * q * d), 0);
    let j = first_option(options, decimal_of(s * q * d), 0)->Some_0;
    assert(settle(field_id, options, s * q * d) == Ok::<PatchEntry, RiskError>(
        PatchEntry { field_id: field_id as i64, bind_value_id: options[j].id },
    ));
    assert(single_phase_outcome(doc)->Ok_0[0].bind_value_id == options[j].id);
}

/// In the two-phase run, when both risk fields resolve, all six factors are
/// integers and each product labels a legal value of its phase's risk field,
/// the run succeeds with two entries, before mitigation first, each binding
/// its risk field to an option labelled with its product.
pub proof fn lemma_both_products_bound(
    doc: Document,
    id_b: int,
    opts_b: Seq<OptionDefinition>,
    id_a: int,
    opts_a: Seq<OptionDefinition>,
    pb: int,
    pa: int,
    kb: int,
    ka: int,
)
    requires
        phase_risk_field(doc, Phase::BeforeMitigation) == Ok::<(int, Seq<OptionDefinition>), RiskError>((id_b, opts_b)),
        phase_risk_field(doc, Phase::AfterMitigation) == Ok::<(int, Seq<OptionDefinition>), RiskError>((id_a, opts_a)),
        phase_factors(doc, Phase::BeforeMitigation) is Some,
        phase_factors(doc, Phase::AfterMitigation) is Some,
        product_in_range(
            phase_factors(doc, Phase::BeforeMitigation)->Some_0.0,
            phase_factors(doc, Phase::BeforeMitigation)->Some_0.1,
            phase_factors(doc, Phase::BeforeMitigation)->Some_0.2,
        ) == Some(pb),
        product_in_range(
            phase_factors(doc, Phase::AfterMitigation)->Some_0.0,
            phase_factors(doc, Phase::AfterMitigation)->Some_0.1,
            phase_factors(doc, Phase::AfterMitigation)->Some_0.2,
        ) == Some(pa),
        0 <= kb < opts_b.len(),
        label_matches(opts_b[kb].label, decimal_of(pb)),
        0 <= ka < opts_a.len(),
        label_matches(opts_a[ka].label, decimal_of(pa)),
    ensures
        two_phase_outcome(doc) is Ok,
        two_phase_outcome(doc)->Ok_0.len() == 2,
        two_phase_outcome(doc)->Ok_0[0].field_id == id_b as i64,
        two_phase_outcome(doc)->Ok_0[1].field_id == id_a as i64,
        exists|j: int| #![auto]
            0 <= j < opts_b.len() && label_matches(opts_b[j].label, decimal_of(pb))
                && opts_b[j].id == two_phase_outcome(doc)->Ok_0[0].bind_value_id,
        exists|j: int| #![auto]
            0 <= j < opts_a.len() && label_matches(opts_a[j].label, decimal_of(pa))
                && opts_a[j].id == two_phase_outcome(doc)->Ok_0[1].bind_value_id,
{
    lemma_found_option_matches(opts_b, decimal_of(pb), 0);
    lemma_found_option_matches(opts_a, decimal_of(pa), 0);
    let jb = first_option(opts_b, decimal_of(pb), 0)->Some_0;
    let ja = first_option(opts_a, decimal_of(pa), 0)->Some_0;
    assert(two_phase_outcome(doc)->Ok_0[0].bind_value_id == opts_b[jb].id);
    assert(two_phase_outcome(doc)->Ok_0[1].bind_value_id == opts_a[ja].id);
}

/// A factor that is absent, has no selected option, or is not an integer
/// makes the run fail: no patch is produced, in either variant.
pub proof fn lemma_missing_factor_fails(doc: Document, p: Phase, label: Seq<char>)
    requires
        label == phase_labels(p).0 || label == phase_labels(p).1 || label == phase_labels(p).2,
        factor_value(doc, label) is None,
    ensures
        p == Phase::Sole ==> single_phase_outcome(doc) is Err,
        p != Phase::Sole ==> two_phase_outcome(doc) is Err,
{
    assert(phase_factors(doc, p) is None);
}

/// When no legal value of the risk field is labelled with the product of
/// the factors, the run fails with `NoMatchingValue`.
pub proof fn lemma_unmatched_product_fails(
    doc: Document,
    field_id: int,
    options: Seq<OptionDefinition>,
    s: int,
    q: int,
    d: int,
)
    requires
        phase_risk_field(doc, Phase::Sole) == Ok::<(int, Seq<OptionDefinition>), RiskError>((field_id, options)),
        phase_factors(doc, Phase::Sole) == Some((s, q, d)),
        i64::MIN <= s * q * d <= i64::MAX,
        forall|k: int| 0 <= k < options.len() ==> !label_matches(#[trigger] options[k].label, decimal_of(s * q * d)),
    ensures
        single_phase_outcome(doc) == Err::<Seq<PatchEntry>, RiskError>(RiskError::NoMatchingValue),
{
    lemma_found_option_matches(options, decimal_of(s * q * d), 0);
}

/// The same two-phase computation, if either phase has no option labelled
/// with its product, fails with `NoMatchingValue`.
pub proof fn lemma_unmatched_phase_fails(doc: Document, p: Phase, field_id: int, options: Seq<OptionDefinition>, s: int, q: int, d: int)
    requires
        p != Phase::Sole,
        phase_risk_field(doc, Phase::BeforeMitigation) is Ok,
        phase_risk_field(doc, Phase::AfterMitigation) is Ok,
        phase_factors(doc, Phase::BeforeMitigation) is Some,
        phase_factors(doc, Phase::AfterMitigation) is Some,
        product_in_range(
            phase_factors(doc, Phase::BeforeMitigation)->Some_0.0,
            phase_factors(doc, Phase::BeforeMitigation)->Some_0.1,
            phase_factors(doc, Phase::BeforeMitigation)->Some_0.2,
        ) is Some,
        product_in_range(
            phase_factors(doc, Phase::AfterMitigation)->Some_0.0,
            phase_factors(doc, Phase::AfterMitigation)->Some_0.1,
            phase_factors(doc, Phase::AfterMitigation)->Some_0.2,
        ) is Some,
        phase_risk_field(doc, p) == Ok::<(int, Seq<OptionDefinition>), RiskError>((field_id, options)),
        phase_factors(doc, p) == Some((s, q, d)),
        forall|k: int| 0 <= k < options.len() ==> !label_matches(#[trigger] options[k].label, decimal_of(s * q * d)),
    ensures
        two_phase_outcome(doc) == Err::<Seq<PatchEntry>, RiskError>(RiskError::NoMatchingValue),
{
    lemma_found_option_matches(options, decimal_of(s * q * d), 0);
}

/// Labels match exactly: a text that differs from the wanted label in any
/// character, in case or in length (a trailing space) does not match, and a
/// field so labelled is never the one a factor is read from.
pub proof fn lemma_near_miss_never_matches(fields: Seq<FieldSnapshot>, want: Seq<char>, i: int)
    requires
        0 <= i < fields.len(),
        fields[i].label is Some,
        fields[i].label->Some_0@ != want,
    ensures
        !label_matches(fields[i].label, want),
        first_snapshot(fields, want, 0) != Some(i),
{
    lemma_found_snapshot_matches(fields, want, 0);
}

/// Zero is a factor like any other: the label `0` reads as the integer 0,
/// a zero factor makes the product 0, and 0 is looked up as the label `0`.
pub proof fn lemma_zero_factor(a: int, b: int, c: int)
    requires
        a == 0 || b == 0 || c == 0,
        i64::MIN <= a <= i64::MAX,
        i64::MIN <= b <= i64::MAX,
        i64::MIN <= c <= i64::MAX,
    ensures
        parsed_i64("0"@) == Some(0int),
        product_in_range(a, b, c) == Some(0int),
        decimal_of(0) == "0"@,
{
    reveal_strlit("0");
    assert("0"@.skip(1).len() == 0);
    assert("0"@.drop_last() =~= Seq::<char>::empty());
    assert(digits_value(Seq::<char>::empty()) == 0);
    assert("0"@.last() == '0');
    assert(digits_value("0"@) == 0);
    assert(nat_digits(0) =~= "0"@);
    assert(a * b * c == 0) by (nonlinear_arith)
        requires
            a == 0 || b == 0 || c == 0,
    ;
}

proof fn lemma_snapshots_agree(a: Seq<FieldSnapshot>, b: Seq<FieldSnapshot>, want: Seq<char>, i: int)
    requires
        0 <= i,
        a.len() == b.len(),
        forall|k: int| 0 <= k < a.len() ==> (#[trigger] a[k]).label == b[k].label,
    ensures
        first_snapshot(a, want, i) == first_snapshot(b, want, i),
    decreases a.len() - i,
{
    if i < a.len() {
        lemma_snapshots_agree(a, b, want, i + 1);
    }
}

proof fn lemma_definitions_agree(a: Seq<FieldDefinition>, b: Seq<FieldDefinition>, want: Seq<char>, i: int)
    requires
        0 <= i,
        a.len() == b.len(),
        forall|k: int| 0 <= k < a.len() ==> (#[trigger] a[k]).label == b[k].label,
    ensures
        first_definition(a, want, i) == first_definition(b, want, i),
    decreases a.len() - i,
{
    if i < a.len() {
        lemma_definitions_agree(a, b, want, i + 1);
    }
}

/// The field definition a search settles on carries the wanted label.
pub proof fn lemma_found_definition_matches(s: Seq<FieldDefinition>, want: Seq<char>, i: int)
    requires
        0 <= i,
    ensures
        match first_definition(s, want, i) {
            Some(j) => i <= j < s.len() && label_matches(s[j].label, want),
            None => forall|k: int| i <= k < s.len() && 0 <= k ==> !label_matches(#[trigger] s[k].label, want),
        },
    decreases s.len() - i,
{
    if 0 <= i < s.len() && !label_matches(s[i].label, want) {
        lemma_found_definition_matches(s, want, i + 1);
    }
}

/// Decoding fixes the outcome: any two documents read from the same JSON
/// value give the same result in both variants.
pub proof fn lemma_decoding_fixes_outcome(j: Json, a: Document, b: Document)
    requires
        decodes(j, a),
        decodes(j, b),
    ensures
        single_phase_outcome(a) == single_phase_outcome(b),
        two_phase_outcome(a) == two_phase_outcome(b),
{
    let sa = a.current_values@;
    let sb = b.current_values@;
    let da = a.tracker_fields@;
    let db = b.tracker_fields@;
    assert forall|k: int| 0 <= k < sa.len() implies (#[trigger] sa[k]).label == sb[k].label by {
    }
    assert forall|k: int| 0 <= k < da.len() implies (#[trigger] da[k]).label == db[k].label by {
    }
    assert forall|l: Seq<char>| #[trigger] factor_value(a, l) == factor_value(b, l) by {
        lemma_snapshots_agree(sa, sb, l, 0);
        match first_snapshot(sa, l, 0) {
            Some(i) => {
                lemma_found_snapshot_matches(sa, l, 0);
                if sa[i].values@.len() > 0 {
                    assert(sa[i].values@[0].label == sb[i].values@[0].label);
                }
            },
            None => {},
        }
    }
    assert forall|l: Seq<char>| #[trigger] resolution(a, l) == resolution(b, l) by {
        lemma_definitions_agree(da, db, l, 0);
        match first_definition(da, l, 0) {
            Some(i) => {
                lemma_found_definition_matches(da, l, 0);
                if da[i].values is Some {
                    let va = da[i].values->Some_0@;
                    let vb = db[i].values->Some_0@;
                    assert forall|k: int| 0 <= k < va.len() implies va[k] == vb[k] by {
                    }
                    assert(va =~= vb);
                }
            },
            None => {},
        }
    }
}

/// A run's output depends on its input bytes alone: two runs on identical
/// input either both fail or both succeed with the same patch line, in
/// either variant.
pub proof fn lemma_identical_input_identical_output(
    input: Seq<u8>,
    r1: Result<Seq<char>, RiskError>,
    r2: Result<Seq<char>, RiskError>,
    two_phase: bool,
)
    requires
        two_phase ==> run_result(input, |d: Document| two_phase_of(d), r1),
        two_phase ==> run_result(input, |d: Document| two_phase_of(d), r2),
        !two_phase ==> run_result(input, |d: Document| single_phase_of(d), r1),
        !two_phase ==> run_result(input, |d: Document| single_phase_of(d), r2),
    ensures
        (r1 is Ok) == (r2 is Ok),
        r1 is Ok ==> r1 == r2,
{
}

} // verus!
