use compute_risk::compute::{compute_single_phase, compute_two_phase, factor_product};
use compute_risk::decimal::{decimal_text, parse_i64};
use compute_risk::json::parse_document;
use compute_risk::locate::{locate_numeric_factor, resolve_risk_field, Unresolved};
use compute_risk::model::{
    Document, FieldDefinition, FieldSnapshot, OptionDefinition, OptionRef, Phase, RiskError,
};
use compute_risk::patch::render_patch;
use compute_risk::respond::{respond_single_phase, run_single_phase, run_two_phase};

fn snapshot(label: &str, value: &str) -> String {
    format!("{{\"label\":\"{}\",\"values\":[{{\"label\":\"{}\"}}]}}", label, value)
}

fn risk_field(label: &str, field_id: i64, options: &[(i64, &str)]) -> String {
    let opts: Vec<String> = options
        .iter()
        .map(|(id, l)| format!("{{\"id\":{},\"label\":\"{}\"}}", id, l))
        .collect();
    format!(
        "{{\"label\":\"{}\",\"field_id\":{},\"values\":[{}]}}",
        label,
        field_id,
        opts.join(",")
    )
}

fn document(snapshots: &[String], fields: &[String]) -> Vec<u8> {
    format!(
        "{{\"current\":{{\"values\":[{}]}},\"tracker\":{{\"fields\":[{}]}}}}",
        snapshots.join(","),
        fields.join(",")
    )
    .into_bytes()
}

fn single(sev: &str, prob: &str, det: &str, options: &[(i64, &str)]) -> Vec<u8> {
    document(
        &[
            snapshot("Severity", sev),
            snapshot("Probability", prob),
            snapshot("Detectability", det),
        ],
        &[risk_field("Risk", 501, options)],
    )
}

fn two_phase(before: [&str; 3], after: [&str; 3]) -> Vec<u8> {
    document(
        &[
            snapshot("Severity before mitigation", before[0]),
            snapshot("Probability before mitigation", before[1]),
            snapshot("Detectability before mitigation", before[2]),
            snapshot("Severity after mitigation", after[0]),
            snapshot("Probability after mitigation", after[1]),
            snapshot("Detectability after mitigation", after[2]),
        ],
        &[
            risk_field("Risk level before mitigation", 600, &[(9, "30"), (10, "60")]),
            risk_field("Risk level after mitigation", 601, &[(3, "5"), (4, "6")]),
        ],
    )
}

#[test]
fn single_phase_scenario() {
    let input = single("3", "2", "4", &[(76, "12"), (77, "24"), (78, "48")]);
    assert_eq!(
        run_single_phase(&input).unwrap(),
        "{\"values\":[{\"field_id\":501,\"bind_value_ids\":[77]}]}"
    );
}

#[test]
fn two_phase_scenario_keeps_before_then_after() {
    let input = two_phase(["5", "4", "3"], ["5", "1", "1"]);
    assert_eq!(
        run_two_phase(&input).unwrap(),
        "{\"values\":[{\"field_id\":600,\"bind_value_ids\":[10]},{\"field_id\":601,\"bind_value_ids\":[3]}]}"
    );
}

#[test]
fn zero_factor_is_not_missing() {
    let input = single("0", "2", "4", &[(70, "0"), (77, "8")]);
    assert_eq!(
        run_single_phase(&input).unwrap(),
        "{\"values\":[{\"field_id\":501,\"bind_value_ids\":[70]}]}"
    );
}

#[test]
fn absent_factor_fails() {
    let input = document(
        &[snapshot("Severity", "3"), snapshot("Probability", "2")],
        &[risk_field("Risk", 501, &[(77, "24")])],
    );
    assert!(matches!(run_single_phase(&input), Err(RiskError::FactorMissing)));
}

#[test]
fn empty_factor_values_fail() {
    let input = document(
        &[
            snapshot("Severity", "3"),
            snapshot("Probability", "2"),
            "{\"label\":\"Detectability\",\"values\":[]}".to_string(),
        ],
        &[risk_field("Risk", 501, &[(77, "24")])],
    );
    assert!(matches!(run_single_phase(&input), Err(RiskError::FactorMissing)));
}

#[test]
fn non_numeric_factor_fails() {
    let input = single("3", "high", "4", &[(77, "24")]);
    assert!(matches!(run_single_phase(&input), Err(RiskError::FactorMissing)));
}

#[test]
fn factor_missing_in_one_phase_fails_both() {
    let input = two_phase(["5", "4", "3"], ["5", "", "1"]);
    let r = run_two_phase(&input);
    assert!(matches!(r, Err(RiskError::FactorMissing)));
    assert_eq!(r.unwrap_err().message(), "Cannot find Severity or Probability field");
}

#[test]
fn unmatched_product_fails() {
    let input = single("3", "2", "4", &[(76, "12"), (78, "48")]);
    let r = run_single_phase(&input);
    assert!(matches!(r, Err(RiskError::NoMatchingValue)));
    assert_eq!(r.unwrap_err().message(), "Cannot find matching Risk value");
}

#[test]
fn unmatched_product_in_one_phase_fails() {
    let input = two_phase(["5", "4", "3"], ["7", "1", "1"]);
    assert!(matches!(run_two_phase(&input), Err(RiskError::NoMatchingValue)));
}

#[test]
fn same_input_same_output() {
    let input = two_phase(["5", "4", "3"], ["5", "1", "1"]);
    assert_eq!(run_two_phase(&input).unwrap(), run_two_phase(&input).unwrap());
}

#[test]
fn option_label_with_trailing_space_does_not_match() {
    let input = single("3", "2", "4", &[(77, "24 ")]);
    assert!(matches!(run_single_phase(&input), Err(RiskError::NoMatchingValue)));
}

#[test]
fn option_label_with_leading_zero_does_not_match() {
    let input = single("3", "2", "4", &[(77, "024"), (78, "24")]);
    assert_eq!(
        run_single_phase(&input).unwrap(),
        "{\"values\":[{\"field_id\":501,\"bind_value_ids\":[78]}]}"
    );
}

#[test]
fn factor_label_case_matters() {
    let input = document(
        &[
            snapshot("severity", "3"),
            snapshot("Probability", "2"),
            snapshot("Detectability", "4"),
        ],
        &[risk_field("Risk", 501, &[(77, "24")])],
    );
    assert!(matches!(run_single_phase(&input), Err(RiskError::FactorMissing)));
}

#[test]
fn risk_field_missing() {
    let input = document(
        &[snapshot("Severity", "3")],
        &[risk_field("Risk level", 501, &[(77, "24")])],
    );
    let r = run_single_phase(&input);
    assert!(matches!(r, Err(RiskError::RiskFieldMissing(Phase::Sole))));
    assert_eq!(r.unwrap_err().message(), "Cannot find field_risk");
}

#[test]
fn risk_values_missing() {
    let input = document(
        &[snapshot("Severity", "3")],
        &["{\"label\":\"Risk\",\"field_id\":501}".to_string()],
    );
    let r = run_single_phase(&input);
    assert!(matches!(r, Err(RiskError::RiskValuesMissing(Phase::Sole))));
    assert_eq!(r.unwrap_err().message(), "Cannot find Risk values");
}

#[test]
fn after_mitigation_risk_field_errors() {
    let missing = document(
        &[],
        &[risk_field("Risk level before mitigation", 600, &[(10, "60")])],
    );
    let r = run_two_phase(&missing);
    assert!(matches!(r, Err(RiskError::RiskFieldMissing(Phase::AfterMitigation))));
    assert_eq!(r.unwrap_err().message(), "Cannot find field_risk_after");
    let unbound = document(
        &[],
        &[
            risk_field("Risk level before mitigation", 600, &[(10, "60")]),
            "{\"label\":\"Risk level after mitigation\",\"field_id\":601}".to_string(),
        ],
    );
    let r = run_two_phase(&unbound);
    assert!(matches!(r, Err(RiskError::RiskValuesMissing(Phase::AfterMitigation))));
    assert_eq!(r.unwrap_err().message(), "Cannot find Risk values after mitigation");
}

#[test]
fn risk_field_checked_before_factors() {
    let input = document(&[], &[]);
    assert!(matches!(
        run_two_phase(&input),
        Err(RiskError::RiskFieldMissing(Phase::BeforeMitigation))
    ));
}

#[test]
fn malformed_input() {
    let r = run_single_phase(b"{not json");
    match r {
        Err(RiskError::Malformed(detail)) => assert!(!detail.is_empty()),
        _ => panic!("expected a parse failure"),
    }
    let msg = run_single_phase(b"{not json").unwrap_err().message();
    assert!(msg.starts_with("ser: "));
}

#[test]
fn product_out_of_range() {
    let input = single("9223372036854775807", "2", "1", &[(1, "0")]);
    assert!(matches!(run_single_phase(&input), Err(RiskError::ProductOutOfRange)));
}

#[test]
fn product_arithmetic() {
    assert_eq!(factor_product(3, 2, 4), Some(24));
    assert_eq!(factor_product(-3, 2, 4), Some(-24));
    assert_eq!(factor_product(i64::MAX, 2, 0), Some(0));
    assert_eq!(factor_product(i64::MIN, 1, 1), Some(i64::MIN));
    assert_eq!(factor_product(1 << 32, 1 << 31, -1), Some(i64::MIN));
    assert_eq!(factor_product(1 << 32, 1 << 31, 1), None);
    assert_eq!(factor_product(i64::MIN, -1, 1), None);
}

#[test]
fn parses_integers() {
    assert_eq!(parse_i64("3"), Some(3));
    assert_eq!(parse_i64("0"), Some(0));
    assert_eq!(parse_i64("-12"), Some(-12));
    assert_eq!(parse_i64("+7"), Some(7));
    assert_eq!(parse_i64("007"), Some(7));
    assert_eq!(parse_i64("9223372036854775807"), Some(i64::MAX));
    assert_eq!(parse_i64("-9223372036854775808"), Some(i64::MIN));
    assert_eq!(parse_i64("9223372036854775808"), None);
    assert_eq!(parse_i64(""), None);
    assert_eq!(parse_i64("-"), None);
    assert_eq!(parse_i64("3 "), None);
    assert_eq!(parse_i64(" 3"), None);
    assert_eq!(parse_i64("1_000"), None);
}

#[test]
fn writes_integers() {
    assert_eq!(decimal_text(0), "0");
    assert_eq!(decimal_text(24), "24");
    assert_eq!(decimal_text(-605), "-605");
    assert_eq!(decimal_text(i64::MAX), "9223372036854775807");
    assert_eq!(decimal_text(i64::MIN), "-9223372036854775808");
}

fn sample_document() -> Document {
    let snap = |l: &str, v: Option<&str>| FieldSnapshot {
        label: Some(l.to_string()),
        values: vec![OptionRef { label: v.map(|s| s.to_string()) }],
    };
    Document {
        current_values: vec![
            FieldSnapshot { label: None, values: vec![] },
            snap("Severity", Some("3")),
            snap("Severity", Some("9")),
            snap("Probability", Some("2")),
            snap("Detectability", Some("4")),
        ],
        tracker_fields: vec![FieldDefinition {
            label: Some("Risk".to_string()),
            field_id: Some(501),
            values: Some(vec![
                OptionDefinition { id: Some("\"low\"".to_string()), label: None },
                OptionDefinition { id: Some("77".to_string()), label: Some("24".to_string()) },
                OptionDefinition { id: Some("99".to_string()), label: Some("24".to_string()) },
            ]),
        }],
    }
}

#[test]
fn first_labelled_field_is_used() {
    let doc = sample_document();
    assert_eq!(locate_numeric_factor(&doc, "Severity"), Some(3));
    assert_eq!(locate_numeric_factor(&doc, "Risk"), None);
    let entries = compute_single_phase(&doc).unwrap();
    assert_eq!(entries.len(), 1);
    assert_eq!(entries[0].field_id, 501);
    assert_eq!(entries[0].bind_value_id.as_deref(), Some("77"));
    assert_eq!(
        respond_single_phase(&doc).unwrap(),
        "{\"values\":[{\"field_id\":501,\"bind_value_ids\":[77]}]}"
    );
}

#[test]
fn resolver_reports_field_and_values() {
    let doc = sample_document();
    match resolve_risk_field(&doc, "Risk") {
        Ok((id, values)) => {
            assert_eq!(id, 501);
            assert_eq!(values.len(), 3);
        }
        Err(_) => panic!("risk field should resolve"),
    }
    assert!(matches!(resolve_risk_field(&doc, "risk"), Err(Unresolved::FieldMissing)));
    assert!(compute_two_phase(&doc).is_err());
}

#[test]
fn identifiers_are_carried_verbatim() {
    let input = single("1", "1", "2", &[]);
    let text = String::from_utf8(input).unwrap().replace(
        "\"values\":[]}]}}",
        "\"values\":[{\"id\":\"opt-2\",\"label\":\"2\"}]}]}}",
    );
    assert_eq!(
        run_single_phase(text.as_bytes()).unwrap(),
        "{\"values\":[{\"field_id\":501,\"bind_value_ids\":[\"opt-2\"]}]}"
    );
}

#[test]
fn missing_field_id_reads_as_zero() {
    let input = document(
        &[
            snapshot("Severity", "1"),
            snapshot("Probability", "1"),
            snapshot("Detectability", "1"),
        ],
        &["{\"label\":\"Risk\",\"values\":[{\"id\":5,\"label\":\"1\"}]}".to_string()],
    );
    let doc = parse_document(&input).unwrap();
    let entries = compute_single_phase(&doc).unwrap();
    assert_eq!(entries[0].field_id, 0);
    assert_eq!(render_patch(&entries), "{\"values\":[{\"field_id\":0,\"bind_value_ids\":[5]}]}");
}

#[test]
fn absent_option_id_is_written_as_null() {
    let input = document(
        &[
            snapshot("Severity", "1"),
            snapshot("Probability", "2"),
            snapshot("Detectability", "3"),
        ],
        &["{\"label\":\"Risk\",\"field_id\":7,\"values\":[{\"label\":\"6\"}]}".to_string()],
    );
    assert_eq!(
        run_single_phase(&input).unwrap(),
        "{\"values\":[{\"field_id\":7,\"bind_value_ids\":[null]}]}"
    );
}

#[test]
fn non_string_labels_read_as_absent() {
    let input = document(
        &[
            "{\"label\":3,\"values\":[{\"label\":\"3\"}]}".to_string(),
            snapshot("Severity", "3"),
            "{\"label\":\"Probability\",\"values\":[{\"label\":2}]}".to_string(),
            snapshot("Detectability", "4"),
        ],
        &[risk_field("Risk", 501, &[(77, "24")])],
    );
    let doc = parse_document(&input).unwrap();
    assert_eq!(doc.current_values.len(), 4);
    assert!(doc.current_values[0].label.is_none());
    assert_eq!(locate_numeric_factor(&doc, "Severity"), Some(3));
    assert_eq!(locate_numeric_factor(&doc, "Probability"), None);
    assert!(matches!(run_single_phase(&input), Err(RiskError::FactorMissing)));
}

#[test]
fn decoded_document_keeps_order_and_ids() {
    let input = single("3", "2", "4", &[(76, "12"), (77, "24")]);
    let doc = parse_document(&input).unwrap();
    assert_eq!(doc.current_values.len(), 3);
    assert_eq!(doc.tracker_fields.len(), 1);
    let field = &doc.tracker_fields[0];
    assert_eq!(field.field_id, Some(501));
    let values = field.values.as_ref().unwrap();
    assert_eq!(values[1].id.as_deref(), Some("77"));
    assert_eq!(values[1].label.as_deref(), Some("24"));
}
