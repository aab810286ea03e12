use arb_calc::model::{DecodeError, FatalError, Field};
use arb_calc::pipeline::process_line;

fn line(
    amount_in: &str,
    quote1_out: &str,
    quote1_min_out: &str,
    quote2_out: &str,
    quote2_min_out: &str,
    min_profit: &str,
    fee_key: &str,
    fee: &str,
) -> String {
    format!(
        "{{\"amountIn\": \"{}\", \"quote1Out\": \"{}\", \"quote1MinOut\": \"{}\", \"quote2Out\": \"{}\", \"quote2MinOut\": \"{}\", \"minProfit\": \"{}\", \"{}\": \"{}\"}}",
        amount_in, quote1_out, quote1_min_out, quote2_out, quote2_min_out, min_profit, fee_key, fee
    )
}

#[test]
fn scenario_profitable_at_threshold() {
    let l = line("1000", "0", "0", "1100", "1050", "40", "feeEstimateInInputUnits", "10");
    let out = process_line(&l).unwrap().unwrap();
    assert_eq!(out, "{\"profitable\":true,\"profit\":\"90\",\"conservativeProfit\":\"40\"}");
}

#[test]
fn scenario_threshold_not_met() {
    let l = line("1000", "0", "0", "1100", "1050", "41", "feeEstimateInInputUnits", "10");
    let out = process_line(&l).unwrap().unwrap();
    assert_eq!(out, "{\"profitable\":false,\"profit\":\"90\",\"conservativeProfit\":\"40\"}");
}

#[test]
fn invalid_integer_is_fatal() {
    let l = line("abc", "0", "0", "1100", "1050", "40", "feeEstimateInInputUnits", "10");
    let r = process_line(&l);
    assert!(matches!(
        r,
        Err(FatalError::Decode(DecodeError::InvalidInt(Field::AmountIn)))
    ));
}

#[test]
fn blank_lines_are_skipped() {
    assert!(matches!(process_line(""), Ok(None)));
    assert!(matches!(process_line("   \t  "), Ok(None)));
    assert!(matches!(process_line("\r\n"), Ok(None)));
    assert!(matches!(process_line("\u{00A0}\u{2003}\u{3000}"), Ok(None)));
}

#[test]
fn blank_line_between_two_records() {
    let l1 = line("1000", "0", "0", "1100", "1050", "40", "feeEstimateInInputUnits", "10");
    let l2 = line("1000", "0", "0", "1100", "1050", "41", "feeEstimateInInputUnits", "10");
    let mut outputs = Vec::new();
    for l in [l1.as_str(), "   ", l2.as_str()] {
        match process_line(l) {
            Ok(Some(out)) => outputs.push(out),
            Ok(None) => {}
            Err(_) => panic!("no record here may fail"),
        }
    }
    assert_eq!(outputs.len(), 2);
    assert_eq!(outputs[0], "{\"profitable\":true,\"profit\":\"90\",\"conservativeProfit\":\"40\"}");
    assert_eq!(outputs[1], "{\"profitable\":false,\"profit\":\"90\",\"conservativeProfit\":\"40\"}");
}

#[test]
fn fee_alias_spelling_decodes_alike() {
    let canonical = line("1000", "0", "0", "1100", "1050", "40", "feeEstimateInInputUnits", "10");
    let legacy = line("1000", "0", "0", "1100", "1050", "40", "feeEstimateLamports", "10");
    let out1 = process_line(&canonical).unwrap().unwrap();
    let out2 = process_line(&legacy).unwrap().unwrap();
    assert_eq!(out1, out2);
}

#[test]
fn fee_under_neither_spelling_is_fatal() {
    let l = "{\"amountIn\": \"1000\", \"quote1Out\": \"0\", \"quote1MinOut\": \"0\", \"quote2Out\": \"1100\", \"quote2MinOut\": \"1050\", \"minProfit\": \"40\"}";
    let r = process_line(l);
    assert!(matches!(
        r,
        Err(FatalError::Decode(DecodeError::MissingField(Field::FeeEstimate)))
    ));
}

#[test]
fn canonical_fee_spelling_wins_over_legacy() {
    let l = "{\"amountIn\": \"1000\", \"quote1Out\": \"0\", \"quote1MinOut\": \"0\", \"quote2Out\": \"1100\", \"quote2MinOut\": \"1050\", \"minProfit\": \"40\", \"feeEstimateInInputUnits\": \"10\", \"feeEstimateLamports\": \"999\"}";
    let out = process_line(l).unwrap().unwrap();
    assert_eq!(out, "{\"profitable\":true,\"profit\":\"90\",\"conservativeProfit\":\"40\"}");
}

#[test]
fn negative_and_zero_values_carry_sign() {
    let l = line("-100", "0", "0", "-40", "-50", "0", "feeEstimateInInputUnits", "-10");
    let out = process_line(&l).unwrap().unwrap();
    // profit = -40 - (-100) - (-10) = 70; conservative = -50 + 100 + 10 = 60
    assert_eq!(out, "{\"profitable\":true,\"profit\":\"70\",\"conservativeProfit\":\"60\"}");
}

#[test]
fn negative_profit_is_rendered_with_sign() {
    let l = line("1000", "0", "0", "900", "800", "0", "feeEstimateInInputUnits", "10");
    let out = process_line(&l).unwrap().unwrap();
    assert_eq!(out, "{\"profitable\":false,\"profit\":\"-110\",\"conservativeProfit\":\"-210\"}");
}

#[test]
fn arithmetic_overflow_is_fatal() {
    let l = line(
        "-1",
        "0",
        "0",
        "170141183460469231731687303715884105727",
        "0",
        "0",
        "feeEstimateInInputUnits",
        "0",
    );
    let r = process_line(&l);
    assert!(matches!(r, Err(FatalError::Overflow)));
}

#[test]
fn malformed_json_is_fatal() {
    let r = process_line("not a record");
    assert!(matches!(r, Err(FatalError::Decode(DecodeError::Syntax(_)))));
}

#[test]
fn numeric_field_must_be_a_string() {
    let l = "{\"amountIn\": 1000, \"quote1Out\": \"0\", \"quote1MinOut\": \"0\", \"quote2Out\": \"1100\", \"quote2MinOut\": \"1050\", \"minProfit\": \"40\", \"feeEstimateInInputUnits\": \"10\"}";
    let r = process_line(l);
    assert!(matches!(r, Err(FatalError::Decode(_))));
}

#[test]
fn missing_leg1_field_is_fatal() {
    let l = "{\"amountIn\": \"1000\", \"quote1MinOut\": \"0\", \"quote2Out\": \"1100\", \"quote2MinOut\": \"1050\", \"minProfit\": \"40\", \"feeEstimateInInputUnits\": \"10\"}";
    let r = process_line(l);
    assert!(matches!(
        r,
        Err(FatalError::Decode(DecodeError::MissingField(Field::Quote1Out)))
    ));
}

#[test]
fn leg1_fields_are_validated_but_ignored() {
    let l1 = line("1000", "5", "3", "1100", "1050", "40", "feeEstimateInInputUnits", "10");
    let l2 = line("1000", "999999", "-4", "1100", "1050", "40", "feeEstimateInInputUnits", "10");
    let out1 = process_line(&l1).unwrap().unwrap();
    let out2 = process_line(&l2).unwrap().unwrap();
    assert_eq!(out1, out2);
}

#[test]
fn same_record_twice_gives_identical_output() {
    let l = line("7", "1", "1", "20", "15", "3", "feeEstimateInInputUnits", "2");
    let out1 = process_line(&l).unwrap().unwrap();
    let out2 = process_line(&l).unwrap().unwrap();
    assert_eq!(out1, out2);
}

#[test]
fn response_is_valid_json_with_exactly_three_fields() {
    let l = line("1000", "0", "0", "1100", "1050", "40", "feeEstimateInInputUnits", "10");
    let out = process_line(&l).unwrap().unwrap();
    let v: serde_json::Value = serde_json::from_str(&out).unwrap();
    let obj = v.as_object().unwrap();
    assert_eq!(obj.len(), 3);
    assert_eq!(obj.get("profitable").unwrap().as_bool().unwrap(), true);
    assert_eq!(obj.get("profit").unwrap().as_str().unwrap(), "90");
    assert_eq!(obj.get("conservativeProfit").unwrap().as_str().unwrap(), "40");
}

#[test]
fn whitespace_and_member_order_do_not_matter() {
    let l = "  { \"minProfit\": \"40\", \"feeEstimateInInputUnits\": \"10\", \"quote2MinOut\": \"1050\", \"quote2Out\": \"1100\", \"quote1MinOut\": \"0\", \"quote1Out\": \"0\", \"amountIn\": \"1000\" }  ";
    let out = process_line(l).unwrap().unwrap();
    assert_eq!(out, "{\"profitable\":true,\"profit\":\"90\",\"conservativeProfit\":\"40\"}");
}

#[test]
fn boundary_values_evaluate_exactly() {
    // amountIn at the negative boundary: profit = 0 - MIN - 0 overflows.
    let l = line(
        "-170141183460469231731687303715884105728",
        "0",
        "0",
        "0",
        "0",
        "0",
        "feeEstimateInInputUnits",
        "0",
    );
    assert!(matches!(process_line(&l), Err(FatalError::Overflow)));
    // The same magnitude used where the arithmetic stays in range.
    let l2 = line(
        "0",
        "0",
        "0",
        "-170141183460469231731687303715884105728",
        "-170141183460469231731687303715884105728",
        "0",
        "feeEstimateInInputUnits",
        "0",
    );
    let out = process_line(&l2).unwrap().unwrap();
    assert_eq!(
        out,
        "{\"profitable\":false,\"profit\":\"-170141183460469231731687303715884105728\",\"conservativeProfit\":\"-170141183460469231731687303715884105728\"}"
    );
}
