use std::str::FromStr;

use bbk_exporter::bbk::{parse_line, parse_output, Bbk, BbkError, BbkOutput, MeasurementField, ParseFault};
use bbk_exporter::text::{parse_u64, split_commas, str_eq, trim_str};

#[test]
fn it_parses_output_correctly() {
    let bbk_cli_output =
        "250.445,254.074,4.47409,anycast-global-ipv4.bredbandskollen.se,ISP AB,support_id,11111111";
    let parsed_result = bbk_cli_output.parse::<BbkOutput>().unwrap();
    let expected = BbkOutput {
        download: 250.445f64.to_bits(),
        upload: 254.074f64.to_bits(),
        ping: 4.47409f64.to_bits(),
        server: "anycast-global-ipv4.bredbandskollen.se".to_string(),
        isp: "ISP AB".to_string(),
        support_id: "support_id".to_string(),
        measurement_id: 11111111,
    };
    assert_eq!(parsed_result, expected);
}

#[test]
fn it_generates_error_from_invalid_input() {
    let bbk_cli_output =
        "not a float,254.074,4.47409,anycast-global-ipv4.bredbandskollen.se,ISP AB,support_id,11111111";
    let parsed_result = bbk_cli_output.parse::<BbkOutput>();
    assert!(parsed_result.is_err());
    assert!(parsed_result.is_err_and(|e| match e {
        BbkError::ParseError(ParseFault::InvalidFloat(MeasurementField::Download)) => true,
        _ => false,
    }));
}

#[test]
fn wrong_field_count_is_a_distinct_error() {
    for line in ["", "250.445", "1,2,3,a,b,c", "1,2,3,a,b,c,7,8"] {
        assert_eq!(
            BbkOutput::from_str(line).unwrap_err(),
            BbkError::ParseError(ParseFault::WrongFieldCount),
        );
    }
}

#[test]
fn each_numeric_field_is_identified_on_failure() {
    assert_eq!(
        parse_line("1.0,x,3.0,a,b,c,4").unwrap_err(),
        BbkError::ParseError(ParseFault::InvalidFloat(MeasurementField::Upload)),
    );
    assert_eq!(
        parse_line("1.0,2.0,x,a,b,c,4").unwrap_err(),
        BbkError::ParseError(ParseFault::InvalidFloat(MeasurementField::Ping)),
    );
    assert_eq!(
        parse_line("1.0,2.0,3.0,a,b,c,x").unwrap_err(),
        BbkError::ParseError(ParseFault::InvalidInt(MeasurementField::MeasurementId)),
    );
}

#[test]
fn non_finite_floats_are_rejected() {
    for line in ["inf,2.0,3.0,a,b,c,4", "NaN,2.0,3.0,a,b,c,4", "-infinity,2.0,3.0,a,b,c,4"] {
        assert_eq!(
            parse_line(line).unwrap_err(),
            BbkError::ParseError(ParseFault::InvalidFloat(MeasurementField::Download)),
        );
    }
}

#[test]
fn numeric_fields_are_trimmed_and_labels_taken_verbatim() {
    let rec = parse_line(" 1.5 ,\t2.5,3.0 , srv , isp AB ,sid, 42 ").unwrap();
    assert_eq!(rec.download, 1.5f64.to_bits());
    assert_eq!(rec.upload, 2.5f64.to_bits());
    assert_eq!(rec.ping, 3.0f64.to_bits());
    assert_eq!(rec.server, " srv ");
    assert_eq!(rec.isp, " isp AB ");
    assert_eq!(rec.support_id, "sid");
    assert_eq!(rec.measurement_id, 42);
}

#[test]
fn invalid_utf8_is_a_decode_error() {
    let bytes = vec![0xFF, 0xFE, 0x2C];
    assert_eq!(parse_output(bytes).unwrap_err(), BbkError::DecodeError);
}

#[test]
fn multibyte_output_decodes_before_parsing() {
    let line = "1.0,2.0,3.0,sv-åäö,öperatör,sid,4".as_bytes().to_vec();
    let rec = parse_output(line).unwrap();
    assert_eq!(rec.server, "sv-åäö");
    assert_eq!(rec.isp, "öperatör");
}

#[test]
fn measurement_id_parses_like_std_u64() {
    assert_eq!(parse_line("1,2,3,a,b,c,+42").unwrap().measurement_id, 42);
    assert_eq!(
        parse_line("1,2,3,a,b,c,18446744073709551615").unwrap().measurement_id,
        u64::MAX,
    );
    for bad in ["+", "-1", "18446744073709551616", "4 2", "0x10"] {
        let line = format!("1,2,3,a,b,c,{}", bad);
        assert_eq!(
            parse_line(&line).unwrap_err(),
            BbkError::ParseError(ParseFault::InvalidInt(MeasurementField::MeasurementId)),
        );
    }
}

#[test]
fn parse_u64_matches_std_parse() {
    for s in ["0", "42", "+7", "007", "", "+", "-1", " 1", "1 ", "abc", "18446744073709551615", "18446744073709551616", "99999999999999999999999"] {
        assert_eq!(parse_u64(s), s.parse::<u64>().ok(), "input {:?}", s);
    }
}

#[test]
fn split_commas_matches_std_split() {
    for s in ["", "a", "a,b", "a,b,,c", ",", ",,", "x,"] {
        let expected: Vec<String> = s.split(',').map(|p| p.to_string()).collect();
        assert_eq!(split_commas(s), expected, "input {:?}", s);
    }
}

#[test]
fn trim_str_matches_std_trim() {
    for s in ["", "x", "  x\t", "\u{00A0}y\u{3000}", "a b", " \n "] {
        assert_eq!(trim_str(s), s.trim(), "input {:?}", s);
    }
}

#[test]
fn str_eq_is_string_equality() {
    assert!(str_eq("abc", "abc"));
    assert!(str_eq("", ""));
    assert!(!str_eq("abc", "abd"));
    assert!(!str_eq("a", "ab"));
}

#[test]
fn build_args_appends_fixed_defaults_after_user_args() {
    let bbk = Bbk { path: "bbk".to_string(), args: vec!["--ipv4".to_string(), "--world".to_string()] };
    assert_eq!(
        bbk.build_args(),
        vec![
            "--ipv4".to_string(),
            "--world".to_string(),
            "--csv".to_string(),
            "--speedlimit=1".to_string(),
            "--duration=1".to_string(),
        ],
    );
    let plain = Bbk { path: "bbk".to_string(), args: Vec::new() };
    assert_eq!(
        plain.build_args(),
        vec!["--csv".to_string(), "--speedlimit=1".to_string(), "--duration=1".to_string()],
    );
}

#[test]
fn errors_describe_themselves() {
    assert_eq!(BbkError::ProcessError.describe(), "failed to run bbk");
    assert_eq!(BbkError::DecodeError.describe(), "failed to convert bbk output to string");
    assert_eq!(
        BbkError::ParseError(ParseFault::InvalidFloat(MeasurementField::Ping)).describe(),
        "failed to parse to float",
    );
}
