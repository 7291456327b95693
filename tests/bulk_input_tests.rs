use beaug::bulk_input::{input_lines, parse_bulk_disperse_input, parts, split_on, BulkDisperseType, BulkInputError};

const A1: &str = "0x0000000000000000000000000000000000000001";
const A2: &str = "0x0000000000000000000000000000000000000002";

#[test]
fn splitting_keeps_empty_pieces() {
    assert_eq!(split_on("a,b,", ','), vec!["a", "b", ""]);
    assert_eq!(split_on("", ','), vec![""]);
    assert_eq!(split_on(",", ','), vec!["", ""]);
    assert_eq!(parts("x  y\tz"), vec!["x", "y", "z"]);
    assert_eq!(parts("x, y"), vec!["x", " y"]);
    assert_eq!(input_lines("a\n\n  \nb\n"), vec!["a", "b"]);
}

#[test]
fn empty_input_is_an_empty_equal_list() {
    match parse_bulk_disperse_input("  \n\n") {
        Ok(BulkDisperseType::Equal(v)) => assert!(v.is_empty()),
        _ => panic!("expected an empty list"),
    }
}

#[test]
fn addresses_only_share_equally() {
    let input = format!("{}\n\n  {}  \n", A1, A2);
    match parse_bulk_disperse_input(&input) {
        Ok(BulkDisperseType::Equal(v)) => {
            assert_eq!(v.len(), 2);
            assert_eq!(v[0][19], 1);
            assert_eq!(v[1][19], 2);
        }
        _ => panic!("expected addresses"),
    }
}

#[test]
fn addresses_with_amounts() {
    let input = format!("{},0.5\n{} 1.25\r\n", A1, A2);
    match parse_bulk_disperse_input(&input) {
        Ok(BulkDisperseType::Mixed(v)) => {
            assert_eq!(v.len(), 2);
            assert_eq!(v[0].1, 500_000_000_000_000_000);
            assert_eq!(v[1].0[19], 2);
            assert_eq!(v[1].1, 1_250_000_000_000_000_000);
        }
        _ => panic!("expected pairs"),
    }
}

#[test]
fn bulk_input_errors_name_the_line() {
    let e = parse_bulk_disperse_input(&format!("{}\n{},1", A1, A2)).err().unwrap();
    assert!(matches!(e, BulkInputError::UnexpectedParts { line: 2, parts: 2 }));
    assert_eq!(e.to_string(), "Line 2: Expected only address for equal distribution, got 2 parts");
    let e = parse_bulk_disperse_input("0xabc").err().unwrap();
    assert_eq!(e.to_string(), "Line 1: Invalid address format: 0xabc");
    let e = parse_bulk_disperse_input(&format!("{},1\n{}", A1, A2)).err().unwrap();
    assert!(matches!(e, BulkInputError::InvalidPair { line: 2 }));
    let e = parse_bulk_disperse_input(&format!("{},x1", A1)).err().unwrap();
    assert!(matches!(e, BulkInputError::InvalidAmount { line: 1, .. }));
    assert!(e.to_string().starts_with("Line 1: Invalid amount 'x1': "));
    let e = parse_bulk_disperse_input("a,b,c").err().unwrap();
    assert!(matches!(e, BulkInputError::UnknownFormat));
}

#[test]
fn fields_split_at_any_unicode_white_space() {
    let p = parts("a\t b\u{3000}c\u{a0}\u{2009}d  ");
    assert_eq!(p, vec!["a", "b", "c", "d"]);
    assert!(parts(" \u{85}\n").is_empty());
}
