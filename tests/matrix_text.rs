use matrix_mul_rs::{find_platform, matrix_from_lines, split_lines, ErrorKind, GenError};

fn parse_lines(text: &[u8]) -> Vec<Result<f32, String>> {
    split_lines(text)
        .iter()
        .map(|l| std::str::from_utf8(l).unwrap().parse::<f32>().map_err(|e| e.to_string()))
        .collect()
}

#[test]
fn matrix_round_trip_through_text() {
    let rows = 3;
    let cols = 4;
    let values: Vec<f32> = (0..rows * cols).map(|i| i as f32 * 0.37 - 1.5).collect();
    let mut text = String::new();
    for v in &values {
        text.push_str(&format!("{}\n", v));
    }
    let parsed = parse_lines(text.as_bytes());
    let read = matrix_from_lines("matrix_a", &parsed, (rows * cols) as u32).unwrap();
    assert_eq!(read, values);
}

#[test]
fn too_few_lines_is_size_mismatch() {
    let parsed = parse_lines(b"1\n2\n3\n4\n5\n");
    let e = matrix_from_lines("matrix_b", &parsed, 6).unwrap_err();
    assert_eq!(e.kind, ErrorKind::SizeMismatch);
    assert_eq!(e.to_string(), "Matrix read from matrix_b has 5 elements; 6 expected.");
}

#[test]
fn too_many_lines_is_size_mismatch() {
    let parsed = parse_lines(b"1\n2\n3\n4\n5\n6\n7");
    let e = matrix_from_lines("matrix_c", &parsed, 6).unwrap_err();
    assert_eq!(e.kind, ErrorKind::SizeMismatch);
    assert_eq!(e.description(), "Matrix read from matrix_c has 7 elements; 6 expected.");
}

#[test]
fn bad_line_is_parse_error_before_count() {
    let parsed = parse_lines(b"1\n2\nx\n4\ny\n");
    let e = matrix_from_lines("matrix_a", &parsed, 6).unwrap_err();
    assert_eq!(e.kind, ErrorKind::Parse);
    assert_eq!(e.to_string(), "invalid float literal");
}

#[test]
fn empty_line_is_parse_error_with_parser_text() {
    let parsed = parse_lines(b"1\n\n3\n");
    let e = matrix_from_lines("matrix_a", &parsed, 3).unwrap_err();
    assert_eq!(e.kind, ErrorKind::Parse);
    assert_eq!(e.description(), "cannot parse float from empty string");
}

#[test]
fn generic_values_pass_through() {
    let parsed: Vec<Result<u8, String>> = vec![Ok(3), Ok(1), Ok(2)];
    assert_eq!(matrix_from_lines("m", &parsed, 3).unwrap(), vec![3, 1, 2]);
    let failing: Vec<Result<u8, String>> = vec![Ok(3), Err("first".to_string()), Err("second".to_string())];
    assert_eq!(matrix_from_lines("m", &failing, 3).unwrap_err().to_string(), "first");
    let none: Vec<Result<u8, String>> = Vec::new();
    assert_eq!(matrix_from_lines("m", &none, 0).unwrap(), Vec::<u8>::new());
}

#[test]
fn split_lines_handles_line_endings() {
    let lines = split_lines(b"1.5\r\n2\n\n3");
    assert_eq!(lines, vec![b"1.5".to_vec(), b"2".to_vec(), Vec::new(), b"3".to_vec()]);
    assert!(split_lines(b"").is_empty());
    assert_eq!(split_lines(b"\n"), vec![Vec::<u8>::new()]);
    assert_eq!(split_lines(b"a\rb\n"), vec![b"a\rb".to_vec()]);
    assert_eq!(split_lines(b"tail\r"), vec![b"tail\r".to_vec()]);
}

#[test]
fn split_lines_round_trip() {
    let lines: Vec<Vec<u8>> = vec![b"0.25".to_vec(), Vec::new(), b"-3".to_vec()];
    let mut text = Vec::new();
    for l in &lines {
        text.extend_from_slice(l);
        text.push(b'\n');
    }
    assert_eq!(split_lines(&text), lines);
}

#[test]
fn platform_found_by_exact_name() {
    let names = vec![
        Some("Portable Computing Language".to_string()),
        None,
        Some("Intel Gen OCL Driver".to_string()),
        Some("Intel Gen OCL Driver".to_string()),
    ];
    assert_eq!(find_platform(&names, "Intel Gen OCL Driver").unwrap(), 2);
    assert_eq!(find_platform(&names, "Portable Computing Language").unwrap(), 0);
}

#[test]
fn platform_missing_is_error() {
    let names = vec![Some("Intel Gen OCL Driver".to_string()), None];
    let e = find_platform(&names, "Intel").unwrap_err();
    assert_eq!(e.kind, ErrorKind::PlatformNotFound);
    assert_eq!(e.description(), "The requested platform could not be found");
    assert_eq!(find_platform(&Vec::new(), "x").unwrap_err().kind, ErrorKind::PlatformNotFound);
}

#[test]
fn error_from_message() {
    let e = GenError::from("device lost".to_string());
    assert_eq!(e.kind, ErrorKind::General);
    assert_eq!(e.to_string(), "device lost");
    let f = GenError::with_text(ErrorKind::FileOpen, "Unable to open matrix_a for reading");
    assert_eq!(f.kind(), ErrorKind::FileOpen);
    assert_eq!(f.description(), "Unable to open matrix_a for reading");
}
