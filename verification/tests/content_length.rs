use tokio_dl_stream_to_disk::response::{parse_content_length, Response};

fn response(status: u16, header: Option<&[u8]>) -> Response {
    Response { status, reason: String::new(), content_length: header.map(|text| text.to_vec()) }
}

#[test]
fn plain_numbers_are_read() {
    assert_eq!(parse_content_length(b"0"), Some(0));
    assert_eq!(parse_content_length(b"7"), Some(7));
    assert_eq!(parse_content_length(b"5242880"), Some(5_242_880));
    assert_eq!(parse_content_length(b"1234567890"), Some(1_234_567_890));
}

#[test]
fn leading_zeros_and_plus_are_read() {
    assert_eq!(parse_content_length(b"007"), Some(7));
    assert_eq!(parse_content_length(b"+5"), Some(5));
    assert_eq!(parse_content_length(b"+0"), Some(0));
    assert_eq!(parse_content_length(b"0000000000000000000000000000000000000042"), Some(42));
}

#[test]
fn the_largest_length_is_read_and_the_next_is_not() {
    assert_eq!(parse_content_length(b"18446744073709551615"), Some(u64::MAX));
    assert_eq!(parse_content_length(b"+18446744073709551615"), Some(u64::MAX));
    assert_eq!(parse_content_length(b"18446744073709551616"), None);
    assert_eq!(parse_content_length(b"18446744073709551620"), None);
    assert_eq!(parse_content_length(b"99999999999999999999"), None);
    assert_eq!(parse_content_length(b"184467440737095516150"), None);
}

#[test]
fn anything_else_states_no_length() {
    let texts: [&[u8]; 16] = [
        b"",
        b"+",
        b"-",
        b"-1",
        b"-0",
        b"++1",
        b"+-1",
        b" 1",
        b"1 ",
        b"\t1",
        b"1\n",
        b"12a",
        b"a12",
        b"1.0",
        b"1_000",
        b"0x10",
    ];
    for text in texts {
        assert_eq!(parse_content_length(text), None);
    }
    assert_eq!(parse_content_length(&[0x31, 0xff]), None);
    assert_eq!(parse_content_length(&[0xc3, 0xa9]), None);
    assert_eq!(parse_content_length(&[0x00]), None);
    assert_eq!(parse_content_length(&[0x2f]), None);
    assert_eq!(parse_content_length(&[0x3a]), None);
}

#[test]
fn reading_agrees_with_the_standard_parser() {
    let texts = [
        "", "0", "1", "9", "10", "+", "+1", "-1", "00", "+00", "42", "4 2", "٤٢", "１２", "1e3",
        "18446744073709551615", "18446744073709551616", "000018446744073709551615", "+ 1", "1+",
    ];
    for text in texts {
        assert_eq!(parse_content_length(text.as_bytes()), text.parse::<u64>().ok());
    }
    for n in 0u64..2000 {
        let text = n.to_string();
        assert_eq!(parse_content_length(text.as_bytes()), Some(n));
    }
}

#[test]
fn response_length_comes_from_the_header() {
    assert_eq!(response(200, None).length(), None);
    assert_eq!(response(200, Some(b"")).length(), None);
    assert_eq!(response(200, Some(b"chunked")).length(), None);
    assert_eq!(response(200, Some(b"1024")).length(), Some(1024));
    assert_eq!(response(404, Some(b"9")).length(), Some(9));
}

#[test]
fn success_is_two_hundred_to_two_ninety_nine() {
    assert!(!response(0, None).is_success());
    assert!(!response(199, None).is_success());
    assert!(response(200, None).is_success());
    assert!(response(201, None).is_success());
    assert!(response(299, None).is_success());
    assert!(!response(300, None).is_success());
    assert!(!response(404, None).is_success());
    assert!(!response(500, None).is_success());
    assert!(!response(u16::MAX, None).is_success());
}
