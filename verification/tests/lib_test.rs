use str_handler::bridge::FALLBACK;
use str_handler::{free_string, process_string};
use str_handler::terminated::text;

#[test]
fn test_process_string_valid_input() {
    let input_str = "Testing inside Rust";
    let mut input_cstr = input_str.as_bytes().to_vec();
    input_cstr.push(0);

    let raw = process_string(Some(&input_cstr));

    assert!(raw.is_some(), "Error: The returned pointer must not be null!");

    let owned = raw.unwrap();
    let result_cstr = text(&owned);
    let result_str = std::str::from_utf8(result_cstr).expect("Failed to convert to UTF-8");

    assert_eq!(result_str, input_str);

    free_string(Some(owned));
}

#[test]
fn test_process_string_null_input() {
    let raw = process_string(None);

    assert!(raw.is_none(), "Error: Null input should return a null pointer.");

    free_string(raw);
}

#[test]
fn valid_input_is_echoed_byte_for_byte() {
    let owned = process_string(Some(b"Testing inside Rust\0")).unwrap();
    assert_eq!(owned, b"Testing inside Rust\0".to_vec());
}

#[test]
fn invalid_input_is_answered_with_the_fallback() {
    let owned = process_string(Some(b"\xff\xfe\0")).unwrap();
    assert_eq!(owned, b"invalid UTF-8\0".to_vec());
    assert_eq!(std::str::from_utf8(text(&owned)), Ok("invalid UTF-8"));
}

#[test]
fn fallback_is_the_fixed_literal() {
    assert_eq!(FALLBACK, "invalid UTF-8");
    assert_eq!(
        FALLBACK.as_bytes(),
        [105u8, 110, 118, 97, 108, 105, 100, 32, 85, 84, 70, 45, 56]
    );
}

#[test]
fn every_kind_of_malformed_text_is_answered_with_the_fallback() {
    let malformed: Vec<&[u8]> = vec![
        b"\x80\0",
        b"abc\xbf\0",
        b"\xc3\0",
        b"\xc3(\0",
        b"\xc0\x80\0",
        b"\xc1\xbf\0",
        b"\xe0\x80\x80\0",
        b"\xe0\x9f\xbf\0",
        b"\xe2\x82\0",
        b"\xed\xa0\x80\0",
        b"\xed\xbf\xbf\0",
        b"\xf0\x80\x80\x80\0",
        b"\xf0\x8f\xbf\xbf\0",
        b"\xf0\x9f\x8e\0",
        b"\xf4\x90\x80\x80\0",
        b"\xf5\x80\x80\x80\0",
        b"\xf8\x88\x80\x80\x80\0",
        b"\xfe\0",
        b"valid start \xe2\x28\xa1 invalid middle\0",
    ];
    for input in malformed {
        let owned = process_string(Some(input)).unwrap();
        assert_eq!(owned, b"invalid UTF-8\0".to_vec(), "input {:?}", input);
    }
}

#[test]
fn multi_byte_text_round_trips() {
    let samples = [
        "",
        "a",
        "\u{7f}",
        "\u{80}",
        "\u{7ff}",
        "\u{800}",
        "\u{d7ff}",
        "\u{e000}",
        "\u{ffff}",
        "\u{10000}",
        "\u{10ffff}",
        "h\u{e9}llo \u{2013} \u{65e5}\u{672c}\u{8a9e} \u{1f389}",
    ];
    for sample in samples {
        let mut input = sample.as_bytes().to_vec();
        input.push(0);
        let owned = process_string(Some(&input)).unwrap();
        assert_eq!(owned, input);
        assert_eq!(std::str::from_utf8(text(&owned)), Ok(sample));
        free_string(Some(owned));
    }
}

#[test]
fn empty_text_is_echoed_as_a_lone_terminator() {
    assert_eq!(process_string(Some(b"\0")), Some(vec![0u8]));
}

#[test]
fn text_ends_at_the_first_terminator() {
    assert_eq!(process_string(Some(b"abc\0def\0")), Some(b"abc\0".to_vec()));
}

#[test]
fn bytes_behind_the_terminator_are_not_judged() {
    assert_eq!(process_string(Some(b"ok\0\xff\xff")), Some(b"ok\0".to_vec()));
}

#[test]
fn input_without_terminator_is_read_to_its_end() {
    assert_eq!(process_string(Some(b"abc")), Some(b"abc\0".to_vec()));
    assert_eq!(process_string(Some(b"")), Some(b"\0".to_vec()));
    assert_eq!(process_string(Some(b"\xff")), Some(b"invalid UTF-8\0".to_vec()));
}

#[test]
fn output_is_a_fresh_buffer_and_input_is_left_alone() {
    let input = b"borrowed\0".to_vec();
    let mut owned = process_string(Some(&input)).unwrap();
    owned[0] = b'B';
    assert_eq!(input, b"borrowed\0".to_vec());
    assert_eq!(owned, b"Borrowed\0".to_vec());
    free_string(Some(owned));
}

#[test]
fn output_can_be_fed_back_in() {
    let first = process_string(Some(b"\xc0\xaf\0")).unwrap();
    let second = process_string(Some(&first)).unwrap();
    assert_eq!(first, second);
    free_string(Some(first));
    free_string(Some(second));
}

#[test]
fn free_string_accepts_null() {
    free_string(None);
    free_string(None);
}

#[test]
fn free_string_releases_a_result_of_process_string() {
    let owned = process_string(Some(b"release me\0"));
    assert!(owned.is_some());
    free_string(owned);
}
