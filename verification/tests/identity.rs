use visitor_counter::identity::{
    client_identifier, client_identifier_under, first_forwarded, is_blank_char,
};

#[test]
fn forwarded_header_gives_first_entry_trimmed() {
    let id = client_identifier(Some("  203.0.113.7 , 10.0.0.1, 10.0.0.2"), Some("192.0.2.1"));
    assert_eq!(id, "203.0.113.7");
}

#[test]
fn forwarded_header_with_one_entry() {
    assert_eq!(client_identifier(Some("198.51.100.4"), None), "198.51.100.4");
    assert_eq!(client_identifier(Some("\t198.51.100.4\r\n"), None), "198.51.100.4");
}

#[test]
fn forwarded_header_wins_over_peer() {
    assert_eq!(client_identifier(Some("a,b"), Some("peer")), "a");
}

#[test]
fn forwarded_header_that_is_present_but_empty() {
    assert_eq!(client_identifier(Some(""), Some("peer")), "");
    assert_eq!(client_identifier(Some("   "), Some("peer")), "");
    assert_eq!(client_identifier(Some(" , 10.0.0.1"), Some("peer")), "");
    assert_eq!(client_identifier(Some(",10.0.0.1"), None), "");
}

#[test]
fn blank_characters_inside_an_entry_stay() {
    assert_eq!(client_identifier(Some(" a b ,c"), None), "a b");
}

#[test]
fn wide_blank_characters_are_trimmed() {
    assert_eq!(first_forwarded("\u{3000}\u{a0}2001:db8::1\u{2003}\u{85},x"), "2001:db8::1");
    assert_eq!(first_forwarded("\u{200b}x\u{200b}"), "\u{200b}x\u{200b}");
}

#[test]
fn characters_of_several_bytes_are_kept_whole() {
    assert_eq!(first_forwarded(" héllo wörld ✓ , next"), "héllo wörld ✓");
}

#[test]
fn peer_address_is_used_without_a_header() {
    assert_eq!(client_identifier(None, Some("192.0.2.1")), "192.0.2.1");
    assert_eq!(client_identifier(None, Some(" 192.0.2.1 ")), " 192.0.2.1 ");
}

#[test]
fn nobody_to_name_gives_the_sentinel() {
    assert_eq!(client_identifier(None, None), "Unknown IP");
}

#[test]
fn blank_characters_are_those_of_the_standard_library() {
    let mut n: u32 = 0;
    while n <= 0x10FFFF {
        if let Some(c) = char::from_u32(n) {
            assert_eq!(is_blank_char(c), c.is_whitespace(), "at {:#x}", n);
        }
        n += 1;
    }
}

#[test]
fn first_entry_agrees_with_split_and_trim() {
    let samples = [
        "",
        ",",
        ",,",
        " ",
        "a",
        " a",
        "a ",
        " a , b ",
        "1.2.3.4,5.6.7.8",
        "\t\n 1.2.3.4 \r\n,\t5.6.7.8",
        "  ,  ",
        "no comma at all   ",
        "\u{2028}x\u{2029},\u{1680}",
    ];
    for s in samples {
        let expected = s.split(',').next().unwrap_or("").trim();
        assert_eq!(first_forwarded(s), expected, "for {:?}", s);
    }
}

#[test]
fn header_that_is_not_trusted_counts_as_absent() {
    assert_eq!(client_identifier_under(false, Some("203.0.113.7"), Some("192.0.2.1")), "192.0.2.1");
    assert_eq!(client_identifier_under(false, Some("203.0.113.7"), None), "Unknown IP");
    assert_eq!(client_identifier_under(false, None, None), "Unknown IP");
}

#[test]
fn header_that_is_trusted_names_the_caller() {
    assert_eq!(
        client_identifier_under(true, Some(" 203.0.113.7, 10.0.0.1"), Some("192.0.2.1")),
        "203.0.113.7"
    );
    assert_eq!(client_identifier_under(true, None, Some("192.0.2.1")), "192.0.2.1");
    assert_eq!(client_identifier_under(true, None, None), "Unknown IP");
}
