use query_noir::port::parse_port;

#[test]
fn ports_are_read_as_decimal_numbers() {
    assert_eq!(parse_port("0"), Some(0));
    assert_eq!(parse_port("80"), Some(80));
    assert_eq!(parse_port("5432"), Some(5432));
    assert_eq!(parse_port("65535"), Some(65535));
    assert_eq!(parse_port("+3306"), Some(3306));
    assert_eq!(parse_port("0000000000000000000005432"), Some(5432));
}

#[test]
fn other_texts_are_no_ports() {
    for text in ["", "+", "-1", "65536", "99999999999999999999", " 80", "80 ", "8o", "++80", "8+0",
        "\u{663}", "80\u{e9}", "+\u{e9}", "0x50", "1.5"]
    {
        assert_eq!(parse_port(text), None, "{:?}", text);
    }
}

#[test]
fn ports_agree_with_the_standard_parser() {
    for text in ["", "+", "+0", "-0", "7", "+65535", "+65536", "065535", "655350", "12a", "a12",
        "\u{661}\u{662}", "4294967296", "1_000"]
    {
        assert_eq!(parse_port(text), text.parse::<u16>().ok(), "{:?}", text);
    }
}
