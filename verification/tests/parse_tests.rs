use ledstrip_core::color::ColorCommand;
use ledstrip_core::parse::parse_color_bytes;

#[test]
fn plain_object_parses() {
    let r = parse_color_bytes(b"{\"r\":10,\"g\":20,\"b\":30}");
    assert_eq!(r, Some(ColorCommand::new(10, 20, 30)));
}

#[test]
fn spaces_and_tabs_between_tokens_parse() {
    let r = parse_color_bytes(b"  { \"r\" :\t10 , \"g\" : 20 , \"b\" : 30 }  ");
    assert_eq!(r, Some(ColorCommand::new(10, 20, 30)));
}

#[test]
fn channel_bounds_are_inclusive() {
    assert_eq!(
        parse_color_bytes(b"{\"r\":0,\"g\":0,\"b\":0}"),
        Some(ColorCommand::new(0, 0, 0))
    );
    assert_eq!(
        parse_color_bytes(b"{\"r\":255,\"g\":255,\"b\":255}"),
        Some(ColorCommand::new(255, 255, 255))
    );
}

#[test]
fn value_just_out_of_range_is_refused() {
    assert_eq!(parse_color_bytes(b"{\"r\":256,\"g\":0,\"b\":0}"), None);
    assert_eq!(parse_color_bytes(b"{\"r\":0,\"g\":300,\"b\":0}"), None);
    assert_eq!(parse_color_bytes(b"{\"r\":0,\"g\":0,\"b\":999}"), None);
}

#[test]
fn four_digit_value_is_refused() {
    assert_eq!(parse_color_bytes(b"{\"r\":1000,\"g\":0,\"b\":0}"), None);
}

#[test]
fn leading_zeros_are_refused() {
    assert_eq!(parse_color_bytes(b"{\"r\":007,\"g\":0,\"b\":0}"), None);
    assert_eq!(parse_color_bytes(b"{\"r\":01,\"g\":0,\"b\":0}"), None);
}

#[test]
fn missing_field_is_refused() {
    assert_eq!(parse_color_bytes(b"{\"r\":10,\"g\":20}"), None);
    assert_eq!(parse_color_bytes(b"{}"), None);
}

#[test]
fn fields_in_any_order_parse() {
    let expected = Some(ColorCommand::new(10, 20, 30));
    assert_eq!(parse_color_bytes(b"{\"g\":20,\"r\":10,\"b\":30}"), expected);
    assert_eq!(parse_color_bytes(b"{\"b\":30,\"g\":20,\"r\":10}"), expected);
    assert_eq!(parse_color_bytes(b"{\"b\":30,\"r\":10,\"g\":20}"), expected);
}

#[test]
fn repeated_key_is_refused() {
    assert_eq!(parse_color_bytes(b"{\"r\":10,\"r\":20,\"b\":30}"), None);
    assert_eq!(parse_color_bytes(b"{\"g\":1,\"g\":2,\"g\":3}"), None);
}

#[test]
fn other_key_is_refused() {
    assert_eq!(parse_color_bytes(b"{\"r\":10,\"g\":20,\"a\":30}"), None);
}

#[test]
fn json_whitespace_between_tokens_parses() {
    assert_eq!(
        parse_color_bytes(b"{\r\n\"r\": 1,\r\n\"g\": 2,\r\n\"b\": 3\r\n}"),
        Some(ColorCommand::new(1, 2, 3))
    );
    assert_eq!(
        parse_color_bytes(b"{\"r\":1,\"g\":2,\"b\":3}\r"),
        Some(ColorCommand::new(1, 2, 3))
    );
}

#[test]
fn non_json_is_refused() {
    assert_eq!(parse_color_bytes(b"not json"), None);
    assert_eq!(parse_color_bytes(b""), None);
    assert_eq!(parse_color_bytes(b"   "), None);
}

#[test]
fn trailing_content_is_refused() {
    assert_eq!(parse_color_bytes(b"{\"r\":1,\"g\":2,\"b\":3}x"), None);
}

#[test]
fn missing_value_is_refused() {
    assert_eq!(parse_color_bytes(b"{\"r\":,\"g\":2,\"b\":3}"), None);
    assert_eq!(parse_color_bytes(b"{\"r\":-1,\"g\":2,\"b\":3}"), None);
}

#[test]
fn unterminated_object_is_refused() {
    assert_eq!(parse_color_bytes(b"{\"r\":1,\"g\":2,\"b\":3"), None);
}
