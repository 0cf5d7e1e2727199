use typed_routes::resource::{parse, ParseError, ResourceType};

#[test]
fn parse_accepts_type1() {
    assert_eq!(parse("Type1"), Ok(ResourceType::Type1));
}

#[test]
fn parse_accepts_type2() {
    assert_eq!(parse("Type2"), Ok(ResourceType::Type2));
}

#[test]
fn parse_rejects_unknown_name() {
    assert_eq!(parse("Bogus"), Err(ParseError::NoMatchingVariant));
}

#[test]
fn parse_rejects_wrong_case() {
    assert_eq!(parse("type1"), Err(ParseError::NoMatchingVariant));
    assert_eq!(parse("TYPE2"), Err(ParseError::NoMatchingVariant));
}

#[test]
fn parse_rejects_empty_segment() {
    assert_eq!(parse(""), Err(ParseError::NoMatchingVariant));
}

#[test]
fn parse_rejects_padded_name() {
    assert_eq!(parse("Type1 "), Err(ParseError::NoMatchingVariant));
    assert_eq!(parse(" Type2"), Err(ParseError::NoMatchingVariant));
}

#[test]
fn display_is_the_variant_name() {
    assert_eq!(ResourceType::Type1.display(), "Type1");
    assert_eq!(ResourceType::Type2.display(), "Type2");
}

#[test]
fn display_after_parse_round_trips() {
    for name in ["Type1", "Type2"] {
        let parsed = parse(name).unwrap();
        assert_eq!(parsed.display(), name);
    }
}
