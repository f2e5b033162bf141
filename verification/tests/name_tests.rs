use golem_components::name::{
    empty_checked, split_segments, ComponentIdentifier, ParseError, SegmentKind,
};

type Parts = (Option<String>, Option<String>, String);

fn id(account: Option<&str>, project: Option<&str>, name: &str) -> Parts {
    (account.map(|s| s.to_string()), project.map(|s| s.to_string()), name.to_string())
}

fn parse(raw: &str) -> Result<Parts, ParseError> {
    ComponentIdentifier::parse(raw).map(|parsed| parsed.into_parts())
}

fn missing(kind: SegmentKind) -> Result<Parts, ParseError> {
    Err(ParseError::MissingSegment { kind })
}

#[test]
fn split_three_segments() {
    assert_eq!(
        split_segments("acct/proj/name"),
        vec!["acct".to_string(), "proj".to_string(), "name".to_string()]
    );
}

#[test]
fn split_keeps_empty_segments() {
    assert_eq!(split_segments(""), vec!["".to_string()]);
    assert_eq!(split_segments("/"), vec!["".to_string(), "".to_string()]);
    assert_eq!(split_segments("/foo"), vec!["".to_string(), "foo".to_string()]);
    assert_eq!(split_segments("proj/"), vec!["proj".to_string(), "".to_string()]);
    assert_eq!(
        split_segments("a//b"),
        vec!["a".to_string(), "".to_string(), "b".to_string()]
    );
}

#[test]
fn split_counts_characters_not_bytes() {
    assert_eq!(
        split_segments("tö/名前/ñ"),
        vec!["tö".to_string(), "名前".to_string(), "ñ".to_string()]
    );
}

#[test]
fn parse_one_segment_is_the_component() {
    assert_eq!(parse("name"), Ok(id(None, None, "name")));
}

#[test]
fn parse_two_segments_are_project_and_component() {
    assert_eq!(
        parse("proj/name"),
        Ok(id(None, Some("proj"), "name"))
    );
}

#[test]
fn parse_three_segments_are_account_project_and_component() {
    assert_eq!(
        parse("acct/proj/name"),
        Ok(id(Some("acct"), Some("proj"), "name"))
    );
}

#[test]
fn parse_keeps_colons_and_other_characters() {
    assert_eq!(
        parse("my-proj/example:counter"),
        Ok(id(None, Some("my-proj"), "example:counter"))
    );
}

#[test]
fn parse_rejects_four_and_more_segments() {
    assert_eq!(
        parse("a/b/c/d"),
        Err(ParseError::MalformedIdentifier)
    );
    assert_eq!(
        parse("a/b/c/d/e"),
        Err(ParseError::MalformedIdentifier)
    );
    assert_eq!(
        parse("///"),
        Err(ParseError::MalformedIdentifier)
    );
}

#[test]
fn parse_empty_text_misses_the_component() {
    assert_eq!(parse(""), missing(SegmentKind::Component));
}

#[test]
fn parse_names_the_role_of_the_empty_segment() {
    assert_eq!(parse("/foo"), missing(SegmentKind::Project));
    assert_eq!(parse("proj/"), missing(SegmentKind::Component));
    assert_eq!(parse("/proj/name"), missing(SegmentKind::Account));
    assert_eq!(parse("acct//name"), missing(SegmentKind::Project));
    assert_eq!(parse("acct/proj/"), missing(SegmentKind::Component));
}

#[test]
fn parse_names_the_leftmost_of_several_empty_segments() {
    assert_eq!(parse("/"), missing(SegmentKind::Project));
    assert_eq!(parse("//"), missing(SegmentKind::Account));
    assert_eq!(parse("a//"), missing(SegmentKind::Project));
    assert_eq!(parse("//n"), missing(SegmentKind::Account));
}

#[test]
fn identifier_round_trips_through_text() {
    let raw = "acct/proj/name";
    let parsed = ComponentIdentifier::parse(raw).unwrap();
    assert_eq!(parsed.to_string(), raw);
    for raw in ["name", "proj/name", "a/b/c", "x:y", "p/x:y"] {
        assert_eq!(ComponentIdentifier::parse(raw).unwrap().to_string(), raw);
    }
}

#[test]
fn identifier_gives_its_segments() {
    let parsed = ComponentIdentifier::parse("acct/proj/name").unwrap();
    assert_eq!(parsed.account(), Some(&"acct".to_string()));
    assert_eq!(parsed.project(), Some(&"proj".to_string()));
    assert_eq!(parsed.name(), "name");
    let parsed = ComponentIdentifier::parse("name").unwrap();
    assert_eq!(parsed.account(), None);
    assert_eq!(parsed.project(), None);
    assert_eq!(parsed.name(), "name");
}

#[test]
fn empty_checked_passes_what_is_not_empty() {
    assert_eq!(
        empty_checked(SegmentKind::Account, "acct".to_string()),
        Ok("acct".to_string())
    );
    assert_eq!(
        empty_checked(SegmentKind::Account, String::new()),
        Err(ParseError::MissingSegment { kind: SegmentKind::Account })
    );
    assert_eq!(
        empty_checked(SegmentKind::Project, String::new()),
        Err(ParseError::MissingSegment { kind: SegmentKind::Project })
    );
}
