use yoink::config::{Config, RunnerConfig};
use yoink::errors::ParseFault;
use yoink::parse::parse_descriptor;

fn parse(text: &str) -> Result<Config, ParseFault> {
    parse_descriptor(&text.as_bytes().to_vec())
}

#[test]
fn parses_bytes_descriptor() {
    let c = parse("[target]\nstyle = \"bytes\"\npath = \"./blob.bin\"\n").unwrap();
    match &c.target.style {
        RunnerConfig::Bytes(b) => assert_eq!(b.path, b"./blob.bin".to_vec()),
        _ => panic!("wrong style selected"),
    }
}

#[test]
fn parses_dconf_descriptor_with_exclude() {
    let c = parse(
        "[target]\nstyle = \"dconf\"\npath = \"user.db\"\nexclude = [\"a.\", \"b.\"]\n",
    )
    .unwrap();
    match &c.target.style {
        RunnerConfig::Dconf(d) => {
            assert_eq!(d.path, b"user.db".to_vec());
            assert_eq!(d.exclude, vec![b"a.".to_vec(), b"b.".to_vec()]);
        },
        _ => panic!("wrong style selected"),
    }
}

#[test]
fn parses_dconf_descriptor_without_exclude() {
    let c = parse("[target]\nstyle = \"dconf\"\npath = \"user.db\"\n").unwrap();
    match &c.target.style {
        RunnerConfig::Dconf(d) => assert!(d.exclude.is_empty()),
        _ => panic!("wrong style selected"),
    }
}

#[test]
fn tolerates_blank_lines_comments_and_spacing() {
    let c = parse(
        "\n# a comment\n  [target]  \r\n\n  style   =   \"bytes\"  \npath=\"x\"\n# end\n",
    )
    .unwrap();
    match &c.target.style {
        RunnerConfig::Bytes(b) => assert_eq!(b.path, b"x".to_vec()),
        _ => panic!("wrong style selected"),
    }
}

#[test]
fn tolerates_empty_exclude_array_and_trailing_comma() {
    let c = parse("[target]\nstyle = \"dconf\"\npath = \"p\"\nexclude = [ ]\n").unwrap();
    match &c.target.style {
        RunnerConfig::Dconf(d) => assert!(d.exclude.is_empty()),
        _ => panic!("wrong style selected"),
    }
    let c = parse("[target]\nstyle = \"dconf\"\npath = \"p\"\nexclude = [\"a\", ]\n").unwrap();
    match &c.target.style {
        RunnerConfig::Dconf(d) => assert_eq!(d.exclude, vec![b"a".to_vec()]),
        _ => panic!("wrong style selected"),
    }
}

#[test]
fn missing_section_is_reported() {
    assert!(matches!(parse(""), Err(ParseFault::MissingSection)));
    assert!(matches!(parse("# only a comment\n"), Err(ParseFault::MissingSection)));
}

#[test]
fn missing_style_and_path_are_reported() {
    assert!(matches!(parse("[target]\npath = \"p\"\n"), Err(ParseFault::MissingStyle)));
    assert!(matches!(parse("[target]\nstyle = \"bytes\"\n"), Err(ParseFault::MissingPath)));
}

#[test]
fn unknown_style_is_reported() {
    assert!(matches!(
        parse("[target]\nstyle = \"tar\"\npath = \"p\"\n"),
        Err(ParseFault::UnknownStyle)
    ));
}

#[test]
fn unknown_section_and_key_are_reported() {
    assert!(matches!(parse("[other]\n"), Err(ParseFault::UnknownSection)));
    assert!(matches!(
        parse("[target]\nstyle = \"bytes\"\npath = \"p\"\ncolor = \"red\"\n"),
        Err(ParseFault::UnknownKey)
    ));
}

#[test]
fn duplicates_are_reported() {
    assert!(matches!(parse("[target]\n[target]\n"), Err(ParseFault::DuplicateSection)));
    assert!(matches!(
        parse("[target]\nstyle = \"bytes\"\nstyle = \"bytes\"\npath = \"p\"\n"),
        Err(ParseFault::DuplicateKey)
    ));
    assert!(matches!(
        parse("[target]\nstyle = \"bytes\"\npath = \"p\"\npath = \"q\"\n"),
        Err(ParseFault::DuplicateKey)
    ));
}

#[test]
fn key_before_section_is_reported() {
    assert!(matches!(parse("style = \"bytes\"\n"), Err(ParseFault::KeyOutsideSection)));
}

#[test]
fn bad_lines_and_values_are_reported() {
    assert!(matches!(parse("[target]\nnonsense\n"), Err(ParseFault::BadLine)));
    assert!(matches!(
        parse("[target]\nstyle = bytes\npath = \"p\"\n"),
        Err(ParseFault::BadString)
    ));
    assert!(matches!(
        parse("[target]\nstyle = \"by\\\"tes\"\npath = \"p\"\n"),
        Err(ParseFault::BadString)
    ));
    assert!(matches!(
        parse("[target]\nstyle = \"dconf\"\npath = \"p\"\nexclude = \"a\"\n"),
        Err(ParseFault::BadArray)
    ));
    assert!(matches!(
        parse("[target]\nstyle = \"dconf\"\npath = \"p\"\nexclude = [\"a\" \"b\"]\n"),
        Err(ParseFault::BadArray)
    ));
}

#[test]
fn exclude_with_bytes_style_is_rejected() {
    assert!(matches!(
        parse("[target]\nstyle = \"bytes\"\npath = \"p\"\nexclude = [\"a\"]\n"),
        Err(ParseFault::ExcludeNotAllowed)
    ));
}
