use jolly::entry::{ConfigValue, EntryType, FieldValue, Keyword, StoreEntry};
use jolly::icon::IconType;

fn field_value(v: toml::Value) -> FieldValue {
    match v {
        toml::Value::String(s) => FieldValue::Str(s),
        toml::Value::Boolean(b) => FieldValue::Bool(b),
        toml::Value::Array(items) => {
            let mut out = Vec::new();
            for it in items {
                match it {
                    toml::Value::String(s) => out.push(s),
                    _ => return FieldValue::Other,
                }
            }
            FieldValue::StrList(out)
        }
        _ => FieldValue::Other,
    }
}

fn config_value(v: toml::Value) -> ConfigValue {
    match v {
        toml::Value::Table(t) => {
            ConfigValue::Table(t.into_iter().map(|(k, f)| (k, field_value(f))).collect())
        }
        _ => ConfigValue::Other,
    }
}

fn parse_entry(text: &str) -> StoreEntry {
    let value: toml::Value = toml::from_str(text).unwrap();

    if let toml::Value::Table(table) = value {
        let (k, v) = table.into_iter().next().unwrap();
        StoreEntry::from_value(k, config_value(v)).unwrap()
    } else {
        panic!("Toml is not a Table")
    }
}

const FULL_KEYWORD_W: u32 = 100;
const PARTIAL_NAME_W: u32 = 3;
const FULL_NAME_W: u32 = 10;
const PARTIAL_TAG_W: u32 = 2;
const STARTSWITH_TAG_W: u32 = 4;
const FULL_TAG_W: u32 = 6;

#[test]
fn case_sensitive() {
    let entry = parse_entry(
        r#"['fOO.txt']
                location = "test/location/asdf.txt"
		tags = ['FOO']"#,
    );

    // if we give a lowercase query, then default case insensitive match
    assert_eq!(entry.score("fo"), STARTSWITH_TAG_W);
    // if we give a
    assert_eq!(entry.score("FO"), STARTSWITH_TAG_W);
    assert_eq!(entry.score("FOO"), FULL_TAG_W);
    assert_eq!(entry.score("fO"), PARTIAL_NAME_W);
}

#[test]
fn non_keword_score() {
    let entry = parse_entry(
        r#"['foo.txt']
                location = "test/location/foo.txt"
		tags = ["foo", "bar", "baz"]"#,
    );

    assert_eq!(entry.score("tx"), PARTIAL_NAME_W);
    assert_eq!(entry.score("foo"), FULL_TAG_W);
    assert_eq!(entry.score("foo.txt"), FULL_NAME_W);

    assert_eq!(entry.score("ba"), STARTSWITH_TAG_W);
    assert_eq!(entry.score("az"), PARTIAL_TAG_W);

    assert_eq!(entry.score("baz"), FULL_TAG_W);
    assert_eq!(entry.score("bar fo"), STARTSWITH_TAG_W);
    assert_eq!(entry.score("bar az"), PARTIAL_TAG_W);
    assert_eq!(entry.score(""), 0);
}

#[test]
fn keword_score() {
    let entry = parse_entry(
        r#"['foo.txt']
                location = "test/location/foo.txt"
                keyword = "y"
		tags = ["foo", "bar", "baz"]"#,
    );

    // if you dont use a keyword, score normally
    assert_eq!(entry.score("fo"), STARTSWITH_TAG_W);

    // otherwise get big bonus for using keyword
    assert_eq!(entry.score("y foo"), FULL_KEYWORD_W);
}

struct ExpectedEntry {
    name: &'static str,
    description: Option<&'static str>,
    entry: EntryType,
    tags: Vec<String>,
    icon_type: IconType,
}

fn assert_entry_matches(entry: &StoreEntry, expected: &ExpectedEntry) {
    assert_eq!(entry.name(), expected.name);
    assert_eq!(
        entry.description(),
        &expected.description.map(str::to_string)
    );
    assert!(matches!(entry.keyword(), Keyword::NoKeyword));
    assert_eq!(entry.entry_type(), &expected.entry);
    assert_eq!(entry.tags(), &expected.tags);
    assert!(!entry.icon_loaded());
    assert_eq!(entry.icontype(), &expected.icon_type);
}

#[test]
fn parse_single_file_entry() {
    let pairs = [
        (
            r#"['foo.txt']
		    tags = ["foo", 'bar', 'baz']
                    description = "asdf"
                    location = "test/location""#,
            ExpectedEntry {
                name: "foo.txt",
                description: Some("asdf"),
                entry: EntryType::FileEntry("test/location".to_string()),
                tags: ["foo", "bar", "baz"].into_iter().map(str::to_string).collect(),
                icon_type: IconType::file("test/location".to_string()),
            },
        ),
        (
            r#"['foo.txt']
                    location = "test/location""#,
            ExpectedEntry {
                name: "foo.txt",
                description: None,
                entry: EntryType::FileEntry("test/location".to_string()),
                tags: Vec::new(),
                icon_type: IconType::file("test/location".to_string()),
            },
        ),
        (
            r#"['foo.txt']
                    location = "tel:12345""#,
            ExpectedEntry {
                name: "foo.txt",
                description: None,
                entry: EntryType::FileEntry("tel:12345".to_string()),
                tags: Vec::new(),
                icon_type: IconType::url("tel:12345").unwrap(),
            },
        ),
        (
            r#"['test/location/foo.txt']
		    tags = ["foo", 'bar', 'baz']"#,
            ExpectedEntry {
                name: "test/location/foo.txt",
                description: None,
                entry: EntryType::FileEntry("test/location/foo.txt".to_string()),
                tags: ["foo", "bar", "baz"].into_iter().map(str::to_string).collect(),
                icon_type: IconType::file("test/location/foo.txt".to_string()),
            },
        ),
        (
            r#"['foo.txt']
                    description = "asdf""#,
            ExpectedEntry {
                name: "foo.txt",
                description: Some("asdf"),
                entry: EntryType::FileEntry("foo.txt".to_string()),
                tags: Vec::new(),
                icon_type: IconType::file("foo.txt".to_string()),
            },
        ),
        (
            r#"['foo.txt']
                    desc = "asdf""#,
            ExpectedEntry {
                name: "foo.txt",
                description: Some("asdf"),
                entry: EntryType::FileEntry("foo.txt".to_string()),
                tags: Vec::new(),
                icon_type: IconType::file("foo.txt".to_string()),
            },
        ),
        (
            r#"['foo.txt']
                   icon = "asdf.png""#,
            ExpectedEntry {
                name: "foo.txt",
                description: None,
                entry: EntryType::FileEntry("foo.txt".to_string()),
                tags: Vec::new(),
                icon_type: IconType::custom("asdf.png".to_string()),
            },
        ),
    ];

    for (toml, expected_entry) in pairs {
        let entry = parse_entry(toml);
        assert_entry_matches(&entry, &expected_entry);
    }
}

#[test]
fn system_entry() {
    let dir = tempfile::tempdir().unwrap();
    let dirname = dir.path().to_string_lossy();
    let toml = format!(
        r#"['{}']
                    system = 'foo bar'
		    tags = ["foo", 'bar', 'baz']"#,
        dirname
    );
    let entry = parse_entry(&toml);

    assert_eq!(entry.name(), &dirname.to_string());
    assert_eq!(entry.description(), &None);
    assert!(matches!(entry.keyword(), Keyword::NoKeyword));
    assert_eq!(
        entry.entry_type(),
        &EntryType::SystemEntry("foo bar".to_string())
    );
    assert_eq!(
        entry.tags(),
        &["foo", "bar", "baz"]
            .into_iter()
            .map(str::to_string)
            .collect::<Vec<_>>()
    );
    assert!(!entry.icon_loaded());
    assert_eq!(entry.icontype(), &IconType::file("foo bar".to_string()));
}

#[test]
fn single_dir_entry() {
    let dir = tempfile::tempdir().unwrap();
    let dirname = dir.path().to_string_lossy();
    let toml = format!(
        r#"['{}']
		    tags = ["foo", 'bar', 'baz']"#,
        dirname
    );
    let entry = parse_entry(&toml);

    assert_eq!(entry.name(), &dirname.to_string());
    assert_eq!(entry.description(), &None);
    assert!(matches!(entry.keyword(), Keyword::NoKeyword));
    assert_eq!(
        entry.entry_type(),
        &EntryType::FileEntry(dirname.to_string())
    );
    assert_eq!(
        entry.tags(),
        &["foo", "bar", "baz"]
            .into_iter()
            .map(str::to_string)
            .collect::<Vec<_>>()
    );
    assert!(!entry.icon_loaded());
    assert_eq!(entry.icontype(), &IconType::file(dirname.to_string()));
}

#[test]
fn keyword_search_results() {
    let mut entry = parse_entry(
        r#"['name:%s']
                location = "file/%s""#,
    );

    let raw: Keyword = Keyword::RawKeyword(String::new());
    let escaped: Keyword = Keyword::EscapedKeyword(String::new());
    let none: Keyword = Keyword::NoKeyword;

    let tests = [
        (&raw, "a b", "name:b", "file/b"),
        (&raw, "a B", "name:B", "file/B"),
        (&raw, "a b c", "name:b c", "file/b c"),
        (&escaped, "a b", "name:b", "file/b"),
        (&escaped, "a b c", "name:b c", "file/b%20c"),
        (&none, "a b", "name:%s", "file/%s"),
    ];

    for (entry_type, searchtext, formatted_name, formatted_selection) in tests {
        entry.set_keyword(entry_type.clone());

        assert_eq!(
            formatted_name,
            entry.format_name(searchtext),
            r#"formatted_name:"{}" -> "{}" failed: "#,
            searchtext,
            formatted_name
        );

        assert_eq!(
            formatted_selection,
            entry.format_selection(searchtext),
            r#"format_selection:"{}" -> "{}" failed: "#,
            searchtext,
            formatted_selection
        );
    }
}

#[test]
fn test_format() {
    let tests = [
        ("%s", "a", "a"),
        ("test %s", "a", "test a"),
        ("%%s", "a", "%s"),
        ("%%%s", "a", "%a"),
        ("%s", "a a", "a a"),
    ];

    for test in tests {
        assert_eq!(
            test.2,
            jolly::format_param(test.0, test.1),
            r#"format("{}", "{}") -> "{}" failed: "#,
            test.0,
            test.1,
            test.2
        );
    }
}

#[test]
fn test_paragraph_parser() {
    let succeses = [
        "",
        "test string",
        r"2

            paragraphs",
        r"    pre",
    ];

    for s in succeses {
        assert!(
            jolly::markdown::desc_to_paragraphs(s).is_some(),
            "could not parse {}",
            s
        );
    }
}

#[test]
fn test_keyword_icontypes_are_parsed() {
    let entry = parse_entry(
        r#"['a']
               location = 'http://example.com/%s'
               keyword = 'a'
               "#,
    );

    assert_eq!(
        entry.icontype(),
        &IconType::url("http://example.com/").unwrap()
    );

    let entry = parse_entry(
        r#"['a']
               location = '%s.txt'
               keyword = 'a'
               "#,
    );

    assert_eq!(entry.icontype(), &IconType::file(".txt".to_string()));
}

#[test]
fn conflicting_targets_are_rejected() {
    let value: toml::Value = toml::from_str(
        r#"['a']
               location = 'x'
               url = 'http://example.com'"#,
    )
    .unwrap();
    if let toml::Value::Table(table) = value {
        let (k, v) = table.into_iter().next().unwrap();
        let r = StoreEntry::from_value(k, config_value(v));
        assert!(matches!(r, Err(jolly::entry::Error::ConflictError(_))));
    } else {
        panic!("Toml is not a Table")
    }
}

#[test]
fn doubled_description_is_rejected() {
    let value: toml::Value = toml::from_str(
        r#"['a']
               description = 'x'
               desc = 'y'"#,
    )
    .unwrap();
    if let toml::Value::Table(table) = value {
        let (k, v) = table.into_iter().next().unwrap();
        let r = StoreEntry::from_value(k, config_value(v));
        assert!(matches!(r, Err(jolly::entry::Error::ParseError(_))));
    } else {
        panic!("Toml is not a Table")
    }
}

#[test]
fn launch_action_matches_entry_type() {
    let entry = parse_entry(
        r#"['doc']
               location = "file/%s"
               keyword = "d"
               escape = true"#,
    );
    assert_eq!(
        entry.handle_selection("d a b"),
        jolly::entry::LaunchAction::OpenFile("file/a%20b".to_string())
    );

    let entry = parse_entry(
        r#"['cmd']
               system = "run %s"
               keyword = "c""#,
    );
    assert_eq!(
        entry.handle_selection("c now"),
        jolly::entry::LaunchAction::RunCommand("run now".to_string())
    );
}
