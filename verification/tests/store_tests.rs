use jolly::entry::{ConfigValue, Error, FieldValue};
use jolly::store::Store;

fn field_value(v: toml::Value) -> FieldValue {
    match v {
        toml::Value::String(s) => FieldValue::Str(s),
        toml::Value::Boolean(b) => FieldValue::Bool(b),
        toml::Value::Array(items) => {
            let mut out = Vec::new();
            for it in items {
                match it {
                    toml::Value::String(s) => out.push(s),
                    _ => return FieldValue::Other,
                }
            }
            FieldValue::StrList(out)
        }
        _ => FieldValue::Other,
    }
}

fn config_value(v: toml::Value) -> ConfigValue {
    match v {
        toml::Value::Table(t) => {
            ConfigValue::Table(t.into_iter().map(|(k, f)| (k, field_value(f))).collect())
        }
        _ => ConfigValue::Other,
    }
}

fn parse_store(text: &str) -> Result<Store, Error> {
    let value: toml::Value = toml::from_str(text).unwrap();

    if let toml::Value::Table(table) = value {
        Store::build(
            table
                .into_iter()
                .map(|(k, v)| (k, config_value(v)))
                .collect(),
        )
    } else {
        panic!("Toml is not a Table")
    }
}

#[test]
fn parse_empty_file() {
    let store = parse_store("").unwrap();
    assert_eq!(store.len(), 0)
}

#[test]
fn find_entries() {
    let toml = r#"['foo']
		      tags = ["foo", 'bar', 'quu']
                      location = "test/location"

                      ['asdf']
                      tags = ["bar", "quux"]
                      location = "test/location""#;

    let store = parse_store(toml).unwrap();

    let tests = [
        ("fo", vec!["foo"]),
        ("foo", vec!["foo"]),
        ("bar", vec!["asdf", "foo"]), // all things being equal, prefer "newer" entries
        ("asd", vec!["asdf"]),
        ("asdf", vec!["asdf"]),
        ("quu", vec!["foo", "asdf"]), // since quu is a full match for foo entry, it ranks higher
        ("quux", vec!["asdf"]),
        ("", vec![]),
    ];

    for (query, results) in tests {
        let matches = store.find_matches(query);
        assert_eq!(
            results.len(),
            matches.len(),
            "test: {} -> {:?}",
            query,
            results
        );

        for (id, expected_name) in matches.iter().zip(results.iter()) {
            let entry = store.get(*id);
            assert_eq!(
                &entry.format_name(query),
                expected_name,
                "lscore: {} query: {}",
                entry.score(query),
                query
            );
        }
    }
}

#[test]
fn bare_keys_not_allowed() {
    let toml = r#"bare_key = 42"#;
    let text = parse_store(toml);
    assert!(matches!(text, Err(Error::BareKeyError(_))), "{:?}", text)
}

#[test]
fn parse_error() {
    let tests = [
        r#"['asdf']
               location = 1"#,
        r#"['asdf']
               url = 1"#,
        r#"['asdf']
               system = 1"#,
        r#"['asdf']
               keyword = 1"#,
        r#"['asdf']
               escape = 1"#,
        r#"['asdf']
               tags = 1"#,
        r#"['asdf']
               tags = 'foo'"#,
    ];

    for toml in tests {
        assert!(matches!(parse_store(&toml), Err(Error::ParseError(_))));
    }
}

#[test]
fn displayed_entries_get_icon_requests() {
    let toml = r#"['foo']
                      location = "http://a.com/%s"

                      ['fob']
                      location = "http://b.com/%s""#;
    let store = parse_store(toml).unwrap();
    let mut cache = jolly::icon::IconCache::new();
    cache.register_worker();

    let ids = store.find_matches("fo");
    assert_eq!(ids.len(), 2);
    store.request_icons(&ids, &mut cache);

    // both entries share the http scheme, so one request covers them
    let sent = cache.take_requests();
    assert_eq!(sent.len(), 1);
    assert_eq!(sent[0], jolly::icon::IconType::url("http://a.com/").unwrap());

    // asking again for the same rows queues nothing new
    store.request_icons(&ids, &mut cache);
    assert!(cache.take_requests().is_empty());
}

#[test]
fn first_failing_entry_aborts_build() {
    let toml = r#"['ok']
                      location = "somewhere"

                      ['broken']
                      location = 1"#;
    assert!(matches!(parse_store(toml), Err(Error::ParseError(_))));
}
