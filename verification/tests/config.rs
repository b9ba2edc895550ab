use log_config::{Config, ConfigDeser, Error, LogItem, LogItemDeser};

#[test]
fn reserved_slots_are_skipped() {
    // The whole-match slot and the second slot (the timestamp by convention)
    // are skipped even though the second group here is named.
    let lid = LogItemDeser::new(
        String::from("/var/log/disk.log"),
        String::from("(?P<ts>y)(?P<b>z)(?P<c>w)"),
        String::from("disk"),
    )
    .expect("pattern should compile");
    let item = LogItem::try_from(&lid).expect("transformation is infallible");
    assert_eq!(
        item.capture_names(),
        &vec![String::from("b"), String::from("c")]
    );
    assert_eq!(
        item.aliases(),
        &vec![String::from("disk.b"), String::from("disk.c")]
    );
}

#[test]
fn skipping_is_positional_not_by_name() {
    // The rule skips slot 0 (the whole match) and slot 1, whatever slot 1 is
    // called: with a named group ahead of `ts`, the `ts` group lands at slot
    // 2 and is kept.
    let lid = LogItemDeser::new(
        String::from("/var/log/disk.log"),
        String::from("(?P<a>x)(?P<ts>y)(?P<b>z)(?P<c>w)"),
        String::from("disk"),
    )
    .expect("pattern should compile");
    let item = LogItem::try_from(&lid).expect("transformation is infallible");
    assert_eq!(
        item.capture_names(),
        &vec![String::from("ts"), String::from("b"), String::from("c")]
    );
    assert_eq!(
        item.aliases(),
        &vec![
            String::from("disk.ts"),
            String::from("disk.b"),
            String::from("disk.c"),
        ]
    );
}

#[test]
fn no_names_past_reserved_yields_empty() {
    // Two groups, the second unnamed: nothing remains after the reserved
    // slots.
    let lid = LogItemDeser::new(
        String::from("a.log"),
        String::from(r"(\d+) (\w+)"),
        String::from("a"),
    )
    .expect("pattern should compile");
    let item = LogItem::try_from(&lid).expect("transformation is infallible");
    assert!(item.capture_names().is_empty());
    assert!(item.aliases().is_empty());
}

#[test]
fn pattern_without_groups_yields_empty() {
    let lid = LogItemDeser::new(
        String::from("a.log"),
        String::from("no groups here"),
        String::from("a"),
    )
    .expect("pattern should compile");
    let item = LogItem::try_from(&lid).expect("transformation is infallible");
    assert!(item.capture_names().is_empty());
    assert!(item.aliases().is_empty());
}

#[test]
fn unnamed_groups_between_named_ones_are_dropped() {
    let lid = LogItemDeser::new(
        String::from("a.log"),
        String::from("(w)(ts)(?P<first>x)(skip)(?P<second>y)"),
        String::from("m"),
    )
    .expect("pattern should compile");
    let item = LogItem::try_from(&lid).expect("transformation is infallible");
    assert_eq!(
        item.capture_names(),
        &vec![String::from("first"), String::from("second")]
    );
    assert_eq!(
        item.aliases(),
        &vec![String::from("m.first"), String::from("m.second")]
    );
}

#[test]
fn raw_entry_keeps_its_fields() {
    let lid = LogItemDeser::new(
        String::from("/var/log/app.log"),
        String::from("(a)(b)"),
        String::from("app"),
    )
    .expect("pattern should compile");
    assert_eq!(lid.file().as_str(), "/var/log/app.log");
    assert_eq!(lid.pattern().as_str(), "(a)(b)");
    assert_eq!(lid.alias().as_str(), "app");
}

#[test]
fn invalid_pattern_is_rejected() {
    let r = LogItemDeser::new(
        String::from("a.log"),
        String::from("(unclosed"),
        String::from("a"),
    );
    assert!(r.is_none());
}

#[test]
fn load_fails_with_parse_error_carrying_path() {
    let items = vec![(
        String::from("a.log"),
        String::from("(unclosed"),
        String::from("a"),
    )];
    match ConfigDeser::load(items, "/etc/scraper.toml") {
        Ok(_) => panic!("an invalid pattern must fail the load"),
        Err(Error::ConfigParseError(path)) => assert_eq!(path.as_str(), "/etc/scraper.toml"),
        Err(Error::ReadError) => panic!("expected a parse error, not a read error"),
    }
}

#[test]
fn load_keeps_every_decoded_item() {
    let items = vec![
        (
            String::from("a.log"),
            String::from("(x)"),
            String::from("a"),
        ),
        (
            String::from("b.log"),
            String::from("(y)(z)"),
            String::from("b"),
        ),
    ];
    let deser = match ConfigDeser::load(items, "conf.toml") {
        Ok(d) => d,
        Err(_) => panic!("all patterns compile"),
    };
    assert_eq!(deser.get_items().len(), 2);
    assert_eq!(deser.get_items()[0].file().as_str(), "a.log");
    assert_eq!(deser.get_items()[1].alias().as_str(), "b");

    let config = match Config::load(&deser) {
        Ok(c) => c,
        Err(_) => panic!("transformation is infallible"),
    };
    assert_eq!(config.items().len(), 2);
}

#[test]
fn end_to_end_single_entry() {
    let items = vec![(
        String::from("/var/log/app.log"),
        String::from(r"(\d{4}-\d{2}-\d{2}) (?P<level>\w+) (?P<msg>.*)"),
        String::from("app"),
    )];
    let deser = match ConfigDeser::load(items, "conf.toml") {
        Ok(d) => d,
        Err(_) => panic!("the pattern compiles"),
    };
    let config = match Config::load(&deser) {
        Ok(c) => c,
        Err(_) => panic!("transformation is infallible"),
    };
    assert_eq!(config.items().len(), 1);
    let entry = &config.items()[0];
    assert_eq!(entry.file().as_str(), "/var/log/app.log");
    assert_eq!(entry.alias().as_str(), "app");
    assert_eq!(
        entry.capture_names(),
        &vec![String::from("level"), String::from("msg")]
    );
    assert_eq!(
        entry.aliases(),
        &vec![String::from("app.level"), String::from("app.msg")]
    );
    assert_eq!(
        config.all_aliases(),
        &vec![String::from("app.level"), String::from("app.msg")]
    );
}

#[test]
fn all_aliases_keeps_order_and_duplicates() {
    let items = vec![
        (
            String::from("a.log"),
            String::from("(w)(ts)(?P<m>x)(?P<n>y)"),
            String::from("metric"),
        ),
        (
            String::from("b.log"),
            String::from("(w)(ts)(?P<m>x)"),
            String::from("metric"),
        ),
    ];
    let deser = match ConfigDeser::load(items, "conf.toml") {
        Ok(d) => d,
        Err(_) => panic!("all patterns compile"),
    };
    let config = match Config::load(&deser) {
        Ok(c) => c,
        Err(_) => panic!("transformation is infallible"),
    };
    // entry order, then capture order; the duplicate "metric.m" is kept
    assert_eq!(
        config.all_aliases(),
        &vec![
            String::from("metric.m"),
            String::from("metric.n"),
            String::from("metric.m"),
        ]
    );
}

#[test]
fn empty_configuration_loads() {
    let deser = match ConfigDeser::load(Vec::new(), "conf.toml") {
        Ok(d) => d,
        Err(_) => panic!("an empty item list is valid"),
    };
    let config = match Config::load(&deser) {
        Ok(c) => c,
        Err(_) => panic!("transformation is infallible"),
    };
    assert!(config.items().is_empty());
    assert!(config.all_aliases().is_empty());
}

#[test]
fn error_messages_name_the_failure() {
    assert_eq!(
        Error::ReadError.message().as_str(),
        "configuration file could not be read"
    );
    assert_eq!(
        Error::ConfigParseError(String::from("conf.toml"))
            .message()
            .as_str(),
        "configuration file could not be parsed: conf.toml"
    );
}
