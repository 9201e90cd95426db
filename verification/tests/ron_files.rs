//! Whole loads against a file kept in memory, with the text of the record
//! written and read by `ron`.

use bot_config::{Action, BotConfig, ConfigError, Event, Loader, PrettyLayout};
use ron::ser::PrettyConfig;
use serde::de::{Deserialize, Deserializer, Error, IgnoredAny, MapAccess, SeqAccess, Visitor};
use serde::ser::{Serialize, SerializeStruct, Serializer};
use std::fmt;

/// The record as `ron` sees it: a struct named `BotConfig` with the one
/// field `token`.
struct Record {
    token: String,
}

impl Serialize for Record {
    fn serialize<S: Serializer>(&self, serializer: S) -> Result<S::Ok, S::Error> {
        let mut fields = serializer.serialize_struct("BotConfig", 1)?;
        fields.serialize_field("token", &self.token)?;
        fields.end()
    }
}

enum Field {
    Token,
    Other,
}

struct FieldVisitor;

impl<'de> Visitor<'de> for FieldVisitor {
    type Value = Field;

    fn expecting(&self, out: &mut fmt::Formatter) -> fmt::Result {
        out.write_str("field identifier")
    }

    fn visit_str<E: Error>(self, name: &str) -> Result<Field, E> {
        Ok(if name == "token" { Field::Token } else { Field::Other })
    }

    fn visit_bytes<E: Error>(self, name: &[u8]) -> Result<Field, E> {
        Ok(if name == b"token" { Field::Token } else { Field::Other })
    }
}

impl<'de> Deserialize<'de> for Field {
    fn deserialize<D: Deserializer<'de>>(deserializer: D) -> Result<Field, D::Error> {
        deserializer.deserialize_identifier(FieldVisitor)
    }
}

struct RecordVisitor;

impl<'de> Visitor<'de> for RecordVisitor {
    type Value = Record;

    fn expecting(&self, out: &mut fmt::Formatter) -> fmt::Result {
        out.write_str("struct BotConfig")
    }

    fn visit_seq<A: SeqAccess<'de>>(self, mut items: A) -> Result<Record, A::Error> {
        match items.next_element()? {
            Some(token) => Ok(Record { token }),
            None => Err(A::Error::invalid_length(0, &"struct BotConfig with 1 element")),
        }
    }

    fn visit_map<A: MapAccess<'de>>(self, mut entries: A) -> Result<Record, A::Error> {
        let mut token: Option<String> = None;
        while let Some(field) = entries.next_key()? {
            match field {
                Field::Token => {
                    if token.is_some() {
                        return Err(A::Error::duplicate_field("token"));
                    }
                    token = Some(entries.next_value()?);
                }
                Field::Other => {
                    entries.next_value::<IgnoredAny>()?;
                }
            }
        }
        match token {
            Some(token) => Ok(Record { token }),
            None => Err(A::Error::missing_field("token")),
        }
    }
}

impl<'de> Deserialize<'de> for Record {
    fn deserialize<D: Deserializer<'de>>(deserializer: D) -> Result<Record, D::Error> {
        deserializer.deserialize_struct("BotConfig", &["token"], RecordVisitor)
    }
}

fn serialize(config: &BotConfig, layout: PrettyLayout) -> Result<String, String> {
    let pretty = PrettyConfig::new()
        .depth_limit(layout.depth_limit)
        .separate_tuple_members(layout.separate_tuple_members)
        .enumerate_arrays(layout.enumerate_arrays);
    let record = Record { token: config.token.clone() };
    ron::ser::to_string_pretty(&record, pretty).map_err(|e| format!("{:?}", e))
}

fn parse(text: &str) -> Result<BotConfig, String> {
    match ron::de::from_reader::<_, Record>(text.as_bytes()) {
        Ok(record) => Ok(BotConfig { token: record.token }),
        Err(e) => Err(e.to_string()),
    }
}

/// A place for one file. `writable` says whether a file can be created.
struct Disk {
    file: Option<String>,
    writable: bool,
}

/// Runs a load to its end, doing on `disk` what the loader asks for.
fn load(path: &str, disk: &mut Disk) -> Result<BotConfig, ConfigError> {
    let (mut loader, mut action) = Loader::begin(path.to_string());
    loop {
        let event = match action {
            Action::Open(at) => {
                assert_eq!(at, path);
                if disk.file.is_some() { Event::Opened } else { Event::OpenFailed }
            }
            Action::Parse => match parse(disk.file.as_ref().unwrap()) {
                Ok(config) => Event::Parsed(config),
                Err(why) => Event::ParseFailed(why),
            },
            Action::Create(at) => {
                assert_eq!(at, path);
                if disk.writable {
                    disk.file = Some(String::new());
                    Event::Created
                } else {
                    Event::CreateFailed("Permission denied (os error 13)".to_string())
                }
            }
            Action::Serialize(config, layout) => match serialize(&config, layout) {
                Ok(text) => Event::Serialized(text),
                Err(why) => Event::SerializeFailed(why),
            },
            Action::Write(text) => {
                disk.file = Some(text);
                Event::Written
            }
            Action::Finish(result) => return result,
        };
        action = match loader.step(event) {
            Some(next) => next,
            None => panic!("the loader refused the outcome of what it asked for"),
        };
    }
}

#[test]
fn missing_file_is_created_blank() {
    let mut disk = Disk { file: None, writable: true };
    let error = load("config.ron", &mut disk).unwrap_err();
    assert!(matches!(&error, ConfigError::Created { path } if path == "config.ron"));
    assert_eq!(error.message(), "Created empty config file at config.ron");
    assert_eq!(disk.file.as_deref(), Some("(\n    token: \"\",\n)"));
}

#[test]
fn created_file_loads_with_empty_token() {
    let mut disk = Disk { file: None, writable: true };
    assert!(load("config.ron", &mut disk).is_err());
    let config = load("config.ron", &mut disk).unwrap();
    assert_eq!(config.token, "");
}

#[test]
fn existing_file_is_parsed() {
    let mut disk = Disk { file: Some("(token: \"abc123\")".to_string()), writable: true };
    let config = load("config.ron", &mut disk).unwrap();
    assert_eq!(config.token, "abc123");
}

#[test]
fn existing_file_is_left_as_it_is() {
    let text = "// my settings\nBotConfig(\n  token: \"abc123\", // secret\n)\n";
    let mut disk = Disk { file: Some(text.to_string()), writable: true };
    let config = load("config.ron", &mut disk).unwrap();
    assert_eq!(config.token, "abc123");
    assert_eq!(disk.file.as_deref(), Some(text));
}

#[test]
fn truncated_file_is_fatal() {
    let text = "(token: \"abc";
    let mut disk = Disk { file: Some(text.to_string()), writable: true };
    let error = load("config.ron", &mut disk).unwrap_err();
    let why = parse(text).unwrap_err();
    assert!(!why.is_empty());
    assert!(matches!(&error, ConfigError::ParseFailed { why: w } if *w == why));
    assert!(error.is_fault());
    assert!(error.message().contains("Failed to load config"));
    assert_eq!(error.message(), format!("Failed to load config: {}", why));
    assert_eq!(disk.file.as_deref(), Some(text));
}

#[test]
fn corrupt_files_are_fatal_and_untouched() {
    for text in ["", "token", "(token: 5)", "(secret: \"x\")", "(token: \"a\""] {
        let mut disk = Disk { file: Some(text.to_string()), writable: true };
        let error = load("config.ron", &mut disk).unwrap_err();
        assert!(matches!(&error, ConfigError::ParseFailed { .. }), "{:?}", text);
        assert!(error.message().starts_with("Failed to load config: "), "{:?}", text);
        assert_eq!(disk.file.as_deref(), Some(text));
    }
}

#[test]
fn missing_file_in_a_place_without_access() {
    let mut disk = Disk { file: None, writable: false };
    let error = load("config.ron", &mut disk).unwrap_err();
    assert_eq!(
        error.message(),
        "couldn't create config.ron: Permission denied (os error 13)"
    );
    assert!(disk.file.is_none());
}

#[test]
fn text_of_a_record_parses_back_to_it() {
    let tokens = [
        "",
        "abc123",
        "with space",
        "quote\" and \\ backslash",
        "line\nbreak\tand tab",
        "ünïcödé ✓",
        "(token: \"nested\")",
        "// not a comment",
    ];
    for token in tokens {
        let config = BotConfig { token: token.to_string() };
        let text = serialize(&config, PrettyLayout::config_file()).unwrap();
        let back = parse(&text).unwrap();
        assert_eq!(back.token, token);
    }
}

#[test]
fn text_of_a_record_in_the_config_file_layout() {
    let config = BotConfig { token: "abc123".to_string() };
    let text = serialize(&config, PrettyLayout::config_file()).unwrap();
    assert_eq!(text, "(\n    token: \"abc123\",\n)");
}
