//! Patch operations on YAML documents, checked through serde_yaml: a
//! document is parsed, converted into the library's value, patched, and
//! serialized again.

use dev_cli::yaml::YamlValue;
use dev_cli::yaml::operations::{Operation, walk};

/// The library's value for a parsed YAML document. Scalars keep their
/// source text, so that serializing restores them.
fn to_value(v: serde_yaml::Value) -> YamlValue {
    match v {
        serde_yaml::Value::Null => YamlValue::Null,
        serde_yaml::Value::Bool(b) => YamlValue::Scalar(if b {
            "true".to_string()
        } else {
            "false".to_string()
        }),
        serde_yaml::Value::Number(n) => YamlValue::Scalar(n.to_string()),
        serde_yaml::Value::String(s) => YamlValue::Scalar(s),
        serde_yaml::Value::Sequence(items) => {
            YamlValue::Sequence(items.into_iter().map(to_value).collect())
        }
        serde_yaml::Value::Mapping(m) => YamlValue::Mapping(
            m.into_iter()
                .map(|(k, v)| (key_text(k), to_value(v)))
                .collect(),
        ),
        serde_yaml::Value::Tagged(t) => to_value(t.value),
    }
}

fn key_text(k: serde_yaml::Value) -> String {
    match k {
        serde_yaml::Value::String(s) => s,
        serde_yaml::Value::Number(n) => n.to_string(),
        serde_yaml::Value::Bool(b) => b.to_string(),
        _ => panic!("unsupported mapping key"),
    }
}

fn from_value(v: YamlValue) -> serde_yaml::Value {
    match v {
        YamlValue::Null => serde_yaml::Value::Null,
        YamlValue::Scalar(s) => serde_yaml::from_str(&s).expect("scalar text parses"),
        YamlValue::Sequence(items) => {
            serde_yaml::Value::Sequence(items.into_iter().map(from_value).collect())
        }
        YamlValue::Mapping(entries) => {
            let mut m = serde_yaml::Mapping::new();
            for (k, v) in entries {
                m.insert(serde_yaml::Value::String(k), from_value(v));
            }
            serde_yaml::Value::Mapping(m)
        }
    }
}

fn parse(text: &str) -> YamlValue {
    to_value(serde_yaml::from_str(text).expect("fixture parses"))
}

fn render(v: YamlValue) -> String {
    serde_yaml::to_string(&from_value(v)).expect("value serializes")
}

#[test]
fn add() {
    let mut value = parse(
        "
a:
  b:
    c: 1
",
    );
    let op = Operation::new("add".into(), "/a/b/d".into(), None, Some("2".into()));
    op.run(&mut value);
    assert_eq!(
        render(value),
        "
a:
  b:
    c: 1
    d: 2
"
        .trim_start(),
    );
}

#[test]
fn remove() {
    let mut value = parse(
        "
a:
  b:
    c: 1
    d: 2
",
    );
    let op = Operation::new("remove".into(), "/a/b/d".into(), None, None);
    op.run(&mut value);
    assert_eq!(
        render(value),
        "
a:
  b:
    c: 1
"
        .trim_start(),
    );
}

#[test]
fn replace() {
    let mut value = parse(
        "
a:
  b:
    c: 1
    d: 2
",
    );
    let op = Operation::new("replace".into(), "/a/b/d".into(), None, Some("3".into()));
    op.run(&mut value);
    assert_eq!(
        render(value),
        "
a:
  b:
    c: 1
    d: 3
"
        .trim_start(),
    );
}

#[test]
fn add_at_top_level() {
    let mut value = parse("x: 1\n");
    let op = Operation::new("add".into(), "/y".into(), None, Some("2".into()));
    op.run(&mut value);
    assert_eq!(render(value), "x: 1\ny: 2\n");
}

#[test]
fn replace_keeps_entry_order() {
    let mut value = parse("a: 1\nb: 2\nc: 3\n");
    let op = Operation::new("replace".into(), "/b".into(), None, Some("9".into()));
    op.run(&mut value);
    assert_eq!(render(value), "a: 1\nb: 9\nc: 3\n");
}

#[test]
fn remove_absent_key_leaves_document() {
    let mut value = parse("a: 1\n");
    let op = Operation::new("remove".into(), "/zzz".into(), None, None);
    op.run(&mut value);
    assert_eq!(render(value), "a: 1\n");
}

#[test]
fn walk_replaces_matching_scalars() {
    let mut value = parse("a: secret\nb:\n- secret\n- other\nc:\n  d: secret\n");
    walk(&mut value, "secret", "");
    assert_eq!(
        render(value),
        "a: something else\nb:\n- something else\n- other\nc:\n  d: something else\n"
    );
}

#[test]
fn walk_leaves_keys_alone() {
    let mut value = parse("secret: 1\n");
    walk(&mut value, "secret", "");
    assert_eq!(render(value), "secret: 1\n");
}
