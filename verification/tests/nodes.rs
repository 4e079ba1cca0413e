use react_compiler::ast::location::{Position, SourceLocation};
use react_compiler::ast::node::{BaseNode, Comment, CommentData};
use react_compiler::ast::raw_node::{
    from_json_str_unbounded, nullable_value, RawNode, RawNodeError, TypeProbe,
};
use serde_json::Value;

fn object() -> Value {
    let mut fields = serde_json::Map::new();
    fields.insert("type".to_string(), Value::from("TSTypeAnnotation"));
    fields.insert("start".to_string(), Value::from(3));
    fields.insert("rest".to_string(), Value::from(vec![Value::Null, Value::from(true)]));
    Value::Object(fields)
}

#[test]
fn a_value_is_kept_as_compact_json() {
    let node = RawNode::from_value(&object());
    assert_eq!(
        node.get(),
        r#"{"rest":[null,true],"start":3,"type":"TSTypeAnnotation"}"#
    );
    assert_eq!(node.parse_value(), object());
    assert_eq!(node.try_parse_value(), Some(object()));
    assert_eq!(node.clone().get(), node.get());
    assert_eq!(RawNode::from_value(&Value::from("a \"b\"\n")).get(), r#""a \"b\"\n""#);
}

#[test]
fn null_is_a_subtree() {
    let node = RawNode::null();
    assert_eq!(node.get(), "null");
    assert_eq!(node.parse_value(), Value::Null);
    assert_eq!(node.try_parse_value(), Some(Value::Null));
    assert_eq!(RawNode::from_value(&node.parse_value()).get(), "null");
    assert_eq!(from_json_str_unbounded("null").unwrap(), Value::Null);
}

#[test]
fn bytes_are_taken_over_as_text() {
    let node = RawNode::from_json(b" \n[1, 2.50,\"\xc3\xa9\"]\t".to_vec()).unwrap();
    assert_eq!(node.get(), "[1, 2.50,\"é\"]");

    let again = RawNode::from_json(node.get().as_bytes().to_vec()).unwrap();
    assert_eq!(again.get(), node.get());
}

#[test]
fn bytes_that_are_no_json_are_refused() {
    for text in ["", "nul", "{", "[1,]", "1 2", "{a:1}", "01", "\"\n\""] {
        assert!(
            matches!(
                RawNode::from_json(text.as_bytes().to_vec()),
                Err(RawNodeError::Json(_))
            ),
            "{text:?}"
        );
        assert!(matches!(
            nullable_value(text.as_bytes().to_vec()),
            Err(RawNodeError::Json(_))
        ));
    }
    for bytes in [vec![0xff], vec![b'"', 0xc3, b'"'], vec![0xed, 0xa0, 0x80]] {
        assert!(matches!(
            RawNode::from_json(bytes.clone()),
            Err(RawNodeError::Utf8(_))
        ));
        assert!(matches!(nullable_value(bytes), Err(RawNodeError::Utf8(_))));
    }
}

/// A field that is `null` is told from one that is absent.
#[test]
fn a_null_field_is_present() {
    let node = nullable_value(b"null".to_vec()).unwrap();
    assert_eq!(node.unwrap().get(), "null");
    let node = nullable_value(b"{\"a\":1}".to_vec()).unwrap();
    assert_eq!(node.unwrap().get(), "{\"a\":1}");
}

/// Raw text may hold what no value can: a number out of range, half a
/// surrogate pair.
#[test]
fn raw_text_that_does_not_parse() {
    for text in ["1e999", "\"\\ud800\""] {
        let node = RawNode::from_json(text.as_bytes().to_vec()).unwrap();
        assert_eq!(node.get(), text);
        assert_eq!(node.try_parse_value(), None);
    }
}

#[test]
fn parsing_has_no_recursion_limit() {
    let depth = 1000;
    let text = format!("{}{}", "[".repeat(depth), "]".repeat(depth));
    assert!(serde_json::from_str::<Value>(&text).is_err());

    let mut value = from_json_str_unbounded(&text).unwrap();
    let mut levels = 0;
    while let Some(inner) = value.as_array_mut() {
        levels += 1;
        match inner.pop() {
            Some(next) => value = next,
            None => break,
        }
    }
    assert_eq!(levels, depth);
    assert!(from_json_str_unbounded("[").is_err());

    let node = RawNode::from_json(text.into_bytes()).unwrap();
    assert!(node.try_parse_value().is_some());
}

#[test]
fn the_type_of_a_node_is_what_was_found() {
    let found = TypeProbe {
        node_type: Some("Identifier".to_string()),
    };
    assert_eq!(
        RawNode::node_type_name(Ok(found)).as_deref(),
        Some("Identifier")
    );
    assert_eq!(RawNode::node_type_name(Ok(TypeProbe { node_type: None })), None);
    let err = serde_json::from_str::<Value>("{").unwrap_err();
    assert_eq!(RawNode::node_type_name(Err(err)), None);
}

fn is_blank_but_for_the_type(node: &BaseNode) -> bool {
    node.start.is_none()
        && node.end.is_none()
        && node.loc.is_none()
        && node.range.is_none()
        && node.extra.is_none()
        && node.leading_comments.is_none()
        && node.inner_comments.is_none()
        && node.trailing_comments.is_none()
        && node.node_id.is_none()
}

#[test]
fn typed_nodes_state_their_type() {
    let node = BaseNode::typed("BlockStatement");
    assert_eq!(node.node_type.as_deref(), Some("BlockStatement"));
    assert!(is_blank_but_for_the_type(&node));

    let node = BaseNode::default();
    assert_eq!(node.node_type, None);
    assert!(is_blank_but_for_the_type(&node));
}

#[test]
fn clones_of_nodes_have_the_same_content() {
    let position = Position {
        line: 1,
        column: 2,
        index: None,
    };
    let data = CommentData {
        value: " note".to_string(),
        start: Some(4),
        end: None,
        loc: Some(SourceLocation {
            start: position.clone(),
            end: position,
            filename: Some("a.jsx".to_string()),
            identifier_name: None,
        }),
    };
    let mut node = BaseNode::typed("Program");
    node.range = Some((1, 5));
    node.node_id = Some(8);
    node.extra = Some(RawNode::from_value(&object()));
    node.leading_comments = Some(vec![
        Comment::CommentLine(data.clone()),
        Comment::CommentBlock(data),
    ]);
    node.inner_comments = Some(Vec::new());
    assert_eq!(format!("{:?}", node.clone()), format!("{node:?}"));
}
