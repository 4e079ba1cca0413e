//! Nodes and raw subtrees.

#![allow(unused_imports)]

use vstd::prelude::*;

use crate::ast::node::{BaseNode, Comment, CommentData};
use crate::ast::raw_node::{
    from_json_str_unbounded, nullable_value, RawNode, RawNodeError, TypeProbe,
};

verus! {

/// A node made for output states its type, and has no other field.
pub proof fn law_typed_node(node_type: &str, node: BaseNode)
    requires
        call_ensures(BaseNode::typed, (node_type,), node),
    ensures
        node.node_type matches Some(text) && text@ == node_type@,
        node.start is None,
        node.end is None,
        node.loc is None,
        node.range is None,
        node.extra is None,
        node.leading_comments is None,
        node.inner_comments is None,
        node.trailing_comments is None,
        node.node_id is None,
{
}

/// A default node has no field.
pub proof fn law_default_node(node: BaseNode)
    requires
        call_ensures(<BaseNode as Default>::default, (), node),
    ensures
        node.node_type is None,
        node.start is None,
        node.end is None,
        node.loc is None,
        node.range is None,
        node.extra is None,
        node.leading_comments is None,
        node.inner_comments is None,
        node.trailing_comments is None,
        node.node_id is None,
{
}

/// A clone of a node has its fields.
pub proof fn law_cloned_node(node: BaseNode, clone: BaseNode)
    requires
        call_ensures(<BaseNode as Clone>::clone, (&node,), clone),
    ensures
        clone.node_type == node.node_type,
        clone.start == node.start,
        clone.end == node.end,
        clone.loc == node.loc,
        clone.range == node.range,
        clone.node_id == node.node_id,
        clone.extra is Some <==> node.extra is Some,
        node.extra matches Some(extra) ==> clone.extra->0@ == extra@,
        clone.leading_comments is Some <==> node.leading_comments is Some,
        node.leading_comments matches Some(list) ==> clone.leading_comments->0@ == list@,
        clone.inner_comments is Some <==> node.inner_comments is Some,
        node.inner_comments matches Some(list) ==> clone.inner_comments->0@ == list@,
        clone.trailing_comments is Some <==> node.trailing_comments is Some,
        node.trailing_comments matches Some(list) ==> clone.trailing_comments->0@ == list@,
{
}

/// A clone of a comment is that comment.
pub proof fn law_cloned_comment(
    data: CommentData,
    data_clone: CommentData,
    comment: Comment,
    comment_clone: Comment,
)
    requires
        call_ensures(<CommentData as Clone>::clone, (&data,), data_clone),
        call_ensures(<Comment as Clone>::clone, (&comment,), comment_clone),
    ensures
        data_clone == data,
        comment_clone == comment,
{
}

/// A subtree reads as the JSON text of the value that it is made from.
pub proof fn law_subtree_of_value(value: serde_json::Value, node: RawNode, text: &str)
    requires
        call_ensures(RawNode::from_value, (&value,), node),
        call_ensures(RawNode::get, (&node,), text),
    ensures
        text@ == crate::ast::raw_node::value_text(&value),
        crate::ast::raw_node::raw_json(text@) == Some(text@),
{
}

/// A clone of a subtree reads as the subtree does, and has the same value.
pub proof fn law_cloned_subtree(
    node: RawNode,
    clone: RawNode,
    text: &str,
    clone_text: &str,
    value: Option<serde_json::Value>,
    clone_value: Option<serde_json::Value>,
)
    requires
        call_ensures(<RawNode as Clone>::clone, (&node,), clone),
        call_ensures(RawNode::get, (&node,), text),
        call_ensures(RawNode::get, (&clone,), clone_text),
        call_ensures(RawNode::try_parse_value, (&node,), value),
        call_ensures(RawNode::try_parse_value, (&clone,), clone_value),
    ensures
        clone_text@ == text@,
        clone_value == value,
{
}

/// The subtree `null` reads as `null`, and its value is written `null` again.
pub proof fn law_null_subtree(
    node: RawNode,
    text: &str,
    value: Option<serde_json::Value>,
    again: RawNode,
    again_text: &str,
)
    requires
        call_ensures(RawNode::null, (), node),
        call_ensures(RawNode::get, (&node,), text),
        call_ensures(RawNode::try_parse_value, (&node,), value),
        value is Some ==> call_ensures(RawNode::from_value, (&value->0,), again),
        call_ensures(RawNode::get, (&again,), again_text),
    ensures
        text@ == "null"@,
        value is Some,
        again_text@ == "null"@,
{
}

/// Bytes are taken over as the JSON text that they decode to, and that text is
/// kept unchanged from then on. They are refused as bytes where they are not
/// UTF-8, and as text where they decode to something other than JSON.
pub proof fn law_subtree_of_bytes(json: Vec<u8>, res: Result<RawNode, RawNodeError>, text: &str)
    requires
        call_ensures(RawNode::from_json, (json,), res),
        res matches Ok(node) ==> call_ensures(RawNode::get, (&node,), text),
    ensures
        res is Ok <==> vstd::utf8::valid_utf8(json@) && crate::ast::raw_node::raw_json(
            vstd::utf8::decode_utf8(json@),
        ) is Some,
        res is Ok ==> crate::ast::raw_node::raw_json(vstd::utf8::decode_utf8(json@)) == Some(text@),
        res is Ok ==> crate::ast::raw_node::raw_json(text@) == Some(text@),
        res matches Err(err) ==> (err is Utf8 <==> !vstd::utf8::valid_utf8(json@)),
{
}

/// The text of a subtree, taken as bytes, gives a subtree of the same text.
pub proof fn law_subtree_reads_back(
    json: Vec<u8>,
    node: RawNode,
    written: Vec<u8>,
    again: Result<RawNode, RawNodeError>,
)
    requires
        call_ensures(RawNode::from_json, (json,), Ok::<RawNode, RawNodeError>(node)),
        written@ == vstd::utf8::encode_utf8(node@),
        call_ensures(RawNode::from_json, (written,), again),
    ensures
        again matches Ok(same) && same@ == node@,
{
    crate::ast::raw_node::lemma_json_text_reads_back(node);
    broadcast use vstd::utf8::encode_utf8_valid_utf8, vstd::utf8::encode_utf8_decode_utf8;

}

/// A field that is present has a value, `null` or not: what `nullable_value`
/// gives is never nothing. It is the subtree that `from_json` gives, and it
/// fails where that fails, for the same reason.
pub proof fn law_nullable_value(
    json: Vec<u8>,
    same: Vec<u8>,
    field: Result<Option<RawNode>, RawNodeError>,
    subtree: Result<RawNode, RawNodeError>,
)
    requires
        same@ == json@,
        call_ensures(nullable_value, (json,), field),
        call_ensures(RawNode::from_json, (same,), subtree),
    ensures
        match (field, subtree) {
            (Ok(present), Ok(node)) => present matches Some(found) && found@ == node@,
            (Err(field_err), Err(err)) => field_err is Utf8 <==> err is Utf8,
            _ => false,
        },
        vstd::utf8::valid_utf8(json@) && vstd::utf8::decode_utf8(json@) == "null"@ ==> (
        field matches Ok(Some(found)) && found@ == "null"@),
{
}

/// Looking inside a subtree parses its text without a depth limit, in whichever
/// way it is done.
pub proof fn law_parsing_has_no_depth_limit(
    node: RawNode,
    text: &str,
    parsed: Result<serde_json::Value, serde_json::Error>,
    tried: Option<serde_json::Value>,
    value: serde_json::Value,
)
    requires
        call_ensures(RawNode::get, (&node,), text),
        call_ensures(from_json_str_unbounded, (text,), parsed),
        call_ensures(RawNode::try_parse_value, (&node,), tried),
        parsed is Ok ==> call_ensures(RawNode::parse_value, (&node,), value),
    ensures
        tried == crate::ast::raw_node::parsed_value(text@, None),
        parsed is Ok <==> tried is Some,
        parsed matches Ok(read) ==> tried == Some(read) && value == read,
{
}

/// The type of a node is what was found; nothing was found where the text could
/// not be read.
pub proof fn law_node_type_name(
    found: TypeProbe,
    err: serde_json::Error,
    of_found: Option<String>,
    of_err: Option<String>,
)
    requires
        call_ensures(
            RawNode::node_type_name,
            (Ok::<TypeProbe, serde_json::Error>(found),),
            of_found,
        ),
        call_ensures(
            RawNode::node_type_name,
            (Err::<TypeProbe, serde_json::Error>(err),),
            of_err,
        ),
    ensures
        of_found == found.node_type,
        of_err is None,
{
}

} // verus!
