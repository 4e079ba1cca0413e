//! The fields that every node has.

use vstd::prelude::*;

use crate::ast::location::SourceLocation;
use crate::ast::raw_node::RawNode;

verus! {

/// A comment.
#[derive(Debug)]
pub enum Comment {
    CommentBlock(CommentData),
    CommentLine(CommentData),
}

/// The text of a comment and where it stands.
#[derive(Debug)]
pub struct CommentData {
    pub value: String,
    pub start: Option<u32>,
    pub end: Option<u32>,
    pub loc: Option<SourceLocation>,
}

/// The fields that every node has.
#[derive(Debug)]
pub struct BaseNode {
    /// The node type, such as "BlockStatement", where it is not given by the
    /// variant that holds the node. Nodes made for output state it: they are
    /// made by `BaseNode::typed`.
    pub node_type: Option<String>,
    pub start: Option<u32>,
    pub end: Option<u32>,
    pub loc: Option<SourceLocation>,
    pub range: Option<(u32, u32)>,
    pub extra: Option<RawNode>,
    pub leading_comments: Option<Vec<Comment>>,
    pub inner_comments: Option<Vec<Comment>>,
    pub trailing_comments: Option<Vec<Comment>>,
    pub node_id: Option<u32>,
}

impl Clone for CommentData {
    fn clone(&self) -> (res: Self)
        ensures
            res == *self,
    {
        CommentData {
            value: self.value.clone(),
            start: self.start,
            end: self.end,
            loc: self.loc.clone(),
        }
    }
}

impl Clone for Comment {
    fn clone(&self) -> (res: Self)
        ensures
            res == *self,
    {
        match self {
            Comment::CommentBlock(data) => Comment::CommentBlock(data.clone()),
            Comment::CommentLine(data) => Comment::CommentLine(data.clone()),
        }
    }
}

/// The comments in order, where there are any.
pub open spec fn comment_list(comments: Option<Vec<Comment>>) -> Option<Seq<Comment>> {
    match comments {
        Some(comments) => Some(comments@),
        None => None,
    }
}

/// The JSON text of an optional subtree.
pub open spec fn optional_json(node: Option<RawNode>) -> Option<Seq<char>> {
    match node {
        Some(node) => Some(node@),
        None => None,
    }
}

impl Clone for BaseNode {
    fn clone(&self) -> (res: Self)
        ensures
            res.node_type == self.node_type,
            res.start == self.start,
            res.end == self.end,
            res.loc == self.loc,
            res.range == self.range,
            optional_json(res.extra) == optional_json(self.extra),
            comment_list(res.leading_comments) == comment_list(self.leading_comments),
            comment_list(res.inner_comments) == comment_list(self.inner_comments),
            comment_list(res.trailing_comments) == comment_list(self.trailing_comments),
            res.node_id == self.node_id,
    {
        let res = BaseNode {
            node_type: self.node_type.clone(),
            start: self.start,
            end: self.end,
            loc: self.loc.clone(),
            range: self.range,
            extra: self.extra.clone(),
            leading_comments: self.leading_comments.clone(),
            inner_comments: self.inner_comments.clone(),
            trailing_comments: self.trailing_comments.clone(),
            node_id: self.node_id,
        };
        assert(res.leading_comments is Some ==> res.leading_comments->0@
            =~= self.leading_comments->0@);
        assert(res.inner_comments is Some ==> res.inner_comments->0@ =~= self.inner_comments->0@);
        assert(res.trailing_comments is Some ==> res.trailing_comments->0@
            =~= self.trailing_comments->0@);
        res
    }
}

impl Default for BaseNode {
    /// A node of which nothing is known.
    fn default() -> (res: Self)
        ensures
            res == (BaseNode {
                node_type: None,
                start: None,
                end: None,
                loc: None,
                range: None,
                extra: None,
                leading_comments: None,
                inner_comments: None,
                trailing_comments: None,
                node_id: None,
            }),
    {
        BaseNode {
            node_type: None,
            start: None,
            end: None,
            loc: None,
            range: None,
            extra: None,
            leading_comments: None,
            inner_comments: None,
            trailing_comments: None,
            node_id: None,
        }
    }
}

impl BaseNode {
    /// A node of the given type, of which nothing else is known.
    pub fn typed(node_type: &str) -> (res: Self)
        ensures
            res.node_type matches Some(text) && text@ == node_type@,
            res == (BaseNode {
                node_type: res.node_type,
                start: None,
                end: None,
                loc: None,
                range: None,
                extra: None,
                leading_comments: None,
                inner_comments: None,
                trailing_comments: None,
                node_id: None,
            }),
    {
        BaseNode { node_type: Some(node_type.to_string()), ..BaseNode::default() }
    }
}

} // verus!
