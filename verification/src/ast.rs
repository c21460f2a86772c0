//! The parsed form of a ZBR script.
use vstd::prelude::*;

verus! {

/// A node of a parsed script.
#[derive(Debug)]
pub enum Node {
    /// A call of the function `name` with its arguments.
    FunctionCall { name: String, args: Vec<Node> },
    StringLiteral(String),
    /// Parts whose texts are joined.
    Concat(Vec<Node>),
}

} // verus!
