use vstd::prelude::*;

verus! {

/// A value that source text can spell out.
#[derive(Debug, Clone, PartialEq)]
pub enum Literal {
    Boolean(bool),
    /// A number, by the bits of its double-precision value.
    Number(u64),
    String(String),
}

} // verus!
