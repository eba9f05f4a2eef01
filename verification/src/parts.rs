//! The parsed form of one bare function declaration.

use vstd::prelude::*;

verus! {

/// The pieces of one parsed function declaration, each held as plain token
/// text in the spelling the host printer chose. The transformer never
/// interprets them: it re-emits every piece verbatim and in source order,
/// and reads only `name`.
#[derive(Debug)]
pub struct SignatureParts {
    /// The outer attributes, in source order.
    pub attrs: Vec<String>,
    /// The visibility qualifier; empty when the declaration has none.
    pub vis: String,
    /// The signature: `fn` through the return type and where-clause.
    pub sig: String,
    /// The function's bare identifier, exactly as written.
    pub name: String,
}

/// The mathematical value of a `SignatureParts`: each piece as a sequence of
/// characters.
pub struct SignaturePartsView {
    pub attrs: Seq<Seq<char>>,
    pub vis: Seq<char>,
    pub sig: Seq<char>,
    pub name: Seq<char>,
}

impl View for SignatureParts {
    type V = SignaturePartsView;

    open spec fn view(&self) -> SignaturePartsView {
        SignaturePartsView {
            attrs: self.attrs@.map_values(|a: String| a@),
            vis: self.vis@,
            sig: self.sig@,
            name: self.name@,
        }
    }
}

} // verus!
