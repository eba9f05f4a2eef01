//! A signature transformer. It takes the text of one bare function
//! declaration — outer attributes, an optional visibility qualifier, a
//! function signature, a terminating semicolon, no body — and emits the text
//! of a complete definition: the parsed pieces re-emitted verbatim and in
//! source order, followed by a body whose sole statement panics with
//! `not implemented: <name>`, where `<name>` is the declared function's
//! identifier. Input that does not match the grammar is rejected with the
//! parser's own diagnostic, and no output is produced.
//!
//! The host parsing facility also renders each piece to token text, and its
//! printer's spacing is unspecified and may differ between processes. The
//! contracts therefore promise nothing about the piece text itself; they fix
//! the output exactly in terms of the pieces that came back, which `unimpl`
//! returns beside it.

use vstd::prelude::*;

mod parse;
mod parts;
mod render;

pub use parse::ParseError;
pub use parts::SignatureParts;
pub use parts::SignaturePartsView;
pub use render::build_fail_message;
pub use render::fail_body;
pub use render::fail_message;
pub use render::lemma_body_carries_message;
pub use render::lemma_fail_message_exact;
pub use render::lemma_identity_preservation;
pub use render::lemma_render_deterministic;
pub use render::render_definition;
pub use render::rendered_attrs;
pub use render::rendered_declaration;
pub use render::rendered_definition;
pub use render::rendered_vis;

verus! {

/// The transformer's product on an accepted input: the pieces the parser
/// returned, and the definition rendered from them.
#[derive(Debug)]
pub struct Transformed {
    /// The parsed pieces, exactly as the parser handed them back.
    pub parts: SignatureParts,
    /// The emitted definition: the pieces verbatim and in order, then the
    /// failing body.
    pub output: String,
}

/// The transformer: hands the input text to the parser and, when it accepts
/// one bare declaration, emits the definition with the failing body. Whatever
/// pieces the parser returned, the output is exactly their rendering: every
/// piece verbatim and in source order, with the body appended and nothing
/// else. When the parser rejects, its diagnostic comes back instead — the
/// rendered message and the parser's own positioned error — and no output is
/// produced.
pub fn unimpl(item: &str) -> (r: Result<Transformed, ParseError>)
    ensures
        r matches Ok(t) ==> t.output@ == render::rendered_definition(t.parts@),
{
    match parse::parse_declaration(item) {
        Ok(parts) => {
            let output = render::render_definition(&parts);
            Ok(Transformed { parts, output })
        },
        Err(e) => Err(e),
    }
}

} // verus!
