//! Parsing of the input text, through the host parsing facility.

use vstd::prelude::*;
use crate::parts::SignatureParts;

verus! {

#[verifier::external_type_specification]
#[verifier::external_body]
pub struct ExSynError(syn::Error);

/// A rejected input: the parser's diagnostic, as rendered message text and as
/// the parser's own error value, which carries the position of the offending
/// token for the host to point at.
#[derive(Debug)]
pub struct ParseError {
    /// The diagnostic message, as the parser rendered it.
    pub message: String,
    /// The parser's error itself, kept opaque and handed back to the host.
    pub cause: syn::Error,
}

/// Relies on syn::parse_str with syn::ForeignItemFn, whose grammar is zero or
/// more outer attributes, a visibility, a function signature and a semicolon,
/// with no body permitted and the whole input consumed. On acceptance the
/// pieces and the identifier are rendered to token text through
/// quote::ToTokens; the host lexes and prints either through the compiler or
/// through proc-macro2's own fallback, decided per process, and the printed
/// spacing is unspecified, so nothing here ties the returned text to the
/// input: callers get their guarantees from what is proved about the returned
/// pieces themselves. On rejection, syn's error is kept whole, beside its
/// rendered message. proc-macro2 pre-validates the text with its own lexer
/// and catches a compiler-side lexer panic, so the call returns on every
/// input.
#[verifier::external_body]
pub(crate) fn parse_declaration(input: &str) -> Result<SignatureParts, ParseError> {
    match syn::parse_str::<syn::ForeignItemFn>(input) {
        Ok(item) => Ok(SignatureParts {
            attrs: item.attrs.iter().map(|a| quote::ToTokens::to_token_stream(a).to_string()).collect(),
            vis: quote::ToTokens::to_token_stream(&item.vis).to_string(),
            sig: quote::ToTokens::to_token_stream(&item.sig).to_string(),
            name: item.sig.ident.to_string(),
        }),
        Err(e) => Err(ParseError { message: e.to_string(), cause: e }),
    }
}

} // verus!
