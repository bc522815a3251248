//! Token streams: the form in which generated code is handed on.

use core::str::FromStr;
use vstd::prelude::*;

verus! {

/// `proc_macro2::TokenStream`: a sequence of token trees. Nothing inside it
/// is visible to the proofs.
#[verifier::external_type_specification]
#[verifier::external_body]
pub struct ExTokenStream(proc_macro2::TokenStream);

/// `proc_macro2::LexError`: the error of a text that is no sequence of
/// tokens. Nothing inside it is visible to the proofs.
#[verifier::external_type_specification]
#[verifier::external_body]
pub struct ExLexError(proc_macro2::LexError);

/// Calls `<proc_macro2::TokenStream as FromStr>::from_str`, which lexes a
/// text into tokens. Nothing is claimed of the outcome: the lexer of
/// `proc_macro2` decides it, and inside a macro expansion the compiler's
/// lexer has to accept the text as well. The call returns for every text:
/// the compiler's lexer is only run on what the other has accepted, and a
/// panic of it is caught and comes back as an error.
#[verifier::external_body]
pub(crate) fn lex(text: &str) -> (lexed: Result<proc_macro2::TokenStream, proc_macro2::LexError>) {
    proc_macro2::TokenStream::from_str(text)
}

} // verus!
