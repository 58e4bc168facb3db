//! A struct declaration, read from source text with `syn`.
use vstd::prelude::*;

verus! {

#[verifier::external_type_specification]
#[verifier::external_body]
pub struct ExSynError(syn::Error);

/// Whether the word `struct` occurs somewhere in `source`.
pub open spec fn mentions_struct(source: Seq<char>) -> bool {
    exists|i: int| 0 <= i && i + 6 <= source.len() && #[trigger] source.subrange(i, i + 6) == "struct"@
}

/// Relies on `syn::parse_str::<syn::ItemStruct>` to read the text as one
/// struct declaration, and on the `Display` of the parsed `syn::Ident` for the
/// struct's name. Whether the text is accepted, and how the name is spelt,
/// depend on the lexer that `proc_macro2` picks at run time (the compiler's
/// inside a procedural macro, its own elsewhere). Of every outcome this
/// holds: a declaration is accepted only after the parser has read the
/// keyword `struct` from the text, and an identifier is never empty.
#[verifier::external_body]
fn parse_struct_name(source: &str) -> (r: Result<String, syn::Error>)
    ensures
        r is Ok ==> mentions_struct(source@),
        r is Ok ==> r->Ok_0@.len() > 0,
{
    syn::parse_str::<syn::ItemStruct>(source).map(|item| item.ident.to_string())
}

/// Relies on the `Display` of `syn::Error` for the text of a parse error.
#[verifier::external_body]
fn error_message(e: &syn::Error) -> (r: String) {
    e.to_string()
}

/// The input is not one struct declaration.
#[derive(Clone, Debug, PartialEq, Eq)]
pub struct ParseError {
    /// What the parser reported.
    pub message: String,
}

/// A struct declaration: its source text, kept verbatim, and its identifier.
#[derive(Clone, Debug, PartialEq, Eq)]
pub struct StructDeclaration {
    /// The identifier of the struct.
    pub name: String,
    /// The declaration exactly as it was given.
    pub source: String,
}

impl StructDeclaration {
    /// Reads `source` as one struct declaration (named fields, tuple fields
    /// or unit), keeping the text as it was given and the identifier that the
    /// parser reports. Any other text, an enum or a function among them, is a
    /// `ParseError`; so, always, is text without the word `struct`.
    pub fn parse(source: &str) -> (r: Result<StructDeclaration, ParseError>)
        ensures
            r is Ok ==> r->Ok_0.source@ == source@,
            r is Ok ==> r->Ok_0.name@.len() > 0,
            !mentions_struct(source@) ==> r is Err,
    {
        match parse_struct_name(source) {
            Ok(name) => Ok(StructDeclaration { name, source: String::from_str(source) }),
            Err(e) => Err(ParseError { message: error_message(&e) }),
        }
    }
}

} // verus!
