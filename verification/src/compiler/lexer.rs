//! Lexical analysis of a Tortuga process description, given as a YAML document.
use vstd::prelude::*;

verus! {

/// A YAML value, as the `serde_yaml` crate represents it.
#[verifier::external_type_specification]
#[verifier::external_body]
pub struct ExYamlValue(serde_yaml::Value);

/// Whether the bytes hold one well-formed YAML document.
pub uninterp spec fn is_yaml_document(bytes: Seq<u8>) -> bool;

/// Deserializes the bytes, through `serde_yaml::from_reader`, into a YAML value. The result
/// is present exactly when the bytes hold a YAML document, which depends on the bytes alone;
/// what the value holds is left unsaid.
#[verifier::external_body]
fn parse_yaml(bytes: &[u8]) -> (r: Option<serde_yaml::Value>)
    ensures
        r is Some <==> is_yaml_document(bytes@),
{
    serde_yaml::from_reader::<&[u8], serde_yaml::Value>(bytes).ok()
}

/// Type of tokens for Tortuga.
#[derive(Debug, Eq, PartialEq)]
pub enum TokenKind {
    Yaml(serde_yaml::Value),
}

/// Lexicographical tokens for Tortuga.
#[derive(Debug, Eq, PartialEq)]
pub struct Token {
    pub kind: TokenKind,
}

/// Splits the bytes of a process description into tokens: a single YAML token when the
/// bytes hold a YAML document, and no token otherwise.
pub fn tokenize(input: &[u8]) -> (r: Vec<Token>)
    ensures
        is_yaml_document(input@) ==> r@.len() == 1 && r@[0].kind is Yaml,
        !is_yaml_document(input@) ==> r@.len() == 0,
{
    match parse_yaml(input) {
        Some(value) => vec![Token { kind: TokenKind::Yaml(value) }],
        None => Vec::new(),
    }
}

} // verus!
