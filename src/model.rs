use vstd::prelude::*;

verus! {

/// A schema ready to be associated with a store: its URL, the file-match
/// globs that select the files it applies to, and its raw text.
#[derive(Debug)]
pub struct SchemaData {
    pub url: String,
    pub file_match: Vec<String>,
    pub content: String,
}

/// A schema embedded in the binary, with its file-match list still in its
/// JSON form (an array of strings).
#[derive(Debug)]
pub struct EmbeddedSchemaData {
    pub url: &'static str,
    pub file_match: &'static str,
    pub content: &'static str,
}

} // verus!
