use vstd::prelude::*;
use crate::config::views;
use crate::model::{EmbeddedSchemaData, SchemaData};

verus! {

#[verifier::external_type_specification]
#[verifier::external_body]
pub struct ExJsonError(serde_json::Error);

/// The strings of a text that serde_json reads as an array of strings, in
/// order; `None` for a text that it does not read so.
pub uninterp spec fn json_string_array(text: Seq<char>) -> Option<Seq<Seq<char>>>;

/// Relies on serde_json::from_str for `Vec<String>`: succeeds on a JSON array
/// of strings, and gives its strings in order.
#[verifier::external_body]
fn parse_string_array(text: &str) -> (r: Result<Vec<String>, serde_json::Error>)
    ensures
        r is Ok <==> json_string_array(text@) is Some,
        r matches Ok(v) ==> json_string_array(text@) == Some(views(v@)),
{
    serde_json::from_str::<Vec<String>>(text)
}

/// An embedded catalog entry whose file-match list is not a JSON array of strings.
#[derive(Clone, Debug)]
pub struct CatalogError {
    pub index: usize,
    pub url: String,
}

/// `d` is what preparing `e` gives.
pub open spec fn prepared_as(d: SchemaData, e: EmbeddedSchemaData) -> bool {
    &&& d.url@ == e.url@
    &&& d.content@ == e.content@
    &&& json_string_array(e.file_match@) == Some(views(d.file_match@))
}

/// Turns an embedded entry into schema data: the URL and content as they
/// are, the file-match list read from its JSON form.
pub fn prepare_entry(e: &EmbeddedSchemaData) -> (r: Option<SchemaData>)
    ensures
        r is Some <==> json_string_array(e.file_match@) is Some,
        r matches Some(d) ==> prepared_as(d, *e),
{
    match parse_string_array(e.file_match) {
        Ok(file_match) => Some(SchemaData {
            url: e.url.to_owned(),
            file_match,
            content: e.content.to_owned(),
        }),
        Err(_) => None,
    }
}

/// Prepares every entry of the catalog, in order; the first entry whose
/// file-match list does not read is the error.
pub fn prepare_catalog(entries: &[EmbeddedSchemaData]) -> (r: Result<Vec<SchemaData>, CatalogError>)
    ensures
        r is Ok <==> forall|i: int| 0 <= i < entries@.len() ==> (json_string_array(#[trigger] entries@[i].file_match@) is Some),
        r matches Ok(ds) ==> ds@.len() == entries@.len()
            && forall|i: int| 0 <= i < ds@.len() ==> prepared_as(#[trigger] ds@[i], entries@[i]),
        r matches Err(err) ==> {
            &&& err.index < entries@.len()
            &&& json_string_array(entries@[err.index as int].file_match@) is None
            &&& err.url@ == entries@[err.index as int].url@
        },
{
    let mut ds: Vec<SchemaData> = Vec::new();
    let mut i: usize = 0;
    while i < entries.len()
        invariant
            i <= entries@.len(),
            ds@.len() == i,
            forall|j: int| 0 <= j < i ==> prepared_as(#[trigger] ds@[j], entries@[j]),
        decreases entries@.len() - i,
    {
        match prepare_entry(&entries[i]) {
            Some(d) => ds.push(d),
            None => {
                return Err(CatalogError { index: i, url: entries[i].url.to_owned() });
            },
        }
        i = i + 1;
    }
    proof {
        assert forall|j: int| 0 <= j < entries@.len() implies (json_string_array(#[trigger] entries@[j].file_match@) is Some) by {
            assert(prepared_as(ds@[j], entries@[j]));
        }
    }
    Ok(ds)
}

} // verus!
