use vstd::prelude::*;

verus! {

/// The answer of the search endpoint.
pub struct NcbiResponse {
    pub esearchresult: ESearchResult,
}

/// The result part of a search answer: the matching record identifiers, in the
/// order the remote API gave them, and their total count as text.
pub struct ESearchResult {
    pub idlist: Vec<String>,
    pub count: String,
}

/// The answer of the fetch endpoint in the structured-record format.
pub struct NcbiEfetchResponse {
    pub gbseq: Vec<GBSeq>,
}

/// One structured sequence record.
pub struct GBSeq {
    pub length: String,
    pub organism: String,
    pub sequence: String,
    pub create_date: String,
    pub references: Vec<GBReference>,
}

/// One literature reference of a record.
pub struct GBReference {
    pub authors: Option<Vec<String>>,
}

/// A record in the sequence format.
pub struct FastaResponse {
    pub header: String,
    pub sequence: String,
}

} // verus!
