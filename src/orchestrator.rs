use vstd::prelude::*;
use crate::api::{build_efetch_url, build_esearch_url, efetch_url, esearch_url};
use crate::errors::ApiError;
use crate::models::NcbiResponse;

verus! {

/// A logical request of a caller, with its single parameter.
pub enum Operation {
    /// Search record identifiers by organism name.
    SearchByOrganism(String),
    /// Search record identifiers by author name.
    SearchByAuthor(String),
    /// Fetch the two views of one record.
    FetchDetails(String),
}

/// The remote calls an operation needs.
#[derive(Debug)]
pub enum Plan {
    /// One search call.
    Search { url: String },
    /// Two independent fetches of one record: structured record and sequence.
    Details { genbank_url: String, fasta_url: String },
}

/// What a successful operation yields.
#[derive(Debug)]
pub enum FetchResult {
    /// Record identifiers, in the order the remote API gave them.
    Ids(Vec<String>),
    /// The two raw documents of one record, passed through unparsed.
    Details { genbank: String, fasta: String },
}

/// The detail carried by the error for an empty parameter.
pub open spec fn empty_input_detail() -> Seq<char> {
    "query must be non-empty"@
}

impl Operation {
    /// The query text or record identifier.
    pub open spec fn param(&self) -> Seq<char> {
        match self {
            Operation::SearchByOrganism(q) => q@,
            Operation::SearchByAuthor(q) => q@,
            Operation::FetchDetails(id) => id@,
        }
    }

    /// The record field a search is restricted to.
    pub open spec fn search_field(&self) -> Seq<char> {
        match self {
            Operation::SearchByAuthor(_) => "Author"@,
            _ => "Organism"@,
        }
    }

    /// Whether `r` is the outcome of planning this operation: an empty parameter
    /// is refused before any call; a search makes one call, a detail fetch two.
    pub open spec fn planned(&self, r: Result<Plan, ApiError>) -> bool {
        match r {
            Ok(Plan::Search { url }) => {
                &&& self.param().len() > 0
                &&& !(self is FetchDetails)
                &&& url@ == esearch_url(self.param(), self.search_field())
            },
            Ok(Plan::Details { genbank_url, fasta_url }) => {
                &&& self.param().len() > 0
                &&& self is FetchDetails
                &&& genbank_url@ == efetch_url(self.param(), "gb"@)
                &&& fasta_url@ == efetch_url(self.param(), "fasta"@)
            },
            Err(ApiError::InvalidInput(msg)) => {
                &&& self.param().len() == 0
                &&& msg@ == empty_input_detail()
            },
            Err(_) => false,
        }
    }

    /// The remote calls this operation makes, or the input error that stops it
    /// before any call.
    pub fn plan(&self) -> (r: Result<Plan, ApiError>)
        ensures
            self.planned(r),
    {
        match self {
            Operation::SearchByOrganism(q) => {
                if q.as_str().is_empty() {
                    return Err(ApiError::InvalidInput(String::from_str("query must be non-empty")));
                }
                Ok(Plan::Search { url: build_esearch_url(q.as_str(), "Organism") })
            },
            Operation::SearchByAuthor(q) => {
                if q.as_str().is_empty() {
                    return Err(ApiError::InvalidInput(String::from_str("query must be non-empty")));
                }
                Ok(Plan::Search { url: build_esearch_url(q.as_str(), "Author") })
            },
            Operation::FetchDetails(id) => {
                if id.as_str().is_empty() {
                    return Err(ApiError::InvalidInput(String::from_str("query must be non-empty")));
                }
                Ok(
                    Plan::Details {
                        genbank_url: build_efetch_url(id.as_str(), "gb"),
                        fasta_url: build_efetch_url(id.as_str(), "fasta"),
                    },
                )
            },
        }
    }
}

/// The outcome of a search from the decoded answer of its call, or from the
/// detail of its transport or decoding failure.
pub fn finish_search(answer: Result<NcbiResponse, String>) -> (r: Result<FetchResult, ApiError>)
    ensures
        match answer {
            Ok(resp) => r == Ok::<FetchResult, ApiError>(FetchResult::Ids(resp.esearchresult.idlist)),
            Err(detail) => r == Err::<FetchResult, ApiError>(ApiError::NcbiApiError(detail)),
        },
{
    match answer {
        Ok(resp) => Ok(FetchResult::Ids(resp.esearchresult.idlist)),
        Err(detail) => Err(ApiError::NcbiApiError(detail)),
    }
}

/// The outcome of a detail fetch from the outcomes of its two calls. It succeeds
/// only when both did, with both bodies verbatim; otherwise it fails with the
/// detail of the failing call (the structured-record call's, if both failed).
pub fn finish_details(genbank: Result<String, String>, fasta: Result<String, String>) -> (r: Result<
    FetchResult,
    ApiError,
>)
    ensures
        match (genbank, fasta) {
            (Ok(g), Ok(f)) => r == Ok::<FetchResult, ApiError>(
                FetchResult::Details { genbank: g, fasta: f },
            ),
            (Err(detail), _) => r == Err::<FetchResult, ApiError>(ApiError::NcbiApiError(detail)),
            (Ok(_), Err(detail)) => r == Err::<FetchResult, ApiError>(ApiError::NcbiApiError(detail)),
        },
        r is Ok <==> (genbank is Ok && fasta is Ok),
{
    match genbank {
        Err(detail) => Err(ApiError::NcbiApiError(detail)),
        Ok(g) => match fasta {
            Err(detail) => Err(ApiError::NcbiApiError(detail)),
            Ok(f) => Ok(FetchResult::Details { genbank: g, fasta: f }),
        },
    }
}

} // verus!
