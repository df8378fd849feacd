use vstd::prelude::*;

verus! {

/// The search endpoint URL for `query` within the record field `field`.
pub open spec fn esearch_url(query: Seq<char>, field: Seq<char>) -> Seq<char> {
    "https://eutils.ncbi.nlm.nih.gov/entrez/eutils/esearch.fcgi?db=nuccore&term="@ + query + "["@
        + field + "]&retmode=json"@
}

/// The fetch endpoint URL for record `id` in the format `rettype`.
pub open spec fn efetch_url(id: Seq<char>, rettype: Seq<char>) -> Seq<char> {
    "https://eutils.ncbi.nlm.nih.gov/entrez/eutils/efetch.fcgi?db=nuccore&id="@ + id
        + "&rettype="@ + rettype + "&retmode=json"@
}

/// Builds the search URL for `query` restricted to `field`.
pub fn build_esearch_url(query: &str, field: &str) -> (r: String)
    ensures
        r@ == esearch_url(query@, field@),
{
    let mut url = String::from_str(
        "https://eutils.ncbi.nlm.nih.gov/entrez/eutils/esearch.fcgi?db=nuccore&term=",
    );
    url.append(query);
    url.append("[");
    url.append(field);
    url.append("]&retmode=json");
    url
}

/// Builds the fetch URL for record `id` in format `rettype`.
pub fn build_efetch_url(id: &str, rettype: &str) -> (r: String)
    ensures
        r@ == efetch_url(id@, rettype@),
{
    let mut url = String::from_str(
        "https://eutils.ncbi.nlm.nih.gov/entrez/eutils/efetch.fcgi?db=nuccore&id=",
    );
    url.append(id);
    url.append("&rettype=");
    url.append(rettype);
    url.append("&retmode=json");
    url
}

} // verus!
