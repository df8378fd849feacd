use ncbi_gateway::api::{build_efetch_url, build_esearch_url};
use ncbi_gateway::cli::Cli;
use ncbi_gateway::errors::ApiError;
use ncbi_gateway::gateway::{begin_request, identity_of, status_of};
use ncbi_gateway::models::{ESearchResult, NcbiResponse};
use ncbi_gateway::orchestrator::{finish_details, finish_search, FetchResult, Operation, Plan};
use ncbi_gateway::rate_limit::RateLimiter;

fn stub_search(ids: &[&str]) -> NcbiResponse {
    NcbiResponse {
        esearchresult: ESearchResult {
            idlist: ids.iter().map(|s| s.to_string()).collect(),
            count: ids.len().to_string(),
        },
    }
}

#[test]
fn esearch_url_exact() {
    assert_eq!(
        build_esearch_url("Homo", "Organism"),
        "https://eutils.ncbi.nlm.nih.gov/entrez/eutils/esearch.fcgi?db=nuccore&term=Homo[Organism]&retmode=json"
    );
}

#[test]
fn efetch_url_exact() {
    assert_eq!(
        build_efetch_url("12345", "fasta"),
        "https://eutils.ncbi.nlm.nih.gov/entrez/eutils/efetch.fcgi?db=nuccore&id=12345&rettype=fasta&retmode=json"
    );
}

#[test]
fn plans_one_call_per_search() {
    match Operation::SearchByAuthor("Smith".to_string()).plan() {
        Ok(Plan::Search { url }) => assert_eq!(url, build_esearch_url("Smith", "Author")),
        _ => panic!("expected a search plan"),
    }
    match Operation::SearchByOrganism("Homo".to_string()).plan() {
        Ok(Plan::Search { url }) => assert!(url.contains("term=Homo[Organism]")),
        _ => panic!("expected a search plan"),
    }
}

#[test]
fn plans_two_calls_for_details() {
    match Operation::FetchDetails("42".to_string()).plan() {
        Ok(Plan::Details { genbank_url, fasta_url }) => {
            assert_eq!(genbank_url, build_efetch_url("42", "gb"));
            assert_eq!(fasta_url, build_efetch_url("42", "fasta"));
        }
        _ => panic!("expected a details plan"),
    }
}

#[test]
fn empty_input_rejection() {
    for op in [
        Operation::SearchByOrganism(String::new()),
        Operation::SearchByAuthor(String::new()),
        Operation::FetchDetails(String::new()),
    ] {
        match op.plan() {
            Err(ApiError::InvalidInput(msg)) => assert_eq!(msg, "query must be non-empty"),
            _ => panic!("expected an input error and no plan"),
        }
    }
}

#[test]
fn fetch_details_atomicity() {
    let r = finish_details(Err("gb down".to_string()), Ok("fasta body".to_string()));
    assert!(matches!(r, Err(ApiError::NcbiApiError(ref d)) if d == "gb down"));
    let r = finish_details(Ok("gb body".to_string()), Err("fasta down".to_string()));
    assert!(matches!(r, Err(ApiError::NcbiApiError(ref d)) if d == "fasta down"));
    let r = finish_details(Err("first".to_string()), Err("second".to_string()));
    assert!(matches!(r, Err(ApiError::NcbiApiError(ref d)) if d == "first"));
}

#[test]
fn fetch_details_passes_bodies_through() {
    match finish_details(Ok("LOCUS x".to_string()), Ok(">x\nACGT".to_string())) {
        Ok(FetchResult::Details { genbank, fasta }) => {
            assert_eq!(genbank, "LOCUS x");
            assert_eq!(fasta, ">x\nACGT");
        }
        _ => panic!("expected both bodies"),
    }
}

#[test]
fn search_keeps_order_and_duplicates() {
    match finish_search(Ok(stub_search(&["3", "1", "3"]))) {
        Ok(FetchResult::Ids(ids)) => assert_eq!(ids, vec!["3", "1", "3"]),
        _ => panic!("expected identifiers"),
    }
    match finish_search(Err("bad body".to_string())) {
        Err(ApiError::NcbiApiError(d)) => assert_eq!(d, "bad body"),
        _ => panic!("expected an upstream failure"),
    }
}

#[test]
fn end_to_end_search_and_failing_details() {
    let mut limiter = RateLimiter::new();
    let op = Operation::SearchByOrganism("Homo".to_string());
    let url = match begin_request(&mut limiter, "127.0.0.1", 1_000, &op) {
        Ok(Plan::Search { url }) => url,
        _ => panic!("expected a search plan"),
    };
    let body = if url.contains("term=Homo[Organism]") {
        Ok(stub_search(&["12345", "67890"]))
    } else {
        Err("unexpected url".to_string())
    };
    let result = finish_search(body);
    assert_eq!(status_of(&result), 200);
    match result {
        Ok(FetchResult::Ids(ids)) => {
            assert_eq!(serde_json::to_string(&ids).unwrap(), r#"["12345","67890"]"#)
        }
        _ => panic!("expected identifiers"),
    }

    let op = Operation::FetchDetails("999".to_string());
    let (genbank_url, fasta_url) = match begin_request(&mut limiter, "127.0.0.1", 2_000, &op) {
        Ok(Plan::Details { genbank_url, fasta_url }) => (genbank_url, fasta_url),
        _ => panic!("expected a details plan"),
    };
    assert!(genbank_url.contains("id=999"));
    assert!(fasta_url.contains("id=999"));
    let result = finish_details(Err("upstream failed for 999".to_string()), Ok("ok".to_string()));
    assert_eq!(status_of(&result), 400);
    let reply = result.err().unwrap().error_response();
    assert_eq!(reply.status, 400);
    assert_eq!(reply.body, "upstream failed for 999");
}

#[test]
fn rate_limited_request_gets_no_plan() {
    let mut limiter = RateLimiter::new();
    let op = Operation::SearchByAuthor("Smith".to_string());
    for _ in 0..10 {
        assert!(begin_request(&mut limiter, "h", 0, &op).is_ok());
    }
    let r = begin_request(&mut limiter, "h", 0, &op);
    assert!(matches!(r, Err(ApiError::RateLimitExceeded)));
    assert_eq!(status_of(&Err(ApiError::RateLimitExceeded)), 429);
}

#[test]
fn empty_input_still_counts_against_the_limit() {
    let mut limiter = RateLimiter::new();
    let r = begin_request(&mut limiter, "e", 0, &Operation::FetchDetails(String::new()));
    assert!(matches!(r, Err(ApiError::InvalidInput(_))));
    assert_eq!(limiter.window_of("e").unwrap().count, 1);
}

#[test]
fn error_replies() {
    let r = ApiError::NcbiApiError("boom".to_string()).error_response();
    assert_eq!((r.status, r.body.as_str()), (400, "boom"));
    let r = ApiError::InvalidInput("bad".to_string()).error_response();
    assert_eq!((r.status, r.body.as_str()), (400, "bad"));
    let r = ApiError::RateLimitExceeded.error_response();
    assert_eq!((r.status, r.body.as_str()), (429, "Rate limit exceeded"));
    let r = ApiError::InternalError.error_response();
    assert_eq!((r.status, r.body.as_str()), (500, "Internal server error"));
}

#[test]
fn error_messages() {
    assert_eq!(ApiError::NcbiApiError("x".to_string()).message(), "NCBI API request failed: x");
    assert_eq!(ApiError::InvalidInput("y".to_string()).message(), "Invalid input: y");
    assert_eq!(ApiError::RateLimitExceeded.message(), "Rate limit exceeded");
    assert_eq!(ApiError::InternalError.message(), "Internal server error");
}

#[test]
fn identity_falls_back_to_unknown() {
    assert_eq!(identity_of(Some("192.168.1.7".to_string())), "192.168.1.7");
    assert_eq!(identity_of(None), "unknown");
}

#[test]
fn cli_reads_arguments() {
    let args = vec!["prog".to_string(), "genus".to_string(), "Homo".to_string()];
    let cli = Cli::new(&args).unwrap();
    assert_eq!(cli.search_type, "genus");
    assert_eq!(cli.query, "Homo");
    let short = vec!["prog".to_string(), "genus".to_string()];
    assert_eq!(
        Cli::new(&short).err().unwrap(),
        "Usage: <search_type> <query>\nSearch types: 'genus' or 'author'"
    );
}
