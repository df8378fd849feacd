use vstd::prelude::*;

verus! {

/// A search requested on the command line.
pub struct Cli {
    pub search_type: String,
    pub query: String,
}

/// The usage text shown when arguments are missing.
pub open spec fn usage_text() -> Seq<char> {
    "Usage: <search_type> <query>\nSearch types: 'genus' or 'author'"@
}

impl Cli {
    /// Reads the search type and query from the program's arguments (the first
    /// being the program name); fewer than three arguments give the usage text.
    pub fn new(args: &Vec<String>) -> (r: Result<Cli, &'static str>)
        ensures
            r is Err <==> args@.len() < 3,
            match r {
                Ok(c) => c.search_type == args@[1] && c.query == args@[2],
                Err(e) => e@ == usage_text(),
            },
    {
        if args.len() < 3 {
            return Err("Usage: <search_type> <query>\nSearch types: 'genus' or 'author'");
        }
        Ok(Cli { search_type: args[1].clone(), query: args[2].clone() })
    }
}

} // verus!
