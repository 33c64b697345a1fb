//! Command-line configuration: a query string and a file name taken from an
//! argument list.

use vstd::prelude::*;

verus! {

/// A search query and the name of the file to search, as a caller's argument
/// list supplies them.
#[derive(Debug)]
pub struct Config {
    pub query: String,
    pub filename: String,
}

impl Config {
    /// Reads a configuration from an argument list laid out as a program's
    /// arguments: the query at position one and the file name at position
    /// two. Fewer than three arguments are rejected with an error message;
    /// otherwise the two strings are copied out unchanged.
    pub fn new(args: &Vec<String>) -> (r: Result<Config, &'static str>)
        ensures
            args@.len() < 3 ==> r == Result::<Config, &'static str>::Err("not enough arguments"),
            args@.len() >= 3 ==> (match r {
                Ok(config) => config.query == args@[1] && config.filename == args@[2],
                Err(_) => false,
            }),
    {
        if args.len() < 3 {
            return Err("not enough arguments");
        }
        let query = args[1].clone();
        let filename = args[2].clone();
        Ok(Config { query, filename })
    }
}

} // verus!
