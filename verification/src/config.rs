//! The two positional arguments of the text printer's command line.

use vstd::prelude::*;

verus! {

/// A search term and the path of the file to read.
pub struct Config {
    query: String,
    filename: String,
}

impl Config {
    /// The search term, as a sequence of characters.
    pub closed spec fn query_text(&self) -> Seq<char> {
        self.query@
    }

    /// The file path, as a sequence of characters.
    pub closed spec fn filename_text(&self) -> Seq<char> {
        self.filename@
    }

    /// The message returned when fewer than two arguments follow the
    /// program's name.
    pub open spec fn too_few() -> Seq<char> {
        "Not enough arguments"@
    }

    /// Reads the configuration from the full argument list, program name
    /// first. The search term is the argument after the name and the file
    /// path the one after that; anything further is ignored. With fewer than
    /// three entries there is nothing to read and the call fails.
    pub fn parse_command_line(args: &Vec<String>) -> (r: Result<Config, &'static str>)
        ensures
            r is Ok <==> args.len() >= 3,
            r matches Ok(c) ==> c.query_text() == args[1]@ && c.filename_text() == args[2]@,
            r matches Err(e) ==> e@ == Config::too_few(),
    {
        if args.len() < 3 {
            return Err("Not enough arguments");
        }
        let query = args[1].clone();
        let filename = args[2].clone();
        Ok(Config { query, filename })
    }

    /// The search term.
    pub fn query(&self) -> (s: &str)
        ensures
            s@ == self.query_text(),
    {
        self.query.as_str()
    }

    /// The path of the file to read.
    pub fn filename(&self) -> (s: &str)
        ensures
            s@ == self.filename_text(),
    {
        self.filename.as_str()
    }
}

} // verus!
