//! The arguments of the command line.

use vstd::prelude::*;

verus! {

/// What is said when too few arguments were given.
pub const TOO_FEW_ARGUMENTS: &'static str =
    "Need a path to a Facebook zip! and a URL to a SOLID profile card";

/// The paths that a run works on.
pub struct Config {
    pub facebook_zip: String,
    pub friends_json: Option<String>,
    pub output_file: String,
}

/// The path of the list of friends among the arguments: the fourth one, if
/// there is one.
pub open spec fn friends_argument(args: Seq<String>) -> Option<Seq<char>> {
    if args.len() > 3 {
        Some(args[3]@)
    } else {
        None
    }
}

impl Config {
    /// The path of the list of friends, if one was given.
    pub open spec fn friends_path(&self) -> Option<Seq<char>> {
        match self.friends_json {
            Some(path) => Some(path@),
            None => None,
        }
    }

    /// Reads the paths from the arguments, the first of which is the name of
    /// the program: the output file, the export, and the list of friends if
    /// there is a fourth argument. With fewer than three arguments this
    /// fails.
    pub fn new(args: &[String]) -> (config: Result<Config, &'static str>)
        ensures
            args@.len() < 3 ==> (config matches Err(message) && message@ == TOO_FEW_ARGUMENTS@),
            args@.len() >= 3 ==> (config matches Ok(c) && c.output_file@ == args@[1]@
                && c.facebook_zip@ == args@[2]@ && c.friends_path() == friends_argument(args@)),
    {
        if args.len() < 3 {
            return Err(TOO_FEW_ARGUMENTS);
        }
        let output_file = args[1].clone();
        let facebook_zip = args[2].clone();
        let friends_json = if args.len() > 3 {
            Some(args[3].clone())
        } else {
            None
        };
        Ok(Config { output_file, facebook_zip, friends_json })
    }
}

} // verus!
