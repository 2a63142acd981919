//! Assembling the input document from the lines the caller read.
//!
//! When the document comes from standard input it arrives line by line;
//! the lines are joined directly, with nothing inserted between them.

use vstd::prelude::*;
use vstd::string::StringExecFns;

use crate::errors::InputReadError;

verus! {

/// Where the document comes from: a file the caller tried to read, with the
/// outcome of that read, or the lines the caller read from standard input.
pub enum Input {
    /// A file path was given; `read` is the outcome of reading it, the
    /// cause of the failure where it could not be read.
    File { path: String, read: Result<String, String> },
    /// No path was given; the document is the lines of standard input.
    Stdin { lines: Vec<String> },
}

/// Produces the document string from the sourced input: a file's contents
/// are taken as they are, standard-input lines are joined with nothing
/// between them, and a failed file read is reported with its path and cause.
pub fn get_content(input: Input) -> (r: Result<String, InputReadError>)
    ensures
        match input {
            Input::File { path, read } => match read {
                Ok(s) => r matches Ok(c) && c@ == s@,
                Err(cause) => (
                    r matches Err(e) && e.path@ == path@ && e.cause@ == cause@
                ),
            },
            Input::Stdin { lines } => (
                r matches Ok(c) && c@ == joined(lines@.map_values(|l: String| l@))
            ),
        },
{
    match input {
        Input::File { path, read } => match read {
            Ok(s) => Ok(s),
            Err(cause) => Err(InputReadError { path, cause }),
        },
        Input::Stdin { lines } => Ok(join_lines(&lines)),
    }
}

/// The concatenation of a sequence of character sequences, in order.
pub open spec fn joined(lines: Seq<Seq<char>>) -> Seq<char>
    decreases lines.len(),
{
    if lines.len() == 0 {
        Seq::empty()
    } else {
        joined(lines.drop_last()) + lines.last()
    }
}

/// Joins lines into one string with nothing between them.
pub fn join_lines(lines: &Vec<String>) -> (r: String)
    ensures
        r@ == joined(lines@.map_values(|l: String| l@)),
{
    let mut r = String::new();
    let mut i: usize = 0;
    while i < lines.len()
        invariant
            i <= lines@.len(),
            r@ == joined(lines@.map_values(|l: String| l@).take(i as int)),
        decreases lines@.len() - i,
    {
        r.append(lines[i].as_str());
        proof {
            let views = lines@.map_values(|l: String| l@);
            assert(views.take(i + 1).drop_last() =~= views.take(i as int));
            assert(views.take(i + 1).last() == lines@[i as int]@);
        }
        i = i + 1;
    }
    proof {
        let views = lines@.map_values(|l: String| l@);
        assert(views.take(views.len() as int) =~= views);
    }
    r
}

} // verus!
