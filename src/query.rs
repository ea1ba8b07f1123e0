//! The formats in which a query and its arguments can be written.
use vstd::prelude::*;

use crate::errors::FileParseError;
use crate::vertex::str_eq;

verus! {

#[derive(Clone, Copy, Debug, PartialEq, Eq, Structural)]
pub enum QueryFormat {
    Json,
    Ron,
}

/// The format of a query file, by the extension of its path.
pub open spec fn format_of(ext: Option<Seq<char>>) -> Option<QueryFormat> {
    match ext {
        Some(e) => if e == "json"@ {
            Some(QueryFormat::Json)
        } else if e == "ron"@ {
            Some(QueryFormat::Ron)
        } else {
            None
        },
        None => None,
    }
}

/// Chooses how to read the query file at `path`, whose extension is `ext`:
/// `.json` and `.ron` are read, another extension or none is an error that
/// names the path.
pub fn query_format(path: &str, ext: Option<&str>) -> (r: Result<QueryFormat, FileParseError>)
    ensures
        match ext {
            Some(e) => match format_of(Some(e@)) {
                Some(f) => r == Ok::<QueryFormat, FileParseError>(f),
                None => r matches Err(FileParseError::UnsupportedFileExtension { ext: x, path: p })
                    && x@ == e@ && p@ == path@,
            },
            None => r matches Err(FileParseError::UnknownFileExtension(p)) && p@ == path@,
        },
{
    proof {
        reveal_strlit("json");
        reveal_strlit("ron");
    }
    match ext {
        Some(e) => {
            if str_eq(e, "json") {
                Ok(QueryFormat::Json)
            } else if str_eq(e, "ron") {
                Ok(QueryFormat::Ron)
            } else {
                Err(FileParseError::UnsupportedFileExtension { ext: e.to_owned(), path: path.to_owned() })
            }
        },
        None => Err(FileParseError::UnknownFileExtension(path.to_owned())),
    }
}

} // verus!
