//! Where the target manifest is read from.
use vstd::prelude::*;
use crate::text::{ends_with_seq, lower_of, starts_with_seq, str_ends_with, str_starts_with, str_to_lowercase};

verus! {

/// Where a manifest reference points.
#[derive(Debug, Clone, Copy, PartialEq, Eq, Structural)]
pub enum DataSource {
    /// A URL, fetched over HTTP.
    Remote,
    /// A file on disk.
    Local,
}

#[derive(Debug, Clone, Copy, PartialEq, Eq, Structural)]
pub enum DataError {
    /// The reference does not end in `.json` (in any case).
    IncorrectExtension,
    /// The manifest URL answered with a status outside 200 to 299.
    BadResponse,
}

/// A reference is accepted iff, lower-cased, it ends in `.json`; it is a URL
/// iff, lower-cased, it starts with `http`.
pub fn data_source(json_file: &str) -> (r: Result<DataSource, DataError>)
    ensures
        !ends_with_seq(lower_of(json_file@), ".json"@) <==> r == Err::<DataSource, DataError>(DataError::IncorrectExtension),
        r is Ok ==> (r == Ok::<DataSource, DataError>(DataSource::Remote) <==> starts_with_seq(lower_of(json_file@), "http"@)),
        r is Ok ==> (r == Ok::<DataSource, DataError>(DataSource::Local) <==> !starts_with_seq(lower_of(json_file@), "http"@)),
{
    let lower = str_to_lowercase(json_file);
    if !str_ends_with(lower.as_str(), ".json") {
        return Err(DataError::IncorrectExtension);
    }
    if str_starts_with(lower.as_str(), "http") {
        Ok(DataSource::Remote)
    } else {
        Ok(DataSource::Local)
    }
}

/// A fetched manifest is used only from a successful response.
pub fn check_data_response(status: u16) -> (r: Result<(), DataError>)
    ensures
        r is Ok <==> 200 <= status <= 299,
        r is Err ==> r == Err::<(), DataError>(DataError::BadResponse),
{
    if 200 <= status && status <= 299 {
        Ok(())
    } else {
        Err(DataError::BadResponse)
    }
}

} // verus!
