//! What the machine reports: the system clock and the user's folders. Each
//! reading is marked with where it came from, so that a contract can say a
//! value is the one the clock or `dirs` gave, and not some other value.

use vstd::prelude::*;

verus! {

/// `n` is a reading of the system clock, in nanoseconds since the Unix epoch,
/// as `SystemTime::now` gave it. Outside this module nothing else is known of
/// the mark: a value carries it only when it came from reading the clock.
pub closed spec fn clock_reading(n: u128) -> bool {
    true
}

/// The system clock was found set before the Unix epoch. Outside this module
/// it is known only from a clock reading that failed.
pub closed spec fn clock_unreadable() -> bool {
    true
}

/// `dirs::home_dir` reported no home directory. Outside this module it is
/// known only from that call.
pub closed spec fn home_dir_unknown() -> bool {
    true
}

/// `dirs::document_dir` reported no documents directory. Outside this module
/// it is known only from that call.
pub closed spec fn document_dir_unknown() -> bool {
    true
}

/// `s` is the text of an identifier freshly drawn with `uuid::Uuid::new_v4`.
/// Outside this module a text carries the mark only when it came from such
/// a draw.
pub closed spec fn drawn_uuid(s: Seq<char>) -> bool {
    true
}

/// `p` is the home directory as `dirs::home_dir` reported it. Outside this
/// module a path carries the mark only when it came from that call.
pub closed spec fn reported_home_dir(p: Seq<char>) -> bool {
    true
}

/// `p` is the documents directory as `dirs::document_dir` reported it.
/// Outside this module a path carries the mark only when it came from that
/// call.
pub closed spec fn reported_document_dir(p: Seq<char>) -> bool {
    true
}

/// Reads `std::time::SystemTime::now()` as nanoseconds since the Unix epoch,
/// or `None` when the clock is set before the epoch. The value is whatever
/// the clock reads; the contract only marks it as a clock reading.
#[verifier::external_body]
pub(crate) fn system_clock_unix_nanos() -> (r: Option<u128>)
    ensures
        r matches Some(n) ==> clock_reading(n),
        r is None ==> clock_unreadable(),
{
    match std::time::SystemTime::now().duration_since(std::time::UNIX_EPOCH) {
        Ok(d) => Some(d.as_nanos()),
        Err(_) => None,
    }
}

/// Asks `dirs::home_dir` for the user's home directory. The answer depends on
/// the environment and the system's user database; the contract only marks
/// it as the reported home directory.
#[verifier::external_body]
pub(crate) fn home_dir_text() -> (r: Option<String>)
    ensures
        r matches Some(h) ==> reported_home_dir(h@),
        r is None ==> home_dir_unknown(),
{
    dirs::home_dir().map(|p| p.to_string_lossy().into_owned())
}

/// Asks `dirs::document_dir` for the user's documents directory. The answer
/// depends on the environment; the contract only marks it as the reported
/// documents directory.
#[verifier::external_body]
pub(crate) fn document_dir_text() -> (r: Option<String>)
    ensures
        r matches Some(d) ==> reported_document_dir(d@),
        r is None ==> document_dir_unknown(),
{
    dirs::document_dir().map(|p| p.to_string_lossy().into_owned())
}

} // verus!
