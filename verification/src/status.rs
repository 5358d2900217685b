//! Failure values from the transport and the file system, carried opaque.

use vstd::prelude::*;

verus! {

/// A gRPC status from the `tonic` crate.
#[verifier::external_type_specification]
#[verifier::external_body]
pub struct ExStatus(tonic::Status);

/// A file-system or I/O failure from std.
#[verifier::external_type_specification]
#[verifier::external_body]
pub struct ExIoError(std::io::Error);

/// The numeric gRPC code that `tonic::Status::code` reports for a status.
pub uninterp spec fn grpc_code(status: tonic::Status) -> i32;

/// gRPC code `NOT_FOUND`.
pub const CODE_NOT_FOUND: i32 = 5;

/// gRPC code `FAILED_PRECONDITION`, used by the server for a version
/// conflict.
pub const CODE_FAILED_PRECONDITION: i32 = 9;

/// Calls `tonic::Status::code` and converts the `Code` to its numeric value
/// (the gRPC code, 0 to 16); claims it is the code named by `grpc_code`.
#[verifier::external_body]
pub(crate) fn code_of(status: &tonic::Status) -> (r: i32)
    ensures
        r == grpc_code(*status),
        0 <= r <= 16,
{
    status.code() as i32
}

} // verus!

verus! {

/// The error that `std::io::Error::other` builds from a message: of kind
/// `Other`, carrying that message as its text.
pub uninterp spec fn io_other_error(message: Seq<char>) -> std::io::Error;

/// Calls `std::io::Error::other` with a message; claims the error is the one
/// named by `io_other_error` for that message.
#[verifier::external_body]
pub(crate) fn io_other(message: String) -> (r: std::io::Error)
    ensures
        r == io_other_error(message@),
{
    std::io::Error::other(message)
}

/// The message of the I/O error reported for a failed subscription stream,
/// given the text the status displays as.
pub open spec fn stream_error_message(shown: Seq<char>) -> Seq<char> {
    "subscribe stream error: "@ + shown
}

/// Whether `shown` is a text that `value`'s `Display` writes (as
/// `to_string` produces it).
pub open spec fn is_display_of<T: std::fmt::Display>(value: T, shown: String) -> bool {
    vstd::string::to_string_from_display_ensures::<T>(&value, shown)
}

/// Whether `error` is the I/O error reported for a subscription stream
/// that yielded `status`: `io::Error::other` with `subscribe stream error: `
/// and the text the status's `Display` writes.
pub open spec fn is_stream_error(status: tonic::Status, error: std::io::Error) -> bool {
    exists|shown: String|
        #[trigger] is_display_of(status, shown) && error
            == io_other_error(stream_error_message(shown@))
}

/// The I/O error reported when a subscription stream yields a gRPC failure.
pub(crate) fn stream_error(status: &tonic::Status) -> (r: std::io::Error)
    ensures
        is_stream_error(*status, r),
{
    let mut message = String::from_str("subscribe stream error: ");
    let shown = status.to_string();
    message.append(shown.as_str());
    proof {
        reveal_strlit("subscribe stream error: ");
        assert(message@ == stream_error_message(shown@));
        assert(is_display_of(*status, shown));
    }
    io_other(message)
}

} // verus!
