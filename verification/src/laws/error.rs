//! What holds of errors and of the answers that they get.

use crate::error::{
    pieces, refuses_at, takes_all, write_error, ErrorInfo, ErrorResponse, RequestError, ResultExt,
    Text, TextWriter, WriteError,
};
use vstd::prelude::*;

verus! {

/// Law: writing an error adds its message, and where it has a cause, a colon and
/// whatever writing the cause adds. Strings take all of it.
pub proof fn errors_are_written_cause_by_cause(
    text: &mut String,
    error: ErrorInfo,
    outcome: Result<(), WriteError>,
    longer: &mut String,
    rest: Result<(), WriteError>,
)
    requires
        call_ensures(write_error::<String>, (text, &error), outcome),
        error.source matches Some(cause) ==> {
            &&& old(longer)@ == old(text)@ + error.message@ + ": "@
            &&& call_ensures(write_error::<String>, (longer, &*cause), rest)
        },
    ensures
        outcome is Ok,
        error.source is None ==> final(text)@ == old(text)@ + error.message@,
        error.source is Some ==> final(text)@ == final(longer)@,
{
}

/// Law: an error is handed to a writer as its message, and for each cause a colon
/// and then what the cause is handed as.
pub proof fn errors_have_pieces(error: ErrorInfo)
    ensures
        error.source is None ==> pieces(error) == seq![error.message@],
        error.source matches Some(cause) ==> pieces(error) == seq![error.message@, ": "@] + pieces(
            *cause,
        ),
{
}

/// Law: a writer that takes every piece of an error ends with the whole text, and
/// a writer that refuses one has a part of it and the failure is told.
pub proof fn failing_writers_get_a_part<W: TextWriter>(
    writer: &mut W,
    error: ErrorInfo,
    outcome: Result<(), WriteError>,
    text: &mut String,
    whole: Result<(), WriteError>,
)
    requires
        call_ensures(write_error::<W>, (writer, &error), outcome),
        old(text)@ == old(writer).written(),
        call_ensures(write_error::<String>, (text, &error), whole),
    ensures
        outcome is Ok ==> final(writer).written() == final(text)@,
        outcome is Err ==> final(writer).written().is_prefix_of(final(text)@),
        outcome is Err ==> old(writer).written().is_prefix_of(final(writer).written()),
{
}

/// Law: an error without a cause is written in one piece, which is taken or
/// refused.
pub proof fn plain_errors_are_written_at_once<W: TextWriter>(
    writer: &mut W,
    error: ErrorInfo,
    outcome: Result<(), WriteError>,
)
    requires
        error.source is None,
        call_ensures(write_error::<W>, (writer, &error), outcome),
    ensures
        outcome is Ok ==> old(writer).takes(error.message@, *final(writer)),
        outcome is Err ==> old(writer).refuses(error.message@, *final(writer)),
{
    reveal_with_fuel(takes_all, 2);
    let all = pieces(error);
    assert(all.drop_last() =~= Seq::<Text>::empty());
    if outcome is Err {
        let k = choose|k: int| #[trigger] refuses_at(*old(writer), all, k, *final(writer));
        assert(all.take(0) =~= Seq::<Text>::empty());
    }
}

/// Law: strings take every piece.
pub proof fn strings_take_every_piece(
    text: &mut String,
    piece: &str,
    outcome: Result<(), WriteError>,
)
    requires
        call_ensures(<String as TextWriter>::write_str, (text, piece), outcome),
    ensures
        outcome is Ok,
        final(text)@ == old(text)@ + piece@,
{
}

/// Law: what is not found is answered with the status code 404.
pub proof fn not_found_is_answered(
    error: RequestError,
    response: Result<ErrorResponse, hyper::Error>,
)
    requires
        call_ensures(RequestError::not_found, (), error),
        call_ensures(RequestError::into_response, (error,), response),
    ensures
        response matches Ok(answer) && answer.status == 404 && answer.body@ == "path not found"@,
{
}

/// Law: a plain error is answered with its status code and its message.
pub proof fn plain_errors_are_answered(
    code: u16,
    message: &'static str,
    error: RequestError,
    response: Result<ErrorResponse, hyper::Error>,
)
    requires
        call_ensures(RequestError::simple, (code, message), error),
        call_ensures(RequestError::into_response, (error,), response),
    ensures
        response matches Ok(answer) && answer.status == code && answer.body@ == message@,
{
}

/// Law: a failure of the desk is answered in the same way whatever failed: with
/// the status code 500 and no word of explanation. A success stays what it is.
pub proof fn internal_failures_are_not_explained<T>(
    result: Result<T, ErrorInfo>,
    outcome: Result<T, RequestError>,
    response: Result<ErrorResponse, hyper::Error>,
)
    requires
        call_ensures(<Result<T, ErrorInfo> as ResultExt>::internal, (result,), outcome),
        outcome matches Err(error) ==> call_ensures(
            RequestError::into_response,
            (error,),
            response,
        ),
    ensures
        result matches Ok(value) ==> outcome == Ok::<T, RequestError>(value),
        result is Err ==> outcome is Err && (response matches Ok(answer) && answer.status == 500
            && answer.body@.len() == 0),
{
}

/// Law: a failure of the client is answered with the status code and the message
/// for it, and after a colon what writing the failure down gives. A success
/// stays what it is.
pub proof fn client_failures_are_explained<T>(
    result: Result<T, ErrorInfo>,
    code: u16,
    message: &'static str,
    outcome: Result<T, RequestError>,
    response: Result<ErrorResponse, hyper::Error>,
    text: &mut String,
    written: Result<(), WriteError>,
)
    requires
        call_ensures(<Result<T, ErrorInfo> as ResultExt>::client, (result, code, message), outcome),
        outcome matches Err(error) ==> call_ensures(
            RequestError::into_response,
            (error,),
            response,
        ),
        old(text)@ == message@ + ": "@,
        result matches Err(cause) ==> call_ensures(write_error::<String>, (text, &cause), written),
    ensures
        result matches Ok(value) ==> outcome == Ok::<T, RequestError>(value),
        result is Err ==> outcome is Err && (response matches Ok(answer) && answer.status == code
            && answer.body@ == final(text)@),
{
}

/// Law: handing a result on does not change it.
pub proof fn results_stay_themselves<T>(
    result: Result<T, ErrorInfo>,
    same: Result<T, ErrorInfo>,
)
    requires
        call_ensures(<Result<T, ErrorInfo> as ResultExt>::into_result, (result,), same),
    ensures
        same == result,
{
}

/// Law: an error of the connection is not answered but handed on as it is.
pub proof fn connection_errors_are_handed_on(
    failure: hyper::Error,
    error: RequestError,
    response: Result<ErrorResponse, hyper::Error>,
)
    requires
        call_ensures(<RequestError as From<hyper::Error>>::from, (failure,), error),
        call_ensures(RequestError::into_response, (error,), response),
    ensures
        response == Err::<ErrorResponse, hyper::Error>(failure),
{
}

} // verus!
