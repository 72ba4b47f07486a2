//! What goes wrong while a request is served, and how that is answered.

use vstd::prelude::*;
use vstd::string::*;

verus! {

/// An error of the HTTP connection itself. Its contents are not looked into.
#[verifier::external_type_specification]
#[verifier::external_body]
pub struct ExHyperError(hyper::Error);

/// What is known of an error: what it says of itself, and the error that
/// caused it.
#[derive(Debug, PartialEq, Eq)]
pub struct ErrorInfo {
    pub message: String,
    pub source: Option<Box<ErrorInfo>>,
}

impl ErrorInfo {
    /// The error at the end of the chain of causes.
    pub open spec fn root_cause(self) -> ErrorInfo
        decreases self,
    {
        match self.source {
            None => self,
            Some(cause) => cause.root_cause(),
        }
    }

    /// The message of this error, followed by those of its causes, each after a
    /// colon.
    pub open spec fn text(self) -> Seq<char>
        decreases self,
    {
        match self.source {
            None => self.message@,
            Some(cause) => self.message@ + ": "@ + cause.text(),
        }
    }
}

/// Text, as contracts speak of it.
pub type Text = Seq<char>;

/// The pieces in which an error is written: its message, and then for every
/// cause a colon and the message of the cause.
pub open spec fn pieces(error: ErrorInfo) -> Seq<Text>
    decreases error,
{
    match error.source {
        None => seq![error.message@],
        Some(cause) => seq![error.message@, ": "@] + pieces(*cause),
    }
}

/// Pieces of text, one after the other.
pub open spec fn joined(pieces: Seq<Text>) -> Text
    decreases pieces.len(),
{
    if pieces.len() == 0 {
        Seq::empty()
    } else {
        joined(pieces.drop_last()) + pieces.last()
    }
}

/// A piece of text was refused.
#[derive(Clone, Copy, Debug, PartialEq, Eq)]
pub struct WriteError;

/// Something that takes text piece by piece, and may refuse a piece.
pub trait TextWriter: Sized {
    /// The text that was taken.
    spec fn written(self) -> Text;

    /// Whether the writer can be `after` once it took `piece`.
    spec fn takes(self, piece: Text, after: Self) -> bool;

    /// Whether the writer can be `after` once it refused `piece`.
    spec fn refuses(self, piece: Text, after: Self) -> bool;

    /// Writes one piece. Of a piece that is refused, a part may have been taken.
    fn write_str(&mut self, piece: &str) -> (outcome: Result<(), WriteError>)
        ensures
            (match outcome {
                Ok(()) => {
                    &&& old(self).takes(piece@, *final(self))
                    &&& final(self).written() == old(self).written() + piece@
                },
                Err(_) => {
                    &&& old(self).refuses(piece@, *final(self))
                    &&& old(self).written().is_prefix_of(final(self).written())
                    &&& final(self).written().is_prefix_of(old(self).written() + piece@)
                },
            }),
    ;
}

/// Strings take every piece.
impl TextWriter for String {
    open spec fn written(self) -> Text {
        self@
    }

    open spec fn takes(self, piece: Text, after: String) -> bool {
        after@ == self@ + piece
    }

    open spec fn refuses(self, piece: Text, after: String) -> bool {
        false
    }

    fn write_str(&mut self, piece: &str) -> (outcome: Result<(), WriteError>) {
        self.append(piece);
        Ok(())
    }
}

/// Whether a writer can be `after` once it took all pieces, in their order and
/// nothing else.
pub open spec fn takes_all<W: TextWriter>(before: W, pieces: Seq<Text>, after: W) -> bool
    decreases pieces.len(),
{
    if pieces.len() == 0 {
        after == before
    } else {
        exists|mid: W|
            takes_all(before, pieces.drop_last(), mid) && #[trigger] mid.takes(
                pieces.last(),
                after,
            )
    }
}

/// Whether a writer can be `after` once it took the pieces before number `k`,
/// refused that one, and was handed nothing more.
pub open spec fn refuses_at<W: TextWriter>(
    before: W,
    pieces: Seq<Text>,
    k: int,
    after: W,
) -> bool {
    &&& 0 <= k < pieces.len()
    &&& exists|mid: W| #[trigger]
        takes_all(before, pieces.take(k), mid) && mid.refuses(pieces[k], after)
}

/// The pieces of an error that are left once its own message was written.
spec fn remaining_pieces(source: Option<Box<ErrorInfo>>) -> Seq<Text> {
    match source {
        None => Seq::empty(),
        Some(cause) => seq![": "@] + pieces(*cause),
    }
}

/// Writes piece number `done` of `all`, where the pieces before it were taken
/// since the writer was `start`.
fn write_piece<W: TextWriter>(
    writer: &mut W,
    piece: &str,
    Ghost(start): Ghost<W>,
    Ghost(all): Ghost<Seq<Text>>,
    Ghost(done): Ghost<int>,
) -> (outcome: Result<(), WriteError>)
    requires
        0 <= done < all.len(),
        all[done] == piece@,
        takes_all(start, all.take(done), *old(writer)),
        old(writer).written() == start.written() + joined(all.take(done)),
    ensures
        (match outcome {
            Ok(()) => {
                &&& takes_all(start, all.take(done + 1), *final(writer))
                &&& final(writer).written() == start.written() + joined(all.take(done + 1))
            },
            Err(_) => {
                &&& refuses_at(start, all, done, *final(writer))
                &&& start.written().is_prefix_of(final(writer).written())
                &&& final(writer).written().is_prefix_of(start.written() + joined(all))
            },
        }),
{
    let ghost before = *writer;
    let outcome = writer.write_str(piece);
    proof {
        let next = all.take(done + 1);
        assert(next.drop_last() =~= all.take(done));
        assert(next.last() == piece@);
        assert(start.written() + joined(next) =~= before.written() + piece@);
        match outcome {
            Ok(()) => {
                assert(takes_all(start, next.drop_last(), before));
                assert(before.takes(next.last(), *writer));
            },
            Err(_) => {
                lemma_joined_concat(next, all.skip(done + 1));
                assert(next + all.skip(done + 1) =~= all);
                let taken = writer.written();
                let whole = start.written() + joined(all);
                assert(start.written() + joined(next) =~= whole.take(
                    (start.written() + joined(next)).len() as int,
                ));
                assert(taken =~= whole.subrange(0, taken.len() as int));
                assert(start.written() =~= taken.subrange(0, start.written().len() as int));
            },
        }
    }
    outcome
}

/// Pieces can be joined in parts.
proof fn lemma_joined_concat(a: Seq<Text>, b: Seq<Text>)
    ensures
        joined(a + b) == joined(a) + joined(b),
    decreases b.len(),
{
    if b.len() == 0 {
        assert(a + b =~= a);
        assert(joined(a) + joined(b) =~= joined(a));
    } else {
        lemma_joined_concat(a, b.drop_last());
        assert((a + b).drop_last() =~= a + b.drop_last());
        assert(joined(a + b) =~= joined(a) + joined(b));
    }
}

/// The pieces of an error make up its text.
proof fn lemma_joined_pieces(error: ErrorInfo)
    ensures
        joined(pieces(error)) == error.text(),
    decreases error,
{
    reveal_with_fuel(joined, 3);
    match error.source {
        None => {
            assert(pieces(error).drop_last() =~= Seq::<Text>::empty());
            assert(joined(pieces(error)) =~= error.message@);
        },
        Some(cause) => {
            lemma_joined_pieces(*cause);
            let head = seq![error.message@, ": "@];
            lemma_joined_concat(head, pieces(*cause));
            assert(head.drop_last() =~= seq![error.message@]);
            assert(head.drop_last().drop_last() =~= Seq::<Text>::empty());
            assert(joined(head) =~= error.message@ + ": "@);
        },
    }
}

/// Writes the message of an error and those of all its causes, separated by
/// colons. It fails where a piece is refused, and writes nothing after that.
pub fn write_error<W: TextWriter>(writer: &mut W, error: &ErrorInfo) -> (outcome: Result<
    (),
    WriteError,
>)
    ensures
        (match outcome {
            Ok(()) => {
                &&& takes_all(*old(writer), pieces(*error), *final(writer))
                &&& final(writer).written() == old(writer).written() + error.text()
            },
            Err(_) => {
                &&& exists|k: int| #[trigger]
                    refuses_at(*old(writer), pieces(*error), k, *final(writer))
                &&& old(writer).written().is_prefix_of(final(writer).written())
                &&& final(writer).written().is_prefix_of(old(writer).written() + error.text())
            },
        }),
{
    let ghost all = pieces(*error);
    let ghost start = writer.written();
    proof {
        lemma_joined_pieces(*error);
        assert(all.take(0) =~= Seq::<Text>::empty());
        assert(all[0] == error.message@);
    }
    write_piece(writer, error.message.as_str(), Ghost(*old(writer)), Ghost(all), Ghost(0))?;
    let mut source = &error.source;
    let ghost mut done: int = 1;
    assert(all.skip(1) =~= remaining_pieces(*source));
    loop
        invariant
            all == pieces(*error),
            start == old(writer).written(),
            joined(all) == error.text(),
            0 <= done <= all.len(),
            all.skip(done) == remaining_pieces(*source),
            takes_all(*old(writer), all.take(done), *writer),
            writer.written() == start + joined(all.take(done)),
        decreases source,
    {
        match source {
            None => {
                assert(all.skip(done).len() == 0);
                assert(all.take(done) =~= all);
                return Ok(());
            },
            Some(cause) => {
                proof {
                    let rest = all.skip(done);
                    assert(rest.len() == all.len() - done && rest.len() >= 2);
                    assert(rest[0] == ": "@ && rest[1] == cause.message@);
                    assert(all[done] == rest[0] && all[done + 1] == rest[1]);
                    assert(all.skip(done + 2) =~= rest.skip(2));
                    assert(rest.skip(2) =~= remaining_pieces(cause.source));
                }
                write_piece(writer, ": ", Ghost(*old(writer)), Ghost(all), Ghost(done))?;
                write_piece(
                    writer,
                    cause.message.as_str(),
                    Ghost(*old(writer)),
                    Ghost(all),
                    Ghost(done + 1),
                )?;
                source = &cause.source;
                proof {
                    done = done + 2;
                }
            },
        }
    }
}

/// Law: the text of an error begins with its own message and ends with the
/// message of its root cause.
pub proof fn text_spans_the_causes(error: ErrorInfo)
    ensures
        error.message@.is_prefix_of(error.text()),
        error.root_cause().message@.is_suffix_of(error.text()),
    decreases error,
{
    match error.source {
        None => {
            assert(error.text().subrange(0, error.text().len() as int) =~= error.text());
        },
        Some(cause) => {
            text_spans_the_causes(*cause);
            let head = error.message@ + ": "@;
            let root = cause.root_cause().message@;
            assert(error.text() =~= head + cause.text());
            assert(error.text().subrange(0, error.message@.len() as int) =~= error.message@);
            assert(error.text().subrange(
                error.text().len() - root.len(),
                error.text().len() as int,
            ) =~= cause.text().subrange(
                cause.text().len() - root.len(),
                cause.text().len() as int,
            ));
        },
    }
}

/// Whether a number is an HTTP status code.
pub open spec fn status_code(code: u16) -> bool {
    100 <= code < 1000
}

/// Calls `hyper::StatusCode::from_u16`, which accepts the numbers from 100 to
/// 999 and refuses all others, and hands the accepted number back.
#[verifier::external_body]
fn checked_status(code: u16) -> (accepted: Option<u16>)
    ensures
        accepted == (if status_code(code) {
            Some(code)
        } else {
            None
        }),
{
    match hyper::StatusCode::from_u16(code) {
        Ok(status) => Some(status.as_u16()),
        Err(_) => None,
    }
}

/// Why a request is not served.
#[derive(Debug)]
pub enum RequestError {
    /// The desk failed. The client is not told why.
    Internal,
    /// The client asked for something that cannot be done.
    Client { code: u16, message: &'static str, error: Option<ErrorInfo> },
    /// The connection to the client failed.
    Hyper(hyper::Error),
}

/// An answer to a request: its status code and its body.
#[derive(Debug, PartialEq, Eq)]
pub struct ErrorResponse {
    pub status: u16,
    pub body: String,
}

impl From<hyper::Error> for RequestError {
    fn from(value: hyper::Error) -> (error: RequestError) {
        RequestError::Hyper(value)
    }
}

impl vstd::std_specs::convert::FromSpecImpl<hyper::Error> for RequestError {
    open spec fn obeys_from_spec() -> bool {
        true
    }

    open spec fn from_spec(value: hyper::Error) -> RequestError {
        RequestError::Hyper(value)
    }
}

impl RequestError {
    /// Whether the answer to this error has a status code.
    pub open spec fn valid(self) -> bool {
        match self {
            RequestError::Client { code, .. } => status_code(code),
            _ => true,
        }
    }

    /// Whether this blames the client, with this status code, message and cause.
    pub open spec fn blames_client(
        self,
        code: u16,
        message: Seq<char>,
        error: Option<ErrorInfo>,
    ) -> bool {
        match self {
            RequestError::Client { code: c, message: m, error: e } => c == code && m@ == message
                && e == error,
            _ => false,
        }
    }

    /// The status code and the body of the answer to this error, if there is
    /// one.
    pub open spec fn answer(self) -> Option<(u16, Seq<char>)> {
        match self {
            RequestError::Internal => Some((500, Seq::empty())),
            RequestError::Client { code, message, error: None } => Some((code, message@)),
            RequestError::Client { code, message, error: Some(cause) } => Some(
                (code, message@ + ": "@ + cause.text()),
            ),
            RequestError::Hyper(_) => None,
        }
    }

    /// The path that was asked for does not exist.
    pub fn not_found() -> (error: RequestError)
        ensures
            error.blames_client(404, "path not found"@, None),
            error.valid(),
    {
        RequestError::Client { code: 404, message: "path not found", error: None }
    }

    /// The client is to blame, for a reason that `message` tells in full.
    pub fn simple(code: u16, message: &'static str) -> (error: RequestError)
        requires
            status_code(code),
        ensures
            error.blames_client(code, message@, None),
            error.valid(),
    {
        RequestError::Client { code: checked_status(code).unwrap(), message, error: None }
    }

    /// The answer that the client gets. There is none where the connection to
    /// the client failed.
    pub fn into_response(self) -> (response: Result<ErrorResponse, hyper::Error>)
        ensures
            (match response {
                Ok(answer) => self.answer() == Some((answer.status, answer.body@)),
                Err(error) => self == RequestError::Hyper(error),
            }),
            response matches Ok(answer) ==> self.valid() ==> status_code(answer.status),
    {
        match self {
            RequestError::Internal => Ok(ErrorResponse { status: 500, body: String::new() }),
            RequestError::Client { code, message, error } => {
                let mut text = message.to_owned();
                if let Some(error) = error {
                    text.append(": ");
                    write_error(&mut text, &error).unwrap();
                }
                Ok(ErrorResponse { status: code, body: text })
            },
            RequestError::Hyper(error) => Err(error),
        }
    }
}

/// Turns the errors of other parts into errors of the request that needed them.
pub trait ResultExt: Sized {
    type Value;

    /// The result that this stands for.
    spec fn result(self) -> Result<Self::Value, ErrorInfo>;

    /// The result that this stands for.
    fn into_result(self) -> (result: Result<Self::Value, ErrorInfo>)
        ensures
            result == self.result(),
    ;

    /// A failure is one of the desk: the client is not told what it was.
    fn internal(self) -> (result: Result<Self::Value, RequestError>)
        ensures
            self.result() matches Ok(value) ==> result == Ok::<_, RequestError>(value),
            self.result() is Err ==> result == Err::<Self::Value, _>(RequestError::Internal),
    ;

    /// A failure is one of the client, who is told `message` and what failed.
    fn client(self, code: u16, message: &'static str) -> (result: Result<Self::Value, RequestError>)
        requires
            status_code(code),
        ensures
            self.result() matches Ok(value) ==> result == Ok::<_, RequestError>(value),
            self.result() matches Err(cause) ==> result matches Err(error) && error.valid()
                && error.blames_client(code, message@, Some(cause)),
    ;
}

impl<T> ResultExt for Result<T, ErrorInfo> {
    type Value = T;

    open spec fn result(self) -> Result<T, ErrorInfo> {
        self
    }

    fn into_result(self) -> (result: Result<T, ErrorInfo>) {
        self
    }

    fn internal(self) -> (result: Result<T, RequestError>) {
        match self.into_result() {
            Ok(value) => Ok(value),
            Err(_) => Err(RequestError::Internal),
        }
    }

    fn client(self, code: u16, message: &'static str) -> (result: Result<T, RequestError>) {
        let code: u16 = checked_status(code).unwrap();
        match self.into_result() {
            Ok(value) => Ok(value),
            Err(cause) => Err(RequestError::Client { code, message, error: Some(cause) }),
        }
    }
}

} // verus!
