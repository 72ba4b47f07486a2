use vekslosh::error::{
    write_error, ErrorInfo, RequestError, ResultExt, Text, TextWriter, WriteError,
};

fn failed_stream() -> hyper::Error {
    let (sender, body) = hyper::Body::channel();
    sender.abort();
    match futures::executor::block_on(hyper::body::to_bytes(body)) {
        Ok(_) => panic!("an aborted body was read"),
        Err(error) => error,
    }
}

fn info(messages: &[&str]) -> ErrorInfo {
    let mut source = None;
    for message in messages[1..].iter().rev() {
        source = Some(Box::new(ErrorInfo { message: message.to_string(), source }));
    }
    ErrorInfo { message: messages[0].to_string(), source }
}

#[test]
fn one_message_is_written_as_it_is() {
    let mut text = String::from("> ");
    assert_eq!(write_error(&mut text, &info(&["no route"])), Ok(()));
    assert_eq!(text, "> no route");
}

#[test]
fn causes_follow_after_colons() {
    let mut text = String::new();
    assert_eq!(write_error(&mut text, &info(&["request failed", "connection failed", "refused"])), Ok(()));
    assert_eq!(text, "request failed: connection failed: refused");
}

#[test]
fn empty_messages_are_written_too() {
    let mut text = String::new();
    assert_eq!(write_error(&mut text, &info(&["", "", "end"])), Ok(()));
    assert_eq!(text, ": : end");
}

/// Takes so many pieces, and counts those that it refuses.
struct Limited {
    text: String,
    left: usize,
    refused: usize,
}

impl TextWriter for Limited {
    // The first three belong to contracts and are never called.
    fn written(self) -> Text {
        unreachable!()
    }

    fn takes(self, _piece: Text, _after: Self) -> bool {
        unreachable!()
    }

    fn refuses(self, _piece: Text, _after: Self) -> bool {
        unreachable!()
    }

    fn write_str(&mut self, piece: &str) -> Result<(), WriteError> {
        if self.left == 0 {
            self.refused += 1;
            return Err(WriteError);
        }
        self.left -= 1;
        self.text.push_str(piece);
        Ok(())
    }
}

#[test]
fn writing_stops_where_a_piece_is_refused() {
    let error = info(&["a", "b", "c"]);
    for (left, text) in [(0, ""), (1, "a"), (2, "a: "), (3, "a: b"), (4, "a: b: ")] {
        let mut writer = Limited { text: String::new(), left, refused: 0 };
        assert_eq!(write_error(&mut writer, &error), Err(WriteError));
        assert_eq!(writer.text, text);
        assert_eq!(writer.refused, 1);
    }
    let mut writer = Limited { text: String::new(), left: 5, refused: 0 };
    assert_eq!(write_error(&mut writer, &error), Ok(()));
    assert_eq!(writer.text, "a: b: c");
    assert_eq!(writer.refused, 0);
}

#[test]
fn unknown_paths_are_answered_not_found() {
    let answer = RequestError::not_found().into_response().unwrap();
    assert_eq!(answer.status, 404);
    assert_eq!(answer.body, "path not found");
}

#[test]
fn simple_errors_are_answered_with_their_message() {
    for code in [100u16, 400, 418, 999] {
        let answer = RequestError::simple(code, "invalid currency").into_response().unwrap();
        assert_eq!(answer.status, code);
        assert_eq!(answer.body, "invalid currency");
    }
}

#[test]
fn internal_errors_are_not_explained() {
    let answer = RequestError::Internal.into_response().unwrap();
    assert_eq!(answer.status, 500);
    assert_eq!(answer.body, "");
}

#[test]
fn client_errors_are_explained() {
    let result: Result<u8, ErrorInfo> = Err(info(&["expected value", "end of file"]));
    let answer = result.client(400, "invalid request").unwrap_err().into_response().unwrap();
    assert_eq!(answer.status, 400);
    assert_eq!(answer.body, "invalid request: expected value: end of file");
}

#[test]
fn connection_errors_have_no_answer() {
    let error = failed_stream();
    let message = error.to_string();
    let kept = RequestError::from(error).into_response().unwrap_err();
    assert_eq!(kept.to_string(), message);
}

#[test]
fn successes_pass_through() {
    let result: Result<u8, ErrorInfo> = Ok(7);
    assert!(matches!(result.internal(), Ok(7)));
    let result: Result<u8, ErrorInfo> = Ok(8);
    assert!(matches!(result.client(400, "invalid request"), Ok(8)));
    let result: Result<u8, ErrorInfo> = Ok(9);
    assert!(matches!(result.into_result(), Ok(9)));
}

#[test]
fn internal_hides_the_error() {
    let result: Result<u8, ErrorInfo> = Err(info(&["secret"]));
    assert!(matches!(result.internal(), Err(RequestError::Internal)));
}
