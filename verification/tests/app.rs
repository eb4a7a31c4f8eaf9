use openai_egui::app::{Handle, OpenAIApp, Poll, Selection, UIState};
use openai_egui::openai::completions::{Choice, CompletionsResponse, Response, Usage};
use openai_egui::openai::error::{ErrorObject, ErrorResponse};
use openai_egui::request::resolve;

fn completion(texts: &[&str]) -> Response {
    Response::Success(CompletionsResponse {
        id: "cmpl-1".to_string(),
        object: "text_completion".to_string(),
        created: 1,
        model: "text-davinci-003".to_string(),
        choices: texts
            .iter()
            .enumerate()
            .map(|(index, text)| Choice {
                text: text.to_string(),
                index: index as u64,
                finish_reason: "stop".to_string(),
            })
            .collect(),
        usage: Usage { prompt_tokens: 1, completion_tokens: 1, total_tokens: 2 },
    })
}

fn rejection(kind: &str) -> Response {
    Response::Error(ErrorResponse {
        error: ErrorObject {
            message: "no".to_string(),
            kind: kind.to_string(),
            param: None,
            code: Some("c".to_string()),
        },
    })
}

fn app_with(text: &str) -> OpenAIApp {
    let mut app = OpenAIApp::new("sk-test".to_string());
    app.set_text(text.to_string());
    app
}

#[test]
fn application_starts_idle_and_empty() {
    let app = OpenAIApp::new("sk-test".to_string());
    assert_eq!(app.text(), "");
    assert_eq!(app.ui_state(), &UIState::Idle);
    assert_eq!(app.pending(), None);
    assert_eq!(app.api_token(), "sk-test");
}

#[test]
fn once_upon_a_time() {
    let mut app = app_with("Once upon a");
    let submission = app.submit();
    assert_eq!(app.ui_state(), &UIState::Busy);
    assert_eq!(app.pending(), Some(submission.handle));
    let request = submission.request.unwrap();
    assert!(String::from_utf8(request.body).unwrap().contains(r#""prompt":"Once upon a""#));

    let body = r#"{"id":"cmpl-1","object":"text_completion","created":1,"model":"text-davinci-003","choices":[{"text":" time","index":0,"finish_reason":"stop"}],"usage":{"prompt_tokens":3,"completion_tokens":1,"total_tokens":4}}"#;
    let resolved = resolve(Ok(body.as_bytes().to_vec()));
    let selection = app.update(submission.handle, Poll::Resolved(resolved));

    assert_eq!(app.text(), "Once upon a time");
    assert_eq!(selection, Some(Selection { start: 11, length: 5 }));
    assert_eq!(app.ui_state(), &UIState::Idle);
    assert_eq!(app.pending(), None);
}

#[test]
fn completion_is_appended_to_the_prompt_as_it_stands_on_delivery() {
    let mut app = app_with("Once upon a");
    let handle = app.submit().handle;
    app.set_text("Once upon a midnight".to_string());
    let selection = app.update(handle, Poll::Resolved(Ok(completion(&[" dreary", " clear"]))));
    assert_eq!(app.text(), "Once upon a midnight dreary");
    assert_eq!(selection, Some(Selection { start: 20, length: 7 }));
}

#[test]
fn selection_counts_characters_and_not_bytes() {
    let mut app = app_with("na\u{ef}ve \u{1F600}");
    let handle = app.submit().handle;
    let selection = app.update(handle, Poll::Resolved(Ok(completion(&["\u{e9}t\u{e9}"]))));
    assert_eq!(app.text(), "na\u{ef}ve \u{1F600}\u{e9}t\u{e9}");
    assert_eq!(selection, Some(Selection { start: 7, length: 3 }));
}

#[test]
fn empty_choice_text_selects_nothing_at_the_end() {
    let mut app = app_with("abc");
    let handle = app.submit().handle;
    let selection = app.update(handle, Poll::Resolved(Ok(completion(&[""]))));
    assert_eq!(app.text(), "abc");
    assert_eq!(selection, Some(Selection { start: 3, length: 0 }));
    assert_eq!(app.ui_state(), &UIState::Idle);
}

#[test]
fn malformed_body_shows_a_failure_and_keeps_the_prompt() {
    let mut app = app_with("Once upon a");
    let handle = app.submit().handle;
    let resolved = resolve(Ok(b"{\"choices\": [".to_vec()));
    assert!(resolved.is_err());
    let selection = app.update(handle, Poll::Resolved(resolved));
    assert_eq!(selection, None);
    assert_eq!(app.text(), "Once upon a");
    assert_eq!(app.pending(), None);
    assert_eq!(
        app.ui_state(),
        &UIState::Error("ERROR: EOF while parsing a list at line 1 column 13".to_string())
    );
}

#[test]
fn invalid_request_shows_its_type() {
    let mut app = app_with("Once upon a");
    let handle = app.submit().handle;
    let body = r#"{"error":{"message":"bad model","type":"invalid_request_error","param":"model","code":null}}"#;
    let selection = app.update(handle, Poll::Resolved(resolve(Ok(body.as_bytes().to_vec()))));
    assert_eq!(selection, None);
    assert_eq!(app.ui_state(), &UIState::Error("ERROR: invalid_request_error".to_string()));
    assert_eq!(app.text(), "Once upon a");
    assert_eq!(app.pending(), None);
}

#[test]
fn rejection_of_any_type_shows_that_type() {
    let mut app = app_with("x");
    let handle = app.submit().handle;
    app.update(handle, Poll::Resolved(Ok(rejection("insufficient_quota"))));
    assert_eq!(app.ui_state(), &UIState::Error("ERROR: insufficient_quota".to_string()));
}

#[test]
fn transport_failure_is_shown_as_it_is() {
    let mut app = app_with("x");
    let handle = app.submit().handle;
    let resolved = resolve(Err("Connection Failed: timed out".to_string()));
    let selection = app.update(handle, Poll::Resolved(resolved));
    assert_eq!(selection, None);
    assert_eq!(app.ui_state(), &UIState::Error("Connection Failed: timed out".to_string()));
    assert_eq!(app.text(), "x");
    assert_eq!(app.pending(), None);
}

#[test]
fn superseded_handle_is_never_applied() {
    let mut app = app_with("Once upon a");
    let first = app.submit().handle;
    let second = app.submit().handle;
    assert_ne!(first, second);
    assert_eq!(app.text(), "Once upon a");
    assert_eq!(app.pending(), Some(second));

    assert_eq!(app.update(first, Poll::Resolved(Ok(completion(&[" stale"])))), None);
    assert_eq!(app.text(), "Once upon a");
    assert_eq!(app.ui_state(), &UIState::Busy);
    assert_eq!(app.pending(), Some(second));

    assert_eq!(app.update(first, Poll::Resolved(Err("late".to_string()))), None);
    assert_eq!(app.ui_state(), &UIState::Busy);

    let selection = app.update(second, Poll::Resolved(Ok(completion(&[" time"]))));
    assert_eq!(selection, Some(Selection { start: 11, length: 5 }));
    assert_eq!(app.text(), "Once upon a time");
}

#[test]
fn result_is_applied_once() {
    let mut app = app_with("a");
    let handle = app.submit().handle;
    app.update(handle, Poll::Resolved(Ok(completion(&["b"]))));
    assert_eq!(app.update(handle, Poll::Resolved(Ok(completion(&["b"])))), None);
    assert_eq!(app.update(handle, Poll::NotReady), None);
    assert_eq!(app.text(), "ab");
    assert_eq!(app.ui_state(), &UIState::Idle);
}

#[test]
fn stale_handle_with_no_choice_is_ignored_too() {
    let mut app = app_with("a");
    let first = app.submit().handle;
    let _second = app.submit().handle;
    assert_eq!(app.update(first, Poll::Resolved(Ok(completion(&[])))), None);
    assert_eq!(app.text(), "a");
}

#[test]
fn polling_before_the_result_is_there_changes_nothing() {
    let mut app = app_with("Once upon a");
    let handle = app.submit().handle;
    for _ in 0..3 {
        assert_eq!(app.update(handle, Poll::NotReady), None);
        assert_eq!(app.ui_state(), &UIState::Busy);
        assert_eq!(app.text(), "Once upon a");
        assert_eq!(app.pending(), Some(handle));
    }
}

#[test]
fn handle_that_was_never_issued_is_ignored() {
    let mut app = app_with("a");
    assert_eq!(app.update(Handle { id: 1 }, Poll::NotReady), None);
    assert_eq!(app.ui_state(), &UIState::Idle);
    let handle = app.submit().handle;
    let other = Handle { id: handle.id + 5 };
    assert_eq!(app.update(other, Poll::Resolved(Err("x".to_string()))), None);
    assert_eq!(app.ui_state(), &UIState::Busy);
}

#[test]
fn submission_replaces_an_error_by_busy() {
    let mut app = app_with("a");
    let handle = app.submit().handle;
    app.update(handle, Poll::Resolved(Err("down".to_string())));
    assert_eq!(app.ui_state(), &UIState::Error("down".to_string()));
    let next = app.submit().handle;
    assert_eq!(app.ui_state(), &UIState::Busy);
    assert_eq!(app.pending(), Some(next));
    assert_ne!(next, handle);
}

#[test]
fn handles_are_numbered_one_after_the_other() {
    let mut app = app_with("a");
    assert_eq!(app.submit().handle, Handle { id: 1 });
    assert_eq!(app.submit().handle, Handle { id: 2 });
    assert_eq!(app.submit().handle, Handle { id: 3 });
}

#[test]
fn submission_asks_with_the_credential_of_the_application() {
    let mut app = app_with("a");
    let request = app.submit().request.unwrap();
    assert_eq!(request.headers[0].value, "Bearer sk-test");
}

#[test]
fn editing_changes_the_prompt_alone() {
    let mut app = app_with("a");
    let handle = app.submit().handle;
    app.set_text("b".to_string());
    assert_eq!(app.text(), "b");
    assert_eq!(app.ui_state(), &UIState::Busy);
    assert_eq!(app.pending(), Some(handle));
}
