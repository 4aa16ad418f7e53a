use tsc_explainer::diagnostic::Diagnostic;
use tsc_explainer::enrich::{build_request, ChatRequest, EnrichedResult};
use tsc_explainer::json::Json;
use tsc_explainer::pipeline::{report_entries, Action, Event, Failure, Pipeline, ReportEntry, Stage};

const OUTPUT: &str = "Version 5.4.5\n\
                      src/a.ts(10,5): error TS2322: Type 'string' is not assignable to type 'number'.\n\
                      src/b.ts(3,1): error TS2304: Cannot find name 'foo'.\n\
                      \n\
                      Found 2 errors in 2 files.\n";

fn first() -> Diagnostic {
    Diagnostic {
        file_path: "src/a.ts".to_string(),
        line: "10".to_string(),
        column: "5".to_string(),
        code: "2322".to_string(),
        message: "TS2322: Type 'string' is not assignable to type 'number'.".to_string(),
    }
}

fn second() -> Diagnostic {
    Diagnostic {
        file_path: "src/b.ts".to_string(),
        line: "3".to_string(),
        column: "1".to_string(),
        code: "2304".to_string(),
        message: "TS2304: Cannot find name 'foo'.".to_string(),
    }
}

fn answer(content: &str) -> Json {
    let member = |name: &str, value: Json| (name.to_string(), value);
    Json::Object(vec![member(
        "choices",
        Json::Array(vec![Json::Object(vec![member(
            "message",
            Json::Object(vec![member("content", Json::Text(content.to_string()))]),
        )])]),
    )])
}

fn failed(output: &str) -> Event {
    Event::CompilerExited {
        succeeded: false,
        error_stream: output.as_bytes().to_vec(),
    }
}

fn request_for(diagnostic: &Diagnostic, source: &str) -> ChatRequest {
    build_request(format!(
        "Summarize the following TypeScript error in a short, readable manner:\n\nFile: {}\nError: {}\n\nRelevant file content:\n{}",
        diagnostic.file_path, diagnostic.message, source
    ))
}

/// A run with a credential, taken up to the report of all diagnostics.
fn reported(output: &str) -> Pipeline {
    let run = Pipeline::new(Some("key".to_string()));
    let (run, _) = run.step(Event::Started);
    let (run, _) = run.step(failed(output));
    run
}

#[test]
fn a_whole_run() {
    let run = Pipeline::new(Some("key".to_string()));
    assert_eq!(run.stage(), Stage::Start);

    let (run, action) = run.step(Event::Started);
    assert_eq!(action, Action::InvokeCompiler);
    assert_eq!(run.stage(), Stage::Invoke);

    let (run, action) = run.step(failed(OUTPUT));
    assert_eq!(
        action,
        Action::ReportAll(vec![
            ReportEntry {
                number: 1,
                file_path: "src/a.ts".to_string(),
                message: "TS2322: Type 'string' is not assignable to type 'number'."
                    .to_string(),
            },
            ReportEntry {
                number: 2,
                file_path: "src/b.ts".to_string(),
                message: "TS2304: Cannot find name 'foo'.".to_string(),
            },
        ])
    );
    assert_eq!(run.stage(), Stage::ReportAll);

    let (run, action) = run.step(Event::Reported);
    assert_eq!(action, Action::LoadSource("src/a.ts".to_string()));
    assert_eq!(run.stage(), Stage::LoadSource);

    let (run, action) = run.step(Event::SourceLoaded("let x: number = 'a';\n".to_string()));
    assert_eq!(
        action,
        Action::Summarize {
            authorization: "Bearer key".to_string(),
            request: request_for(&first(), "let x: number = 'a';\n"),
        }
    );
    assert_eq!(run.stage(), Stage::Summarize);

    let (run, action) = run.step(Event::AnswerReceived(answer("A string is no number.")));
    assert_eq!(
        action,
        Action::ReportDetail(EnrichedResult {
            diagnostic: first(),
            summary: "A string is no number.".to_string(),
        })
    );
    assert_eq!(run.stage(), Stage::ReportDetail);

    let (run, action) = run.step(Event::Reported);
    assert_eq!(action, Action::LoadSource("src/b.ts".to_string()));

    let (run, action) = run.step(Event::SourceLoaded("foo();\n".to_string()));
    assert_eq!(
        action,
        Action::Summarize {
            authorization: "Bearer key".to_string(),
            request: request_for(&second(), "foo();\n"),
        }
    );

    let (run, action) = run.step(Event::AnswerReceived(answer("foo is not declared.")));
    assert_eq!(
        action,
        Action::ReportDetail(EnrichedResult {
            diagnostic: second(),
            summary: "foo is not declared.".to_string(),
        })
    );

    let (run, action) = run.step(Event::Reported);
    assert_eq!(action, Action::Finish);
    assert_eq!(run.stage(), Stage::Finished);

    let (run, action) = run.step(Event::Reported);
    assert_eq!(action, Action::Finish);
    assert_eq!(run.stage(), Stage::Finished);
}

#[test]
fn a_successful_compiler_leaves_nothing_to_do() {
    let run = Pipeline::new(None);
    let (run, _) = run.step(Event::Started);
    let (run, action) = run.step(Event::CompilerExited {
        succeeded: true,
        error_stream: OUTPUT.as_bytes().to_vec(),
    });
    assert_eq!(action, Action::ReportAll(Vec::new()));
    let (run, action) = run.step(Event::Reported);
    assert_eq!(action, Action::Finish);
    assert_eq!(run.stage(), Stage::Finished);
}

#[test]
fn output_without_diagnostics_leaves_nothing_to_do() {
    let run = reported("error: something else went wrong\n");
    let (run, action) = run.step(Event::Reported);
    assert_eq!(action, Action::Finish);
    assert_eq!(run.stage(), Stage::Finished);
}

#[test]
fn a_compiler_that_does_not_start_ends_the_run() {
    let run = Pipeline::new(Some("key".to_string()));
    let (run, _) = run.step(Event::Started);
    let (run, action) = run.step(Event::CompilerNotStarted);
    assert_eq!(action, Action::Abort(Failure::CompilerNotStarted));
    assert_eq!(run.stage(), Stage::Aborted(Failure::CompilerNotStarted));
}

#[test]
fn an_error_stream_that_is_no_text_ends_the_run() {
    let run = Pipeline::new(Some("key".to_string()));
    let (run, _) = run.step(Event::Started);
    let (run, action) = run.step(Event::CompilerExited {
        succeeded: false,
        error_stream: vec![b'a', 0xff],
    });
    assert_eq!(action, Action::Abort(Failure::OutputNotText));
    assert_eq!(run.stage(), Stage::Aborted(Failure::OutputNotText));
}

#[test]
fn a_file_that_cannot_be_read_ends_the_whole_run() {
    let run = reported(OUTPUT);
    let (run, action) = run.step(Event::Reported);
    assert_eq!(action, Action::LoadSource("src/a.ts".to_string()));
    let (run, action) = run.step(Event::SourceUnreadable);
    assert_eq!(action, Action::Abort(Failure::SourceUnreadable));
    assert_eq!(run.stage(), Stage::Aborted(Failure::SourceUnreadable));

    let later = vec![
        Event::Reported,
        Event::SourceLoaded("foo();\n".to_string()),
        Event::AnswerReceived(answer("too late")),
        Event::Started,
        failed(OUTPUT),
        Event::Reported,
    ];
    let mut run = run;
    for event in later {
        let (next, action) = run.step(event);
        assert_eq!(action, Action::Abort(Failure::SourceUnreadable));
        assert_eq!(next.stage(), Stage::Aborted(Failure::SourceUnreadable));
        run = next;
    }
}

#[test]
fn a_later_file_that_cannot_be_read_ends_the_run_too() {
    let run = reported(OUTPUT);
    let (run, _) = run.step(Event::Reported);
    let (run, _) = run.step(Event::SourceLoaded("x".to_string()));
    let (run, _) = run.step(Event::AnswerReceived(answer("fine")));
    let (run, action) = run.step(Event::Reported);
    assert_eq!(action, Action::LoadSource("src/b.ts".to_string()));
    let (run, action) = run.step(Event::SourceUnreadable);
    assert_eq!(action, Action::Abort(Failure::SourceUnreadable));
    let (_, action) = run.step(Event::Reported);
    assert_eq!(action, Action::Abort(Failure::SourceUnreadable));
}

#[test]
fn an_answer_without_content_is_reported_with_the_placeholder() {
    let run = reported(OUTPUT);
    let (run, _) = run.step(Event::Reported);
    let (run, _) = run.step(Event::SourceLoaded("x".to_string()));
    let without = Json::Object(vec![(
        "error".to_string(),
        Json::Object(vec![("message".to_string(), Json::Text("quota".to_string()))]),
    )]);
    let (run, action) = run.step(Event::AnswerReceived(without));
    assert_eq!(
        action,
        Action::ReportDetail(EnrichedResult {
            diagnostic: first(),
            summary: "Failed to get summary".to_string(),
        })
    );
    assert_eq!(run.stage(), Stage::ReportDetail);
    let (run, action) = run.step(Event::Reported);
    assert_eq!(action, Action::LoadSource("src/b.ts".to_string()));
    assert_eq!(run.stage(), Stage::LoadSource);
}

#[test]
fn a_missing_credential_ends_the_run_when_a_summary_is_needed() {
    let run = Pipeline::new(None);
    let (run, _) = run.step(Event::Started);
    let (run, action) = run.step(failed(OUTPUT));
    assert!(matches!(action, Action::ReportAll(ref entries) if entries.len() == 2));
    let (run, action) = run.step(Event::Reported);
    assert_eq!(action, Action::LoadSource("src/a.ts".to_string()));
    let (run, action) = run.step(Event::SourceLoaded("x".to_string()));
    assert_eq!(action, Action::Abort(Failure::CredentialMissing));
    assert_eq!(run.stage(), Stage::Aborted(Failure::CredentialMissing));
}

#[test]
fn an_unreadable_file_is_found_before_a_missing_credential() {
    let run = Pipeline::new(None);
    let (run, _) = run.step(Event::Started);
    let (run, _) = run.step(failed(OUTPUT));
    let (run, _) = run.step(Event::Reported);
    let (_, action) = run.step(Event::SourceUnreadable);
    assert_eq!(action, Action::Abort(Failure::SourceUnreadable));
}

#[test]
fn a_failed_request_ends_the_run() {
    let run = reported(OUTPUT);
    let (run, _) = run.step(Event::Reported);
    let (run, _) = run.step(Event::SourceLoaded("x".to_string()));
    let (run, action) = run.step(Event::TransportFailed);
    assert_eq!(action, Action::Abort(Failure::TransportFailed));
    assert_eq!(run.stage(), Stage::Aborted(Failure::TransportFailed));
}

#[test]
fn an_event_out_of_turn_ends_the_run() {
    let (_, action) = Pipeline::new(None).step(Event::Reported);
    assert_eq!(action, Action::Abort(Failure::EventOutOfTurn));

    let (run, _) = Pipeline::new(None).step(Event::Started);
    let (run, action) = run.step(Event::Started);
    assert_eq!(action, Action::Abort(Failure::EventOutOfTurn));
    assert_eq!(run.stage(), Stage::Aborted(Failure::EventOutOfTurn));

    let (_, action) = reported(OUTPUT).step(Event::SourceLoaded("x".to_string()));
    assert_eq!(action, Action::Abort(Failure::EventOutOfTurn));

    let (run, _) = reported(OUTPUT).step(Event::Reported);
    let (_, action) = run.step(Event::AnswerReceived(answer("early")));
    assert_eq!(action, Action::Abort(Failure::EventOutOfTurn));

    let (run, _) = reported(OUTPUT).step(Event::Reported);
    let (run, _) = run.step(Event::SourceLoaded("x".to_string()));
    let (_, action) = run.step(Event::SourceUnreadable);
    assert_eq!(action, Action::Abort(Failure::EventOutOfTurn));
}

#[test]
fn report_entries_are_numbered_from_one() {
    assert_eq!(report_entries(&Vec::new()), Vec::<ReportEntry>::new());
    let entries = report_entries(&vec![second(), first(), second()]);
    assert_eq!(entries.len(), 3);
    assert_eq!(
        entries.iter().map(|entry| entry.number).collect::<Vec<usize>>(),
        vec![1, 2, 3]
    );
    assert_eq!(entries[0].file_path, "src/b.ts");
    assert_eq!(entries[1].file_path, "src/a.ts");
    assert_eq!(entries[1].message, first().message);
    assert_eq!(entries[2].message, second().message);
}
