use antragsbot::create::{antrag, create_antrag, information, sonstiges, CreateRun};
use antragsbot::exchange::{Request, Response, Step};
use antragsbot::failure::SyncError;
use antragsbot::kind::TopType;
use antragsbot::motion::{MotionFields, NewMotion};
use antragsbot::people::Person;

fn form() -> MotionFields {
    MotionFields {
        title: "Raise dues".to_string(),
        body: "to $5".to_string(),
        justification: Some("weil es teurer wird".to_string()),
    }
}

fn alice() -> Person {
    Person { id: 3, name: "Alice".to_string() }
}

fn gave_up(out: (CreateRun, Step)) -> bool {
    out == (CreateRun::Closed, Step::Abort(SyncError::ExternalCallFailure))
}

#[test]
fn filing_begins_with_the_empty_form() {
    let (run, step) = create_antrag(7, 10, TopType::Information);
    assert_eq!(run, CreateRun::Asking { kind: TopType::Information, user: 7, channel: 10 });
    assert_eq!(
        step,
        Step::Call(Request::AskFields { defaults: MotionFields::blank(), revising: false })
    );
}

#[test]
fn each_command_files_its_kind() {
    assert_eq!(antrag(7, 10), create_antrag(7, 10, TopType::Normal));
    assert_eq!(information(7, 10), create_antrag(7, 10, TopType::Information));
    assert_eq!(sonstiges(7, 10), create_antrag(7, 10, TopType::Sonstiges));
}

#[test]
fn form_is_followed_by_the_lookup_of_the_user() {
    let (run, _) = antrag(7, 10);
    let (run, step) = run.step(Response::Fields(form()));
    assert_eq!(run, CreateRun::Resolving { kind: TopType::Normal, channel: 10, fields: form() });
    assert_eq!(step, Step::Call(Request::FindPerson { user: 7 }));
}

#[test]
fn known_user_is_announced_in_the_parent_channel() {
    let run = CreateRun::Resolving { kind: TopType::Normal, channel: 10, fields: form() };
    let (run, step) = run.step(Response::Person(Some(alice())));
    assert_eq!(
        run,
        CreateRun::Announcing { kind: TopType::Normal, channel: 10, fields: form(), proposer: alice() }
    );
    assert_eq!(
        step,
        Step::Call(Request::SendMessage {
            channel: 10,
            content: "Raise dues - Alice".to_string(),
            tts: false,
        })
    );
}

#[test]
fn unknown_user_is_told_so_in_private() {
    let run = CreateRun::Resolving { kind: TopType::Normal, channel: 10, fields: form() };
    let (run, step) = run.step(Response::Person(None));
    assert_eq!(run, CreateRun::Refusing);
    assert_eq!(
        step,
        Step::Call(Request::ReplyPrivately { content: "Du bist nicht in der Datenbank".to_string() })
    );
    assert_eq!(run.step(Response::Done), (CreateRun::Closed, Step::Finish));
}

#[test]
fn failed_lookup_counts_as_unknown_user() {
    let run = CreateRun::Resolving { kind: TopType::Normal, channel: 10, fields: form() };
    let (run, step) = run.step(Response::Failed);
    assert_eq!(run, CreateRun::Refusing);
    assert_eq!(
        step,
        Step::Call(Request::ReplyPrivately { content: "Du bist nicht in der Datenbank".to_string() })
    );
}

#[test]
fn failed_refusal_is_a_failure() {
    assert!(gave_up(CreateRun::Refusing.step(Response::Failed)));
}

#[test]
fn thread_is_opened_from_the_summary_line() {
    let run = CreateRun::Announcing { kind: TopType::Normal, channel: 10, fields: form(), proposer: alice() };
    let (run, step) = run.step(Response::Created(50));
    assert_eq!(run, CreateRun::Opening { kind: TopType::Normal, fields: form(), proposer: alice() });
    assert_eq!(
        step,
        Step::Call(Request::CreateThread { channel: 10, message: 50, name: "Raise dues".to_string() })
    );
}

#[test]
fn body_is_sent_into_the_thread() {
    let run = CreateRun::Opening { kind: TopType::Normal, fields: form(), proposer: alice() };
    let (run, step) = run.step(Response::Created(50));
    assert_eq!(
        run,
        CreateRun::PostingBody { kind: TopType::Normal, thread: 50, fields: form(), proposer: alice() }
    );
    assert_eq!(
        step,
        Step::Call(Request::SendMessage {
            channel: 50,
            content: "Der Fachschaftsrat Informatik möge beschließen, dass:\n to $5".to_string(),
            tts: true,
        })
    );
}

#[test]
fn justification_is_sent_after_the_body() {
    let run = CreateRun::PostingBody { kind: TopType::Normal, thread: 50, fields: form(), proposer: alice() };
    let (run, step) = run.step(Response::Created(51));
    assert_eq!(
        run,
        CreateRun::PostingJustification {
            kind: TopType::Normal,
            thread: 50,
            fields: form(),
            proposer: alice(),
        }
    );
    assert_eq!(
        step,
        Step::Call(Request::SendMessage {
            channel: 50,
            content: "Begründung: \rweil es teurer wird".to_string(),
            tts: true,
        })
    );
}

#[test]
fn absent_justification_is_sent_as_the_default_sentence() {
    let mut fields = form();
    fields.justification = None;
    let run = CreateRun::PostingBody { kind: TopType::Normal, thread: 50, fields, proposer: alice() };
    let (_, step) = run.step(Response::Created(51));
    assert_eq!(
        step,
        Step::Call(Request::SendMessage {
            channel: 50,
            content: "Begründung: \rKeine Begründung".to_string(),
            tts: true,
        })
    );
}

#[test]
fn record_is_filed_after_both_messages() {
    let run = CreateRun::PostingJustification {
        kind: TopType::Sonstiges,
        thread: 50,
        fields: form(),
        proposer: alice(),
    };
    let (run, step) = run.step(Response::Created(52));
    assert_eq!(run, CreateRun::Filing { thread: 50 });
    assert_eq!(
        step,
        Step::Call(Request::CreateRecord {
            motion: NewMotion {
                kind: TopType::Sonstiges,
                title: "Raise dues".to_string(),
                text: "Der Fachschaftsrat Informatik möge beschließen, dass:\n to $5".to_string(),
                justification: "weil es teurer wird".to_string(),
                proposers: vec![3],
            }
        })
    );
}

#[test]
fn record_is_noted_for_the_thread() {
    let (run, step) = CreateRun::Filing { thread: 50 }.step(Response::Created(900));
    assert_eq!(run, CreateRun::Mapping);
    assert_eq!(step, Step::Call(Request::MapThread { thread: 50, record: 900 }));
    assert_eq!(run.step(Response::Done), (CreateRun::Closed, Step::Finish));
}

#[test]
fn outcome_of_the_note_is_not_looked_at() {
    assert_eq!(CreateRun::Mapping.step(Response::Failed), (CreateRun::Closed, Step::Finish));
}

#[test]
fn failure_ends_the_filing_where_it_stands() {
    let states = vec![
        CreateRun::Asking { kind: TopType::Normal, user: 7, channel: 10 },
        CreateRun::Announcing { kind: TopType::Normal, channel: 10, fields: form(), proposer: alice() },
        CreateRun::Opening { kind: TopType::Normal, fields: form(), proposer: alice() },
        CreateRun::PostingBody { kind: TopType::Normal, thread: 50, fields: form(), proposer: alice() },
        CreateRun::PostingJustification {
            kind: TopType::Normal,
            thread: 50,
            fields: form(),
            proposer: alice(),
        },
        CreateRun::Filing { thread: 50 },
    ];
    for state in states {
        assert!(gave_up(state.step(Response::Failed)));
    }
}

#[test]
fn response_that_was_not_asked_for_ends_the_filing() {
    assert!(gave_up(CreateRun::Asking { kind: TopType::Normal, user: 7, channel: 10 }.step(Response::Done)));
    assert!(gave_up(
        CreateRun::Resolving { kind: TopType::Normal, channel: 10, fields: form() }
            .step(Response::Created(1))
    ));
    assert!(gave_up(CreateRun::Filing { thread: 50 }.step(Response::Record(Some(900)))));
    assert!(gave_up(CreateRun::Mapping.step(Response::Created(1))));
    assert!(gave_up(CreateRun::Refusing.step(Response::Roster(Vec::new()))));
}

#[test]
fn closed_filing_stays_closed() {
    assert!(gave_up(CreateRun::Closed.step(Response::Done)));
    assert!(gave_up(CreateRun::Closed.step(Response::Fields(form()))));
}
