use task_manager::coordinator::{Argument, Outbound, TaskManager};
use task_manager::protocol::{
    LspRequest, LspResponse, MsgFromManager, MsgToManager, QueryRequest, QueryResponse,
};

fn a_src() -> url::Url {
    url::Url::parse("file:///a.src").unwrap()
}

fn at(line: u64, character: u64) -> languageserver_types::Position {
    languageserver_types::Position { line, character }
}

#[test]
fn type_query_round_trip() {
    let mut manager = TaskManager::new();

    let (outs, exit) = manager.handle_message(MsgToManager::LspRequest(LspRequest::TypeForPos(
        1,
        a_src(),
        at(3, 5),
    )));
    assert!(!exit);
    assert_eq!(
        outs,
        vec![Outbound::ToQuerySystem(MsgFromManager::Message(QueryRequest::TypeAtPosition(
            1,
            a_src(),
            at(3, 5),
        )))]
    );

    let (outs, exit) = manager.handle_message(MsgToManager::QueryResponse(QueryResponse::Type(
        1,
        "Int".to_string(),
    )));
    assert!(!exit);
    assert_eq!(
        outs,
        vec![Outbound::ToLspResponder(MsgFromManager::Message(LspResponse::Type(
            1,
            "Int".to_string(),
        )))]
    );

    // The recipe is spent: a further reply for task 1 emits nothing.
    let (outs, exit) = manager.handle_message(MsgToManager::QueryResponse(QueryResponse::Type(
        1,
        "Int".to_string(),
    )));
    assert!(!exit);
    assert_eq!(outs, vec![]);
}

#[test]
fn initialize_responds_immediately() {
    let mut manager = TaskManager::new();
    let (outs, exit) = manager.handle_message(MsgToManager::LspRequest(LspRequest::Initialize(7)));
    assert!(!exit);
    assert_eq!(
        outs,
        vec![Outbound::ToLspResponder(MsgFromManager::Message(LspResponse::Initialized(7)))]
    );
}

#[test]
fn cancel_before_reply_silences_task() {
    let mut manager = TaskManager::new();
    let (outs, _) = manager.handle_message(MsgToManager::LspRequest(LspRequest::TypeForPos(
        2,
        a_src(),
        at(0, 0),
    )));
    assert_eq!(outs.len(), 1);

    let (outs, exit) = manager.handle_message(MsgToManager::Cancel(2));
    assert!(!exit);
    assert_eq!(outs, vec![]);

    let (outs, exit) = manager.handle_message(MsgToManager::QueryResponse(QueryResponse::Type(
        2,
        "Int".to_string(),
    )));
    assert!(!exit);
    assert_eq!(outs, vec![]);
}

#[test]
fn shutdown_directs_stop_at_both_workers() {
    let mut manager = TaskManager::new();
    // Task 9 still has its emit step pending when shutdown arrives.
    let (outs, _) = manager.handle_message(MsgToManager::LspRequest(LspRequest::TypeForPos(
        9,
        a_src(),
        at(1, 2),
    )));
    assert_eq!(outs.len(), 1);

    let (outs, exit) = manager.handle_message(MsgToManager::Shutdown);
    assert!(exit);
    assert_eq!(
        outs,
        vec![
            Outbound::ToLspResponder(MsgFromManager::Shutdown),
            Outbound::ToQuerySystem(MsgFromManager::Shutdown),
        ]
    );
}

#[test]
fn unknown_task_reply_is_silent_noop() {
    let mut manager = TaskManager::new();
    let (outs, exit) = manager.handle_message(MsgToManager::QueryResponse(QueryResponse::Type(
        42,
        "Int".to_string(),
    )));
    assert!(!exit);
    assert_eq!(outs, vec![]);

    // The dispatch algorithm itself, called directly, also does nothing.
    let out = manager.send_next_step(42, Argument::Text("Int".to_string()));
    assert_eq!(out, None);
}

#[test]
fn cancel_twice_same_as_once() {
    let mut manager = TaskManager::new();
    let (outs, _) = manager.handle_message(MsgToManager::LspRequest(LspRequest::TypeForPos(
        4,
        a_src(),
        at(2, 2),
    )));
    assert_eq!(outs.len(), 1);

    let (outs, _) = manager.handle_message(MsgToManager::Cancel(4));
    assert_eq!(outs, vec![]);
    let (outs, _) = manager.handle_message(MsgToManager::Cancel(4));
    assert_eq!(outs, vec![]);

    let (outs, _) = manager.handle_message(MsgToManager::QueryResponse(QueryResponse::Type(
        4,
        "Int".to_string(),
    )));
    assert_eq!(outs, vec![]);
}

#[test]
fn open_file_bypasses_registry() {
    let mut manager = TaskManager::new();
    let (outs, exit) = manager.handle_message(MsgToManager::LspRequest(LspRequest::OpenFile(
        a_src(),
        "def main() {}".to_string(),
    )));
    assert!(!exit);
    assert_eq!(
        outs,
        vec![Outbound::ToQuerySystem(MsgFromManager::Message(QueryRequest::OpenFile(
            a_src(),
            "def main() {}".to_string(),
        )))]
    );
}

#[test]
fn interleaved_tasks_each_step_exactly_once() {
    let mut manager = TaskManager::new();
    let (outs, _) = manager.handle_message(MsgToManager::LspRequest(LspRequest::TypeForPos(
        1,
        a_src(),
        at(3, 5),
    )));
    assert_eq!(outs.len(), 1);
    let (outs, _) = manager.handle_message(MsgToManager::LspRequest(LspRequest::TypeForPos(
        2,
        a_src(),
        at(8, 1),
    )));
    assert_eq!(outs.len(), 1);

    // Replies arrive in the opposite order of submission.
    let (outs, _) = manager.handle_message(MsgToManager::QueryResponse(QueryResponse::Type(
        2,
        "String".to_string(),
    )));
    assert_eq!(
        outs,
        vec![Outbound::ToLspResponder(MsgFromManager::Message(LspResponse::Type(
            2,
            "String".to_string(),
        )))]
    );
    let (outs, _) = manager.handle_message(MsgToManager::QueryResponse(QueryResponse::Type(
        1,
        "Int".to_string(),
    )));
    assert_eq!(
        outs,
        vec![Outbound::ToLspResponder(MsgFromManager::Message(LspResponse::Type(
            1,
            "Int".to_string(),
        )))]
    );

    // Both recipes are spent now.
    let (outs, _) = manager.handle_message(MsgToManager::QueryResponse(QueryResponse::Type(
        1,
        "Int".to_string(),
    )));
    assert_eq!(outs, vec![]);
    let (outs, _) = manager.handle_message(MsgToManager::QueryResponse(QueryResponse::Type(
        2,
        "String".to_string(),
    )));
    assert_eq!(outs, vec![]);
}

#[test]
fn resubmitted_task_id_replaces_recipe() {
    let mut manager = TaskManager::new();
    let (outs, _) = manager.handle_message(MsgToManager::LspRequest(LspRequest::TypeForPos(
        3,
        a_src(),
        at(1, 1),
    )));
    assert_eq!(outs.len(), 1);
    // The same identifier submitted again gets a fresh recipe; one reply
    // still emits exactly one response and spends it.
    let (outs, _) = manager.handle_message(MsgToManager::LspRequest(LspRequest::TypeForPos(
        3,
        a_src(),
        at(1, 9),
    )));
    assert_eq!(outs.len(), 1);
    let (outs, _) = manager.handle_message(MsgToManager::QueryResponse(QueryResponse::Type(
        3,
        "Bool".to_string(),
    )));
    assert_eq!(outs.len(), 1);
    let (outs, _) = manager.handle_message(MsgToManager::QueryResponse(QueryResponse::Type(
        3,
        "Bool".to_string(),
    )));
    assert_eq!(outs, vec![]);
}
