use task_manager::protocol::{LspResponse, MsgFromManager, MsgToManager, QueryResponse};
use task_manager::worker::{actor_step, Actor, ReplySink};

struct Recorder {
    received: Vec<String>,
    stopped: bool,
}

impl Actor for Recorder {
    type InMessage = String;
    type OutMessage = QueryResponse;

    fn startup(&mut self, _reply_sink: ReplySink<QueryResponse>) {}

    fn receive_message(&mut self, message: String) {
        self.received.push(message);
    }

    fn shutdown(&mut self) {
        self.stopped = true;
    }
}

#[test]
fn actor_step_delivers_in_order_and_exits_on_sentinel() {
    let mut actor = Recorder { received: Vec::new(), stopped: false };

    assert!(!actor_step(&mut actor, MsgFromManager::Message("one".to_string())));
    assert!(!actor_step(&mut actor, MsgFromManager::Message("two".to_string())));
    assert!(!actor.stopped);

    assert!(actor_step(&mut actor, MsgFromManager::Shutdown));
    assert!(actor.stopped);
    assert_eq!(actor.received, vec!["one".to_string(), "two".to_string()]);
}

#[test]
fn attached_sink_posts_wrapped_reply() {
    let (tx, rx) = std::sync::mpsc::channel();
    let sink: ReplySink<QueryResponse> = ReplySink::attached(tx);

    sink.post(QueryResponse::Type(3, "Int".to_string()));
    assert_eq!(
        rx.try_recv().unwrap(),
        MsgToManager::QueryResponse(QueryResponse::Type(3, "Int".to_string()))
    );
    assert!(rx.try_recv().is_err());
}

#[test]
fn detached_sink_swallows_replies() {
    let sink: ReplySink<QueryResponse> = ReplySink::detached();
    sink.post(QueryResponse::Type(1, "Int".to_string()));
}

#[test]
fn responder_replies_go_nowhere() {
    let (tx, rx) = std::sync::mpsc::channel::<MsgToManager>();
    let sink: ReplySink<LspResponse> = ReplySink::attached(tx);

    // The response emitter's replies have no path back into the coordinator.
    sink.post(LspResponse::Initialized(1));
    assert!(rx.try_recv().is_err());
}
