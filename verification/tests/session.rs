use rag_session::engine::Action;
use rag_session::engine::EngineState;
use rag_session::engine::Event;
use rag_session::engine::Session;
use rag_session::envs::config_from_values;
use rag_session::envs::Config;
use rag_session::frames::encode_frame;
use rag_session::frames::FrameKind;
use rag_session::frames::OutboundFrame;
use rag_session::llm::ChatTurn;
use rag_session::llm::Role;
use rag_session::resp::RespValue;

fn config(use_index: bool, use_chat_history: bool) -> Config {
    config_from_values(
        None,
        None,
        None,
        None,
        None,
        Some(String::from(if use_index { "true" } else { "false" })),
        Some(String::from(if use_chat_history { "true" } else { "false" })),
        None,
        None,
        None,
    )
}

fn frame(payload: &str) -> Event {
    let mut obj = json::JsonValue::new_object();
    obj.insert("payload", payload).unwrap();
    Event::Frame { text: json::stringify(obj) }
}

fn sent(a: &Action) -> &OutboundFrame {
    match a {
        Action::Send(f) => f,
        other => panic!("expected a frame, got {:?}", other),
    }
}

#[test]
fn scenario_direct_generation() {
    // useIndex=false, useChatHistory=false, one question end to end.
    let mut s = Session::new(&config(false, false));
    let actions = s.step(frame("What is 2+2?"));
    assert_eq!(actions.len(), 2);
    let echo = sent(&actions[0]);
    assert_eq!(echo.kind, FrameKind::UserMessage);
    assert_eq!(echo.payload, "What is 2+2?");
    match &actions[1] {
        Action::StreamStateless { system_prompt, prompt } => {
            assert_eq!(system_prompt, "");
            assert_eq!(prompt, "context: \n------\nquestion: What is 2+2?\n------\nanswer:");
        }
        other => panic!("expected a stateless stream start, got {:?}", other),
    }

    let actions = s.step(Event::Fragment { content: String::from("the answer "), is_final: false });
    assert_eq!(actions.len(), 1);
    let chunk = sent(&actions[0]);
    assert_eq!(chunk.kind, FrameKind::BotStreamChunk);
    assert_eq!(chunk.payload, "the answer ");

    let actions = s.step(Event::Fragment { content: String::from("is 4"), is_final: true });
    assert_eq!(actions.len(), 1);
    let end = sent(&actions[0]);
    assert_eq!(end.kind, FrameKind::BotStreamEnd);
    assert_eq!(end.payload, "is 4");

    // The accumulated answer became the one assistant turn of the cycle.
    assert!(matches!(s.state, EngineState::AwaitingInput));
    let last = s.history.last().unwrap();
    assert!(matches!(last.role, Role::Assistant));
    assert_eq!(last.content, "the answer is 4");
}

fn bulk(s: &str) -> RespValue {
    RespValue::BulkString(s.as_bytes().to_vec())
}

#[test]
fn scenario_retrieval_context_embedded_verbatim() {
    // useIndex=true: retrieval returns passages A and B; the assembled
    // context A\nB\n lands verbatim in the generation prompt.
    let mut s = Session::new(&config(true, false));
    let actions = s.step(frame("q"));
    assert_eq!(actions.len(), 2);
    match &actions[1] {
        Action::Embed { text } => assert_eq!(text, "q"),
        other => panic!("expected an embedding call, got {:?}", other),
    }

    let actions = s.step(Event::Embedded { outcome: Ok(vec![1.0f32.to_bits(), 2.0f32.to_bits()]) });
    assert_eq!(actions.len(), 1);
    match &actions[0] {
        Action::Search { query, vector, k, window } => {
            assert_eq!(query, "@_index_name:(\"idx:cv\")=>[KNN 3 @embedding $vector AS vector_distance]");
            let mut expected = 1.0f32.to_le_bytes().to_vec();
            expected.extend_from_slice(&2.0f32.to_le_bytes());
            assert_eq!(vector, &expected);
            assert_eq!(*k, 3);
            assert_eq!(*window, 4);
        }
        other => panic!("expected a search, got {:?}", other),
    }

    let reply = RespValue::Array(vec![
        RespValue::Int(2),
        bulk("doc:1"),
        RespValue::Array(vec![bulk("text"), bulk("A")]),
        bulk("doc:2"),
        RespValue::Array(vec![bulk("text"), bulk("B")]),
    ]);
    let actions = s.step(Event::SearchResponse { outcome: Ok(reply) });
    assert_eq!(actions.len(), 1);
    match &actions[0] {
        Action::StreamStateless { prompt, .. } => {
            assert_eq!(prompt, "context: A\nB\n\n------\nquestion: q\n------\nanswer:");
        }
        other => panic!("expected a stateless stream start, got {:?}", other),
    }
}

#[test]
fn scenario_malformed_frame_keeps_session_open() {
    // A frame without a payload field is answered with an error indication
    // only; the session stays open and a later valid frame still works.
    let mut s = Session::new(&config(false, false));
    let actions = s.step(Event::Frame { text: String::from("{\"kind\":\"oops\"}") });
    assert_eq!(actions.len(), 1);
    let err = sent(&actions[0]);
    assert_eq!(err.kind, FrameKind::ErrorMessage);
    assert!(matches!(s.state, EngineState::AwaitingInput));
    assert_eq!(s.history.len(), 1);

    let actions = s.step(frame("still here?"));
    assert_eq!(actions.len(), 2);
    assert_eq!(sent(&actions[0]).kind, FrameKind::UserMessage);
}

#[test]
fn empty_payload_starts_no_cycle() {
    let mut s = Session::new(&config(false, false));
    let actions = s.step(frame(""));
    assert_eq!(actions.len(), 0);
    assert!(matches!(s.state, EngineState::AwaitingInput));
    assert_eq!(s.history.len(), 1);

    let actions = s.step(frame("a real question"));
    assert_eq!(actions.len(), 2);
    assert_eq!(sent(&actions[0]).payload, "a real question");
}

#[test]
fn scenario_unparsable_frame_text() {
    let mut s = Session::new(&config(false, false));
    let actions = s.step(Event::Frame { text: String::from("not json at all") });
    assert_eq!(actions.len(), 1);
    assert_eq!(sent(&actions[0]).kind, FrameKind::ErrorMessage);
    assert!(matches!(s.state, EngineState::AwaitingInput));
}

#[test]
fn ping_keeps_firing_during_generation() {
    // The keepalive is emitted even while a stream is in flight.
    let mut s = Session::new(&config(false, false));
    s.step(frame("slow question"));
    let a1 = s.step(Event::Fragment { content: String::from("part "), is_final: false });
    assert_eq!(sent(&a1[0]).kind, FrameKind::BotStreamChunk);
    let ping = s.step(Event::Tick);
    assert_eq!(ping.len(), 1);
    assert!(matches!(ping[0], Action::Ping));
    assert!(matches!(s.state, EngineState::Generating { .. }));
    let a2 = s.step(Event::Fragment { content: String::from("two"), is_final: true });
    assert_eq!(sent(&a2[0]).kind, FrameKind::BotStreamEnd);
    assert_eq!(s.history.last().unwrap().content, "part two");
}

#[test]
fn ping_stops_after_close() {
    let mut s = Session::new(&config(false, false));
    assert!(matches!(s.step(Event::Tick)[0], Action::Ping));
    let closed = s.step(Event::CloseRequested);
    assert!(matches!(closed[0], Action::Disconnect));
    assert_eq!(s.step(Event::Tick).len(), 0);
}

#[test]
fn one_assistant_turn_per_completed_cycle() {
    let mut s = Session::new(&config(false, false));
    s.step(frame("first"));
    s.step(Event::Fragment { content: String::from("answer one"), is_final: true });
    let assistants = s.history.iter().filter(|t| matches!(t.role, Role::Assistant)).count();
    assert_eq!(assistants, 1);

    // The history now has prior turns, so the next question is first sent
    // to reformulation.
    let actions = s.step(frame("second"));
    assert!(matches!(actions[1], Action::Reformulate { .. }));
    s.step(Event::Reformulated { outcome: Ok(String::from("second, standing alone")) });
    s.step(Event::Fragment { content: String::from("a"), is_final: false });
    s.step(Event::Fragment { content: String::from("nswer two"), is_final: true });
    let assistants = s.history.iter().filter(|t| matches!(t.role, Role::Assistant)).count();
    assert_eq!(assistants, 2);
}

#[test]
fn no_assistant_turn_when_cycle_aborts() {
    let mut s = Session::new(&config(false, false));
    s.step(frame("first"));
    s.step(Event::Fragment { content: String::from("partial "), is_final: false });
    let before = s.history.len();
    s.step(Event::CloseRequested);
    assert!(matches!(s.state, EngineState::Closed));
    assert_eq!(s.history.len(), before);
    let assistants = s.history.iter().filter(|t| matches!(t.role, Role::Assistant)).count();
    assert_eq!(assistants, 0);
}

#[test]
fn stream_failure_is_visible_and_recoverable() {
    let mut s = Session::new(&config(false, false));
    s.step(frame("q"));
    let actions = s.step(Event::StreamFailed);
    assert_eq!(actions.len(), 1);
    assert_eq!(sent(&actions[0]).kind, FrameKind::ErrorMessage);
    assert!(matches!(s.state, EngineState::AwaitingInput));
    let assistants = s.history.iter().filter(|t| matches!(t.role, Role::Assistant)).count();
    assert_eq!(assistants, 0);
}

#[test]
fn reformulation_runs_only_with_prior_turns() {
    // With chat-history mode off and prior turns present, the question goes
    // through the reformulation call, and its outcome replaces the question.
    let mut s = Session::new(&config(false, false));
    s.history.push(ChatTurn::new(Role::User, String::from("earlier question")));
    s.history.push(ChatTurn::new(Role::Assistant, String::from("earlier answer")));
    let actions = s.step(frame("and then?"));
    assert_eq!(actions.len(), 2);
    match &actions[1] {
        Action::Reformulate { prompt } => {
            assert!(prompt.starts_with("chat_history:\n\nearlier question\nearlier answer\n----\nuser's question: and then?"));
        }
        other => panic!("expected a reformulation call, got {:?}", other),
    }
    assert!(matches!(s.state, EngineState::Reformulating { .. }));

    let actions = s.step(Event::Reformulated { outcome: Ok(String::from("what happened after the earlier answer?")) });
    assert_eq!(actions.len(), 1);
    match &actions[0] {
        Action::StreamStateless { prompt, .. } => {
            assert_eq!(
                prompt,
                "context: \n------\nquestion: what happened after the earlier answer?\n------\nanswer:"
            );
        }
        other => panic!("expected a stateless stream start, got {:?}", other),
    }
}

#[test]
fn reformulation_failure_is_upstream_error() {
    let mut s = Session::new(&config(false, false));
    s.history.push(ChatTurn::new(Role::User, String::from("earlier")));
    s.step(frame("next"));
    let actions = s.step(Event::Reformulated { outcome: Err(()) });
    assert_eq!(sent(&actions[0]).kind, FrameKind::ErrorMessage);
    assert!(matches!(s.state, EngineState::AwaitingInput));
}

#[test]
fn chat_history_mode_streams_with_snapshot() {
    // With chat-history mode on, reformulation is skipped and the stream is
    // started over a snapshot that ends with the new prompt turn.
    let mut s = Session::new(&config(false, true));
    s.history.push(ChatTurn::new(Role::User, String::from("before")));
    let actions = s.step(frame("again?"));
    assert_eq!(actions.len(), 2);
    match &actions[1] {
        Action::StreamWithHistory { history, prompt } => {
            assert_eq!(prompt, "context: \n------\nquestion: again?\n------\nanswer:");
            assert_eq!(history.len(), 3);
            assert!(matches!(history[0].role, Role::System));
            assert_eq!(history[2].content, *prompt);
        }
        other => panic!("expected a history-attached stream start, got {:?}", other),
    }
}

#[test]
fn search_failure_is_upstream_error() {
    let mut s = Session::new(&config(true, false));
    s.step(frame("q"));
    s.step(Event::Embedded { outcome: Ok(vec![0]) });
    let actions = s.step(Event::SearchResponse { outcome: Err(()) });
    assert_eq!(sent(&actions[0]).kind, FrameKind::ErrorMessage);
    assert!(matches!(s.state, EngineState::AwaitingInput));
}

#[test]
fn malformed_search_reply_yields_empty_context() {
    let mut s = Session::new(&config(true, false));
    s.step(frame("q"));
    s.step(Event::Embedded { outcome: Ok(vec![0]) });
    let actions = s.step(Event::SearchResponse { outcome: Ok(RespValue::Nil) });
    match &actions[0] {
        Action::StreamStateless { prompt, .. } => {
            assert_eq!(prompt, "context: \n------\nquestion: q\n------\nanswer:");
        }
        other => panic!("expected a stateless stream start, got {:?}", other),
    }
}

#[test]
fn embedding_failure_is_upstream_error() {
    let mut s = Session::new(&config(true, false));
    s.step(frame("q"));
    let actions = s.step(Event::Embedded { outcome: Err(()) });
    assert_eq!(sent(&actions[0]).kind, FrameKind::ErrorMessage);
    assert!(matches!(s.state, EngineState::AwaitingInput));
}

#[test]
fn frames_are_ignored_while_busy() {
    let mut s = Session::new(&config(false, false));
    s.step(frame("first"));
    assert!(matches!(s.state, EngineState::Generating { .. }));
    let actions = s.step(frame("impatient second"));
    assert_eq!(actions.len(), 0);
    assert!(matches!(s.state, EngineState::Generating { .. }));
}

#[test]
fn encode_frame_renders_wire_json() {
    let f = OutboundFrame { kind: FrameKind::UserMessage, payload: String::from("hi \"there\"") };
    assert_eq!(encode_frame(&f), "{\"type\":\"user_message\",\"payload\":\"hi \\\"there\\\"\"}");
    let f = OutboundFrame { kind: FrameKind::BotStreamChunk, payload: String::from("x") };
    assert_eq!(encode_frame(&f), "{\"type\":\"bot_stream_chunk\",\"payload\":\"x\"}");
    let f = OutboundFrame { kind: FrameKind::BotStreamEnd, payload: String::from("") };
    assert_eq!(encode_frame(&f), "{\"type\":\"bot_stream_end\",\"payload\":\"\"}");
    let f = OutboundFrame { kind: FrameKind::ErrorMessage, payload: String::from("e") };
    assert_eq!(encode_frame(&f), "{\"type\":\"error\",\"payload\":\"e\"}");
}

#[test]
fn stray_outcomes_are_ignored() {
    let mut s = Session::new(&config(false, false));
    assert_eq!(s.step(Event::Fragment { content: String::from("x"), is_final: true }).len(), 0);
    assert_eq!(s.step(Event::Reformulated { outcome: Ok(String::from("x")) }).len(), 0);
    assert_eq!(s.step(Event::Embedded { outcome: Ok(vec![]) }).len(), 0);
    assert_eq!(s.step(Event::SearchResponse { outcome: Ok(RespValue::Nil) }).len(), 0);
    assert_eq!(s.step(Event::StreamFailed).len(), 0);
    assert_eq!(s.history.len(), 1);
    assert!(matches!(s.state, EngineState::AwaitingInput));
}

#[test]
fn chat_history_cycle_appends_user_and_assistant() {
    let mut s = Session::new(&config(false, true));
    s.step(frame("hi"));
    assert_eq!(s.history.len(), 2, "system turn plus the cycle's prompt turn");
    assert!(matches!(s.history[1].role, Role::User));
    s.step(Event::Fragment { content: String::from("hello"), is_final: true });
    assert_eq!(s.history.len(), 3);
    assert!(matches!(s.history[2].role, Role::Assistant));
    assert_eq!(s.history[2].content, "hello");
}

#[test]
fn session_starts_with_system_turn() {
    let c = config_from_values(
        None,
        None,
        None,
        None,
        None,
        None,
        None,
        None,
        None,
        Some(String::from("you are terse")),
    );
    let s = Session::new(&c);
    assert_eq!(s.history.len(), 1);
    assert!(matches!(s.history[0].role, Role::System));
    assert_eq!(s.history[0].content, "you are terse");
    assert!(matches!(s.state, EngineState::AwaitingInput));
}
