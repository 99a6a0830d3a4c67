use quantx_core::backoff::{ReconnectionBackoffPolicy, ReconnectionState};
use quantx_core::exchange_stream::{ExchangeStream, StreamPoll};
use quantx_core::parser::{ProtocolParser, WebsocketParser};
use quantx_core::stream::{
    ends_connection, handle_event, reconnecting_marker, truncate_at_terminal, RecoverableStream, StreamEvent,
};
use quantx_core::transformer::{Transformer, TransformerBatch};
use std::cell::RefCell;

#[derive(Debug, Clone, PartialEq, Eq)]
enum FeedError {
    Transport(String),
    Malformed(String),
    Gap(u64),
}

struct TextProtocol;

impl ProtocolParser for TextProtocol {}

impl WebsocketParser<u64, FeedError> for TextProtocol {
    type Message = String;
    type Error = String;

    fn parse(input: Result<String, String>) -> Option<Result<u64, FeedError>> {
        match input {
            Err(e) => Some(Err(FeedError::Transport(e))),
            Ok(text) if text == "ping" => None,
            Ok(text) => Some(text.parse::<u64>().map_err(|_| FeedError::Malformed(text))),
        }
    }
}

/// Emits each number once, or twice from 100 on; reports a gap when a
/// number skips ahead of the last one by more than one.
struct Sequencer {
    last: Option<u64>,
}

impl Transformer for Sequencer {
    type Input = u64;
    type OutputItem = u64;
    type Error = FeedError;
}

impl TransformerBatch for Sequencer {
    fn transform_many(&mut self, input: u64) -> Vec<Result<u64, FeedError>> {
        let mut out = Vec::new();
        if let Some(last) = self.last {
            if input > last + 1 {
                out.push(Err(FeedError::Gap(input - last - 1)));
            }
        }
        self.last = Some(input);
        out.push(Ok(input));
        if input >= 100 {
            out.push(Ok(input));
        }
        out
    }
}

fn frame(text: &str) -> Result<String, String> {
    Ok(text.to_string())
}

fn drain(stream: &mut ExchangeStream<TextProtocol, Sequencer>) -> Vec<Result<u64, FeedError>> {
    let mut out = Vec::new();
    loop {
        match stream.poll_next() {
            StreamPoll::Ready(item) => out.push(item),
            StreamPoll::Pending | StreamPoll::Exhausted => return out,
        }
    }
}

fn policy() -> ReconnectionBackoffPolicy {
    ReconnectionBackoffPolicy::new(100, 2, 1000)
}

#[test]
fn backoff_grows_and_caps() {
    let mut state = ReconnectionState::from(policy());
    assert_eq!(state.sleep_duration_ms(), 100);
    let mut seen = Vec::new();
    for _ in 0..6 {
        seen.push(state.sleep_duration_ms());
        state.multiply_backoff();
    }
    assert_eq!(seen, vec![100, 200, 400, 800, 1000, 1000]);
    state.reset_backoff();
    assert_eq!(state.backoff_ms_current, 100);
}

#[test]
fn backoff_product_beyond_u64_is_capped() {
    let policy = ReconnectionBackoffPolicy::new(u64::MAX / 2, 255, u64::MAX - 1);
    let mut state = ReconnectionState::from(policy);
    state.multiply_backoff();
    assert_eq!(state.backoff_ms_current, u64::MAX - 1);
}

#[test]
fn backoff_with_unit_multiplier_stays_put() {
    let mut state = ReconnectionState::from(ReconnectionBackoffPolicy::new(250, 1, 1000));
    state.multiply_backoff();
    state.multiply_backoff();
    assert_eq!(state.backoff_ms_current, 250);
}

#[test]
fn record_attempt_sleeps_only_on_failure() {
    let mut state = ReconnectionState::from(policy());
    assert_eq!(state.record_attempt(false), Some(100));
    assert_eq!(state.record_attempt(false), Some(200));
    assert_eq!(state.record_attempt(true), None);
    assert_eq!(state.backoff_ms_current, 100);
    assert_eq!(state.record_attempt(false), Some(100));
}

#[test]
fn reconnect_backoff_schedule_after_failures() {
    let mut attempts: RecoverableStream<Result<&str, &str>> = RecoverableStream::new();
    for _ in 0..5 {
        attempts.push(Err("refused"));
    }
    attempts.push(Ok("connection"));
    attempts.push(Err("refused"));
    let (streams, sleeps) = attempts.with_reconnect_backoff(policy());
    assert_eq!(sleeps, vec![100, 200, 400, 800, 1000, 100]);
    assert_eq!(streams.into_vec(), vec!["connection"]);
}

#[test]
fn reconnect_backoff_first_success_has_no_delay() {
    let mut attempts: RecoverableStream<Result<u8, ()>> = RecoverableStream::new();
    attempts.push(Ok(1));
    attempts.push(Ok(2));
    let (streams, sleeps) = attempts.with_reconnect_backoff(policy());
    assert!(sleeps.is_empty());
    assert_eq!(streams.into_vec(), vec![1, 2]);
}

#[test]
fn reconnect_backoff_of_no_attempts() {
    let attempts: RecoverableStream<Result<u8, ()>> = RecoverableStream::new();
    let (streams, sleeps) = attempts.with_reconnect_backoff(policy());
    assert_eq!(streams.len(), 0);
    assert!(sleeps.is_empty());
}

#[test]
fn termination_on_error_stops_at_first_terminal() {
    let items: Vec<Result<char, &str>> = vec![Ok('a'), Err("bad frame"), Ok('b'), Err("closed"), Ok('c')];
    let mut run: RecoverableStream<Vec<Result<char, &str>>> = RecoverableStream::new();
    run.push(items);
    let out = run.with_termination_on_error(|e: &&str| *e == "closed").into_vec();
    assert_eq!(out, vec![vec![Ok('a'), Err("bad frame"), Ok('b'), Err("closed")]]);
}

#[test]
fn termination_on_error_without_terminal_keeps_all() {
    let items: Vec<Result<u8, u8>> = vec![Ok(1), Err(2), Ok(3), Err(4)];
    let kept = truncate_at_terminal(items.clone(), &|e: &u8| *e > 10);
    assert_eq!(kept, items);
}

#[test]
fn termination_on_error_terminal_first() {
    let kept = truncate_at_terminal(vec![Err::<u8, u8>(99), Ok(1)], &|e: &u8| *e > 10);
    assert_eq!(kept, vec![Err(99)]);
    let empty: Vec<Result<u8, u8>> = Vec::new();
    assert!(truncate_at_terminal(empty, &|_: &u8| true).is_empty());
}

#[test]
fn reconnection_events_mark_each_connection_end() {
    let mut run: RecoverableStream<Vec<u32>> = RecoverableStream::new();
    run.push(vec![1, 2]);
    run.push(vec![]);
    run.push(vec![3]);
    let events = run.with_reconnection_events(7u64).into_vec();
    assert_eq!(
        events,
        vec![
            StreamEvent::Item(1),
            StreamEvent::Item(2),
            StreamEvent::Reconnecting(7),
            StreamEvent::Reconnecting(7),
            StreamEvent::Item(3),
            StreamEvent::Reconnecting(7),
        ]
    );
    let markers = events.iter().filter(|e| matches!(e, StreamEvent::Reconnecting(_))).count();
    assert_eq!(markers, 3);
}

#[test]
fn error_handler_drops_errors_and_reports_them() {
    let mut run: RecoverableStream<StreamEvent<&str, Result<u8, String>>> = RecoverableStream::new();
    run.push(StreamEvent::Item(Ok(1)));
    run.push(StreamEvent::Item(Err("late".to_string())));
    run.push(StreamEvent::Reconnecting("feed"));
    run.push(StreamEvent::Item(Ok(2)));
    let reported = RefCell::new(Vec::new());
    let out = run.with_error_handler(|e: String| reported.borrow_mut().push(e)).into_vec();
    assert_eq!(out, vec![StreamEvent::Item(1), StreamEvent::Reconnecting("feed"), StreamEvent::Item(2)]);
    assert_eq!(reported.into_inner(), vec!["late".to_string()]);
}

#[test]
fn exchange_stream_keeps_frame_order() {
    let mut stream: ExchangeStream<TextProtocol, Sequencer> = ExchangeStream::new(Sequencer { last: None });
    for text in ["1", "ping", "2", "x", "5", "100"] {
        stream.push_frame(frame(text));
    }
    stream.push_frame(Err("reset".to_string()));
    stream.end_of_stream();
    let out = drain(&mut stream);
    assert_eq!(
        out,
        vec![
            Ok(1),
            Ok(2),
            Err(FeedError::Malformed("x".to_string())),
            Err(FeedError::Gap(2)),
            Ok(5),
            Err(FeedError::Gap(94)),
            Ok(100),
            Ok(100),
            Err(FeedError::Transport("reset".to_string())),
        ]
    );
    assert_eq!(stream.poll_next(), StreamPoll::Exhausted);
}

#[test]
fn exchange_stream_pending_until_frames_or_end() {
    let mut stream: ExchangeStream<TextProtocol, Sequencer> = ExchangeStream::new(Sequencer { last: None });
    assert_eq!(stream.poll_next(), StreamPoll::Pending);
    stream.push_frame(frame("ping"));
    assert_eq!(stream.poll_next(), StreamPoll::Pending);
    stream.push_frame(frame("3"));
    assert_eq!(stream.poll_next(), StreamPoll::Ready(Ok(3)));
    assert_eq!(stream.poll_next(), StreamPoll::Pending);
    stream.end_of_stream();
    assert_eq!(stream.poll_next(), StreamPoll::Exhausted);
}

#[test]
fn exchange_stream_drains_buffer_before_next_frame() {
    let mut stream: ExchangeStream<TextProtocol, Sequencer> = ExchangeStream::new(Sequencer { last: None });
    stream.push_frame(frame("100"));
    stream.push_frame(frame("5"));
    assert_eq!(stream.poll_next(), StreamPoll::Ready(Ok(100)));
    assert_eq!(stream.buffer.len(), 1);
    assert_eq!(stream.stream.len(), 1);
    assert_eq!(stream.poll_next(), StreamPoll::Ready(Ok(100)));
    assert_eq!(stream.poll_next(), StreamPoll::Ready(Ok(5)));
}

#[test]
fn end_to_end_reconnect_scenario() {
    // Two failed attempts, then one connection whose third frame is fatal.
    let mut attempts: RecoverableStream<Result<Vec<&str>, &str>> = RecoverableStream::new();
    attempts.push(Err("refused"));
    attempts.push(Err("refused"));
    attempts.push(Ok(vec!["1", "2", "fatal"]));
    let (connections, sleeps) = attempts.with_reconnect_backoff(policy());
    assert_eq!(sleeps, vec![100, 200]);

    let mut inners: RecoverableStream<Vec<Result<u64, FeedError>>> = RecoverableStream::new();
    for frames in connections.into_vec() {
        let mut stream: ExchangeStream<TextProtocol, Sequencer> = ExchangeStream::new(Sequencer { last: None });
        for text in frames {
            stream.push_frame(frame(text));
        }
        stream.end_of_stream();
        inners.push(drain(&mut stream));
    }

    let is_terminal = |e: &FeedError| matches!(e, FeedError::Malformed(_));
    let reported = RefCell::new(Vec::new());
    let events = inners
        .with_termination_on_error(is_terminal)
        .with_reconnection_events("key")
        .with_error_handler(|e: FeedError| reported.borrow_mut().push(e))
        .into_vec();
    assert_eq!(
        events,
        vec![StreamEvent::Item(1), StreamEvent::Item(2), StreamEvent::Reconnecting("key")]
    );
    assert_eq!(reported.into_inner(), vec![FeedError::Malformed("fatal".to_string())]);

    // The fresh cycle after the success starts from the initial delay.
    let mut state = ReconnectionState::from(policy());
    state.record_attempt(false);
    state.record_attempt(false);
    state.record_attempt(true);
    assert_eq!(state.record_attempt(false), Some(100));
}

#[test]
fn ends_connection_only_on_terminal_errors() {
    let is_terminal = |e: &u8| *e == 0;
    assert!(!ends_connection(&Ok::<u8, u8>(0), &is_terminal));
    assert!(!ends_connection(&Err::<u8, u8>(3), &is_terminal));
    assert!(ends_connection(&Err::<u8, u8>(0), &is_terminal));
}

#[test]
fn handle_event_per_item() {
    let reported = RefCell::new(Vec::new());
    let on_error = |e: u8| reported.borrow_mut().push(e);
    assert_eq!(handle_event(StreamEvent::<&str, Result<u8, u8>>::Item(Ok(4)), &on_error), Some(StreamEvent::Item(4)));
    assert_eq!(handle_event(StreamEvent::<&str, Result<u8, u8>>::Item(Err(5)), &on_error), None);
    assert_eq!(
        handle_event(StreamEvent::<&str, Result<u8, u8>>::Reconnecting("k"), &on_error),
        Some(StreamEvent::Reconnecting("k"))
    );
    assert_eq!(reported.into_inner(), vec![5]);
}

#[test]
fn reconnecting_marker_carries_origin() {
    let marker: StreamEvent<String, u8> = reconnecting_marker(&"feed".to_string());
    assert_eq!(marker, StreamEvent::Reconnecting("feed".to_string()));
}

#[test]
fn exchange_stream_carries_transformer_state_across_frames() {
    let mut stream: ExchangeStream<TextProtocol, Sequencer> = ExchangeStream::new(Sequencer { last: None });
    stream.push_frame(frame("1"));
    assert_eq!(stream.poll_next(), StreamPoll::Ready(Ok(1)));
    stream.push_frame(frame("ping"));
    stream.push_frame(frame("4"));
    assert_eq!(stream.poll_next(), StreamPoll::Ready(Err(FeedError::Gap(2))));
    assert_eq!(stream.transformer.last, Some(4));
    assert_eq!(stream.poll_next(), StreamPoll::Ready(Ok(4)));
}
