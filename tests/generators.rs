use rusterators::coroutine::{CompleteType, ResumeError, SuspenseType, UnwindReason};
use rusterators::generator::{BoostedGenerator, BoringGenerator, GeneratorChannel};

type Reply<Y, R> = SuspenseType<Y, R, &'static str>;

fn run_boosted<Y, R>(replies: Vec<Reply<Y, R>>) -> (Vec<Y>, Result<R, ()>) {
    let mut g = BoostedGenerator::new(());
    let mut out = Vec::new();
    for reply in replies {
        if g.has_completed() {
            break;
        }
        assert!(g.link_mut().is_some());
        match g.receive(reply) {
            Ok(Some(y)) => out.push(y),
            Ok(None) => {}
            Err(_) => break,
        }
    }
    assert!(g.has_completed());
    (out, g.result())
}

#[test]
fn generator_yields_in_order_then_result() {
    let replies: Vec<Reply<u8, &str>> = vec![
        SuspenseType::Yield(3),
        SuspenseType::Yield(1),
        SuspenseType::Yield(2),
        SuspenseType::Complete(CompleteType::Return("done")),
    ];
    let (out, result) = run_boosted(replies);
    assert_eq!(out, vec![3, 1, 2]);
    assert_eq!(result, Ok("done"));
}

#[test]
fn generator_never_yielding() {
    let mut g = BoostedGenerator::new(());
    let first: Reply<u8, i32> = SuspenseType::Complete(CompleteType::Return(42));
    assert!(matches!(g.receive(first), Ok(None)));
    assert!(g.has_completed());
    assert!(g.link_mut().is_none());
    assert_eq!(g.result(), Ok(42));
}

#[test]
fn monogenerator_return_not_in_stream() {
    let replies: Vec<Reply<u32, u32>> = vec![
        SuspenseType::Yield(1),
        SuspenseType::Yield(2),
        SuspenseType::Complete(CompleteType::Return(99)),
    ];
    let (out, result) = run_boosted(replies);
    assert_eq!(out, vec![1, 2]);
    assert_eq!(result, Ok(99));
}

#[test]
fn line_generator_with_success() {
    let content = "1 line\n    2 line\n    3 line\n    4 line";
    let mut replies: Vec<Reply<String, Result<(), String>>> =
        content.lines().map(|s| SuspenseType::Yield(String::from(s.trim()))).collect();
    replies.push(SuspenseType::Complete(CompleteType::Return(Ok(()))));
    let (out, result) = run_boosted(replies);
    assert_eq!(out, vec!["1 line", "2 line", "3 line", "4 line"]);
    assert_eq!(result, Ok(Ok(())));
}

#[test]
fn line_generator_with_failure() {
    let replies: Vec<Reply<String, Result<(), String>>> = vec![SuspenseType::Complete(
        CompleteType::Return(Err(String::from("failed to read lines"))),
    )];
    let (out, result) = run_boosted(replies);
    assert!(out.is_empty());
    assert_eq!(result, Ok(Err(String::from("failed to read lines"))));
}

#[test]
fn generator_panic_is_aborted() {
    let mut g = BoostedGenerator::<(), u8>::new(());
    let first: Reply<u8, u8> = SuspenseType::Yield(0);
    assert!(matches!(g.receive(first), Ok(Some(0))));
    let second: Reply<u8, u8> = SuspenseType::Complete(CompleteType::Unwind(UnwindReason::Panic("boom")));
    assert!(matches!(g.receive(second), Err(ResumeError::Panicked("boom"))));
    assert!(g.has_completed());
    assert_eq!(g.result(), Err(()));
}

#[test]
fn fibonacci_boring_generator() {
    let mut g = BoringGenerator::new(());
    let mut current = (0u64, 1u64);
    let mut out = Vec::new();
    for _ in 0..43 {
        assert!(g.link_mut().is_some());
        let reply: Reply<u64, ()> = SuspenseType::Yield(current.0);
        current = (current.1, current.0 + current.1);
        match g.receive(reply) {
            Ok(Some(f)) => out.push(f),
            _ => panic!("fibonacci never ends"),
        }
    }
    assert_eq!(out[..10], [0, 1, 1, 2, 3, 5, 8, 13, 21, 34]);
    assert_eq!(out[42], 267914296);
    assert!(!g.has_completed());
}

#[test]
fn boring_generator_completes() {
    let mut g = BoringGenerator::new(5u8);
    let reply: Reply<u8, ()> = SuspenseType::Complete(CompleteType::Return(()));
    assert!(matches!(g.receive(reply), Ok(None)));
    assert!(g.has_completed());
    assert!(g.link_mut().is_none());
}

struct RecordingChannel(Vec<u32>);

impl GeneratorChannel for RecordingChannel {
    type Yield = u32;
    type Receive = usize;

    fn yield_val(&mut self, val: u32) -> usize {
        self.0.push(val);
        self.0.len()
    }
}

#[test]
fn yield_all_yields_each_value_in_order() {
    let mut chan = RecordingChannel(vec![7]);
    chan.yield_all(vec![3, 1, 2]);
    assert_eq!(chan.0, vec![7, 3, 1, 2]);
    chan.yield_all(Vec::new());
    assert_eq!(chan.0, vec![7, 3, 1, 2]);
}
