use typout::output_intent::OutputIntent;
use typout::spinner_intent::SpinnerIntent;
use typout::{Dispatch, Spinner, SpinnerWorker, Typout};

fn starts(ds: &[Dispatch]) -> usize {
    ds.iter().filter(|d| matches!(d, Dispatch::Start(_))).count()
}

#[test]
fn write_flush_and_pin_go_to_output() {
    let t = Typout::default();
    let ds = t.write("Tick");
    assert!(matches!(&ds[..], [Dispatch::Output(OutputIntent::Write(s))] if s == "Tick"));
    assert!(matches!(&t.drain()[..], [Dispatch::Output(OutputIntent::Drain)]));
    assert!(matches!(&t.flush()[..], [Dispatch::Output(OutputIntent::Flush)]));
    let ds = t.print("x");
    assert_eq!(ds.len(), 2);
    assert!(matches!(&ds[1], Dispatch::Output(OutputIntent::Flush)));
    let ds = t.pin("a", "X\n");
    assert!(matches!(&ds[..], [Dispatch::Output(OutputIntent::Pin(i, s))] if i == "a" && s == "X\n"));
}

#[test]
fn spin_twice_starts_one_worker() {
    let mut t = Typout::default();
    let first = t.spin("a", "x");
    let second = t.spin("a", "y");
    assert_eq!(starts(&first) + starts(&second), 1);
    assert!(matches!(&second[..], [Dispatch::Spinner(i, SpinnerIntent::Write(s))] if i == "a" && s == "y"));
}

#[test]
fn spin_after_unpin_starts_fresh_worker() {
    let mut t = Typout::default();
    t.spin("a", "x");
    let ds = t.unpin("a");
    assert!(matches!(&ds[..], [Dispatch::Spinner(i, SpinnerIntent::Exit)] if i == "a"));
    let ds = t.spin("a", "y");
    assert_eq!(starts(&ds), 1);
    assert_eq!(ds.len(), 3);
    assert!(matches!(&ds[0], Dispatch::AwaitWorker(i) if i == "a"));
    assert!(matches!(&ds[1], Dispatch::Start(w) if w.id() == "a"));
    let ds = t.spin("b", "z");
    assert_eq!(ds.len(), 2);
    assert!(matches!(&ds[0], Dispatch::Start(_)));
}

#[test]
fn unpin_of_static_pin_goes_to_output() {
    let mut t = Typout::default();
    let ds = t.unpin("never");
    assert!(matches!(&ds[..], [Dispatch::Output(OutputIntent::Unpin(i))] if i == "never"));
}

#[test]
fn spin_then_unpin_gives_one_pin_and_one_unpin() {
    let mut t = Typout::default();
    let mut ds = t.spin("a", "Loading");
    ds.extend(t.unpin("a"));
    let mut worker = None;
    let mut queue = Vec::new();
    for d in ds {
        match d {
            Dispatch::Start(w) => worker = Some(w),
            Dispatch::Spinner(_, i) => queue.push(i),
            _ => panic!("unexpected dispatch"),
        }
    }
    let mut worker = worker.unwrap();
    let mut sent = Vec::new();
    for polled in queue {
        sent.push(worker.tick(Some(polled)));
        if worker.stopped() {
            break;
        }
    }
    assert_eq!(sent.len(), 2);
    assert!(matches!(&sent[0], OutputIntent::Pin(i, s) if i == "a" && s == "⠋ Loading"));
    assert!(matches!(&sent[1], OutputIntent::Unpin(i) if i == "a"));
}

#[test]
fn shutdown_stops_workers_before_output() {
    let mut t = Typout::default();
    t.spin("a", "1");
    t.spin("b", "2");
    t.unpin("a");
    let ds = t.shutdown();
    assert_eq!(ds.len(), 4);
    assert!(matches!(&ds[0], Dispatch::Spinner(i, SpinnerIntent::Exit) if i == "b"));
    assert!(matches!(&ds[1], Dispatch::AwaitSpinners));
    assert!(matches!(&ds[2], Dispatch::Output(OutputIntent::Exit)));
    assert!(matches!(&ds[3], Dispatch::AwaitOutput));
    let again = t.shutdown();
    assert_eq!(again.len(), 3);
}

#[test]
fn new_workers_copy_the_set_spinner() {
    let mut spinner = Spinner::default();
    spinner.set_frames(vec!["|".to_string(), "/".to_string()]);
    spinner.set_speed(50);
    let mut t = Typout::with_spinner(Spinner::default());
    t.set_spinner(spinner);
    let ds = t.spin("a", "m");
    match &ds[0] {
        Dispatch::Start(w) => assert_eq!(w.speed(), 50),
        _ => panic!("no worker started"),
    }
}

#[test]
fn worker_rotates_frames_and_keeps_message() {
    let spinner = Spinner::new(
        vec!["|".to_string(), "/".to_string()],
        10,
        "[#{frame}] #{message}".to_string(),
    );
    let mut w = SpinnerWorker::new(spinner, "id".to_string(), "go".to_string());
    assert!(matches!(w.tick(None), OutputIntent::Pin(_, s) if s == "[|] go"));
    assert!(matches!(w.tick(Some(SpinnerIntent::Write("on".to_string()))), OutputIntent::Pin(_, s) if s == "[/] on"));
    assert!(matches!(w.tick(None), OutputIntent::Pin(_, s) if s == "[|] on"));
    assert!(!w.stopped());
    assert!(matches!(w.tick(Some(SpinnerIntent::Exit)), OutputIntent::Unpin(i) if i == "id"));
    assert!(w.stopped());
}
