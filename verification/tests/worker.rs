use heic2jpg::conversion_worker::ConversionWorker;
use heic2jpg::engine::{conversion_outcome, initialize_codec, EngineError, EngineStep};
use heic2jpg::events::{
    BatchState, ConversionOutcome, ConversionRequest, ConversionWorkerInputMsg,
    ConversionWorkerMsg, WorkerError,
};
use heic2jpg::progress::Progress;
use heic2jpg::scanner::ScanEntry;

fn worker() -> ConversionWorker {
    ConversionWorker::init(initialize_codec(Ok(())).unwrap())
}

fn job(input: &str, output: &str) -> ConversionWorkerInputMsg {
    ConversionWorkerInputMsg::ConvertFolder(input.to_string(), output.to_string())
}

fn files(paths: &[&str]) -> Vec<ScanEntry> {
    paths.iter().map(|p| ScanEntry::File(p.to_string())).collect()
}

fn fraction(event: &ConversionWorkerMsg) -> f64 {
    match event {
        ConversionWorkerMsg::ProgressUpdate(p) => p.completed() as f64 / p.total() as f64,
        other => panic!("no progress event: {:?}", other),
    }
}

fn update(k: usize, n: usize) -> ConversionWorkerMsg {
    ConversionWorkerMsg::ProgressUpdate(Progress::new(k, n).unwrap())
}

/// A stand-in for the engine: it counts what it is asked for, and fails at
/// the sources named.
struct StubEngine {
    attempted: Vec<ConversionRequest>,
    broken: Vec<String>,
}

impl StubEngine {
    fn new(broken: &[&str]) -> StubEngine {
        StubEngine { attempted: Vec::new(), broken: broken.iter().map(|s| s.to_string()).collect() }
    }

    fn convert(&mut self, request: &ConversionRequest) -> Result<(), EngineError> {
        self.attempted.push(request.clone());
        if self.broken.contains(&request.source) {
            Err(EngineError::at(EngineStep::ReadSource, format!("cannot decode {}", request.source)))
        } else {
            Ok(())
        }
    }
}

/// Drives a worker through one job, as an application does.
fn run(
    worker: &mut ConversionWorker,
    msg: ConversionWorkerInputMsg,
    entries: &Vec<ScanEntry>,
    engine: &mut StubEngine,
) -> Vec<ConversionWorkerMsg> {
    let mut events = worker.update(msg, entries).unwrap();
    while let Some(request) = worker.next_conversion() {
        let result = engine.convert(&request);
        let outcome = conversion_outcome(request, result);
        events.extend(worker.record_outcome(outcome).unwrap());
    }
    events
}

#[test]
fn three_valid_files_give_three_updates_and_completion() {
    let mut w = worker();
    let mut engine = StubEngine::new(&[]);
    let entries = files(&["/in/a.heic", "/in/b.heic", "/in/c.heic"]);
    let events = run(&mut w, job("/in", "/out"), &entries, &mut engine);
    assert_eq!(
        events,
        vec![
            ConversionWorkerMsg::ConversionStarted(3),
            update(1, 3),
            update(2, 3),
            update(3, 3),
            ConversionWorkerMsg::ConversionComplete,
        ]
    );
    assert_eq!(fraction(&events[1]), 1.0 / 3.0);
    assert_eq!(fraction(&events[2]), 2.0 / 3.0);
    assert_eq!(fraction(&events[3]), 1.0);
    assert_eq!(*w.state(), BatchState::Completed);
    assert_eq!(engine.attempted.len(), 3);
}

#[test]
fn no_matching_file_gives_start_and_completion_only() {
    let mut w = worker();
    let mut engine = StubEngine::new(&[]);
    let entries = files(&["/in/a.png", "/in/b.jpg", "/in/sub/c.JPG"]);
    let events = run(&mut w, job("/in", "/out"), &entries, &mut engine);
    assert_eq!(
        events,
        vec![ConversionWorkerMsg::ConversionStarted(0), ConversionWorkerMsg::ConversionComplete]
    );
    assert_eq!(*w.state(), BatchState::Completed);
    assert!(engine.attempted.is_empty());
    assert_eq!(w.next_conversion(), None);
}

#[test]
fn empty_walk_gives_start_and_completion_only() {
    let mut w = worker();
    let events = w.update(job("/in", "/out"), &Vec::new()).unwrap();
    assert_eq!(
        events,
        vec![ConversionWorkerMsg::ConversionStarted(0), ConversionWorkerMsg::ConversionComplete]
    );
}

#[test]
fn corrupted_second_file_stops_the_batch() {
    let mut w = worker();
    let mut engine = StubEngine::new(&["/in/b.heic"]);
    let entries = files(&["/in/a.heic", "/in/b.heic", "/in/c.heic"]);
    let events = run(&mut w, job("/in", "/out"), &entries, &mut engine);
    assert_eq!(
        events,
        vec![
            ConversionWorkerMsg::ConversionStarted(3),
            update(1, 3),
            ConversionWorkerMsg::ConversionFailed("cannot decode /in/b.heic".to_string()),
        ]
    );
    assert_eq!(fraction(&events[1]), 1.0 / 3.0);
    assert_eq!(
        *w.state(),
        BatchState::Failed { reason: "cannot decode /in/b.heic".to_string() }
    );
    let sources: Vec<&str> = engine.attempted.iter().map(|r| r.source.as_str()).collect();
    assert_eq!(sources, vec!["/in/a.heic", "/in/b.heic"]);
    assert_eq!(w.next_conversion(), None);
    assert_eq!(w.completed(), 1);
    assert_eq!(w.total(), 3);
}

#[test]
fn same_stem_in_two_folders_goes_to_one_output_and_the_later_wins() {
    let mut w = worker();
    let entries = files(&["/in/a/img.heic", "/in/b/img.heic"]);
    let mut events = w.update(job("/in", "/out"), &entries).unwrap();
    // A stand-in for the output folder: what was written last under a path.
    let mut disk: Vec<(String, String)> = Vec::new();
    let mut order: Vec<String> = Vec::new();
    while let Some(request) = w.next_conversion() {
        order.push(request.source.clone());
        disk.retain(|(path, _)| *path != request.destination);
        disk.push((request.destination.clone(), request.source.clone()));
        let outcome = conversion_outcome(request, Ok(()));
        events.extend(w.record_outcome(outcome).unwrap());
    }
    // Candidates are converted in the order of the walk.
    assert_eq!(order, vec!["/in/a/img.heic", "/in/b/img.heic"]);
    assert_eq!(disk, vec![("/out/img.jpg".to_string(), "/in/b/img.heic".to_string())]);
    assert_eq!(
        events,
        vec![
            ConversionWorkerMsg::ConversionStarted(2),
            update(1, 2),
            update(2, 2),
            ConversionWorkerMsg::ConversionComplete,
        ]
    );
}

#[test]
fn outputs_are_the_stems_of_the_candidates_at_any_depth() {
    let mut w = worker();
    let mut engine = StubEngine::new(&[]);
    let entries = vec![
        ScanEntry::Other("/in".to_string()),
        ScanEntry::File("/in/one.heic".to_string()),
        ScanEntry::Other("/in/deep".to_string()),
        ScanEntry::Unreadable,
        ScanEntry::File("/in/deep/two.HEIC".to_string()),
        ScanEntry::File("/in/deep/notes.txt".to_string()),
        ScanEntry::Other("/in/deep/folder.heic".to_string()),
        ScanEntry::File("/in/deep/er/three.Heic".to_string()),
    ];
    let events = run(&mut w, job("/in", "/out"), &entries, &mut engine);
    assert_eq!(events[0], ConversionWorkerMsg::ConversionStarted(3));
    assert_eq!(events.len(), 5);
    let mut outputs: Vec<&str> = engine.attempted.iter().map(|r| r.destination.as_str()).collect();
    outputs.sort();
    assert_eq!(outputs, vec!["/out/one.jpg", "/out/three.jpg", "/out/two.jpg"]);
}

#[test]
fn start_is_announced_once_with_the_number_of_candidates() {
    let mut w = worker();
    let mut engine = StubEngine::new(&[]);
    let entries = files(&["/in/a.heic", "/in/x/y/z/b.heic", "/in/c.png", "/in/q/d.HEIC"]);
    let events = run(&mut w, job("/in", "/out"), &entries, &mut engine);
    let starts: Vec<&ConversionWorkerMsg> = events
        .iter()
        .filter(|e| matches!(e, ConversionWorkerMsg::ConversionStarted(_)))
        .collect();
    assert_eq!(starts, vec![&ConversionWorkerMsg::ConversionStarted(3)]);
    assert_eq!(events[0], ConversionWorkerMsg::ConversionStarted(3));
}

#[test]
fn fractions_rise_strictly_up_to_one() {
    let mut w = worker();
    let mut engine = StubEngine::new(&[]);
    let names: Vec<String> = (0..7).map(|i| format!("/in/{}.heic", i)).collect();
    let entries: Vec<ScanEntry> = names.iter().map(|n| ScanEntry::File(n.clone())).collect();
    let events = run(&mut w, job("/in", "/out"), &entries, &mut engine);
    assert_eq!(events.len(), 9);
    let mut last = 0.0;
    for k in 1..=7 {
        assert_eq!(events[k], update(k, 7));
        let f = fraction(&events[k]);
        assert_eq!(f, k as f64 / 7.0);
        assert!(f > last);
        last = f;
    }
    assert_eq!(last, 1.0);
    assert_eq!(events[8], ConversionWorkerMsg::ConversionComplete);
}

#[test]
fn failure_at_each_position_gives_the_updates_before_it() {
    for k in 1..=4usize {
        let mut w = worker();
        let names: Vec<String> = (1..=4).map(|i| format!("/in/{}.heic", i)).collect();
        let entries: Vec<ScanEntry> = names.iter().map(|n| ScanEntry::File(n.clone())).collect();
        let broken = names[k - 1].clone();
        let mut engine = StubEngine::new(&[broken.as_str()]);
        let events = run(&mut w, job("/in", "/out"), &entries, &mut engine);
        assert_eq!(events.len(), k + 1);
        assert_eq!(events[0], ConversionWorkerMsg::ConversionStarted(4));
        for j in 1..k {
            assert_eq!(events[j], update(j, 4));
        }
        assert_eq!(
            events[k],
            ConversionWorkerMsg::ConversionFailed(format!("cannot decode {}", broken))
        );
        assert_eq!(engine.attempted.len(), k);
        assert!(!events.contains(&ConversionWorkerMsg::ConversionComplete));
    }
}

#[test]
fn a_job_is_refused_while_another_runs() {
    let mut w = worker();
    let entries = files(&["/in/a.heic", "/in/b.heic"]);
    w.update(job("/in", "/out"), &entries).unwrap();
    assert!(w.is_running());
    assert_eq!(*w.state(), BatchState::Running { total: 2, completed: 0 });
    assert_eq!(w.update(job("/other", "/out2"), &files(&["/other/x.heic"])), Err(WorkerError::Busy));
    assert_eq!(*w.state(), BatchState::Running { total: 2, completed: 0 });
    assert_eq!(
        w.next_conversion(),
        Some(ConversionRequest {
            source: "/in/a.heic".to_string(),
            destination: "/out/a.jpg".to_string()
        })
    );
}

#[test]
fn an_outcome_is_refused_when_no_job_runs() {
    let mut w = worker();
    assert_eq!(*w.state(), BatchState::Idle);
    assert_eq!(
        w.record_outcome(ConversionOutcome::Converted("/out/a.jpg".to_string())),
        Err(WorkerError::NotRunning)
    );
    assert_eq!(*w.state(), BatchState::Idle);
    w.update(job("/in", "/out"), &files(&["/in/a.heic"])).unwrap();
    w.record_outcome(ConversionOutcome::Failed("broken".to_string())).unwrap();
    assert_eq!(
        w.record_outcome(ConversionOutcome::Converted("/out/a.jpg".to_string())),
        Err(WorkerError::NotRunning)
    );
    assert_eq!(*w.state(), BatchState::Failed { reason: "broken".to_string() });
}

#[test]
fn a_new_job_starts_after_a_failed_or_completed_one() {
    let mut w = worker();
    let mut engine = StubEngine::new(&["/in/a.heic"]);
    run(&mut w, job("/in", "/out"), &files(&["/in/a.heic", "/in/b.heic"]), &mut engine);
    assert!(matches!(w.state(), BatchState::Failed { .. }));
    let mut engine = StubEngine::new(&[]);
    let events = run(&mut w, job("/in2", "/out2"), &files(&["/in2/c.heic"]), &mut engine);
    assert_eq!(
        events,
        vec![
            ConversionWorkerMsg::ConversionStarted(1),
            update(1, 1),
            ConversionWorkerMsg::ConversionComplete,
        ]
    );
    assert_eq!(engine.attempted[0].destination, "/out2/c.jpg");
    let events = run(&mut w, job("/in3", "/out3"), &files(&[]), &mut engine);
    assert_eq!(events.len(), 2);
    assert_eq!(w.total(), 0);
    assert_eq!(w.completed(), 0);
}

#[test]
fn running_state_counts_up_with_a_fixed_total() {
    let mut w = worker();
    let entries = files(&["/in/a.heic", "/in/b.heic", "/in/c.heic"]);
    w.update(job("/in", "/out"), &entries).unwrap();
    for done in 1..3usize {
        w.record_outcome(ConversionOutcome::Converted(String::new())).unwrap();
        assert_eq!(*w.state(), BatchState::Running { total: 3, completed: done });
        assert_eq!(w.completed(), done);
        assert_eq!(w.total(), 3);
    }
    w.record_outcome(ConversionOutcome::Converted(String::new())).unwrap();
    assert_eq!(*w.state(), BatchState::Completed);
    assert_eq!(w.completed(), 3);
}

#[test]
fn engine_failures_are_told_apart_by_their_step() {
    assert_eq!(
        EngineError::at(EngineStep::ReadSource, "no decode delegate".to_string()),
        EngineError::Decode("no decode delegate".to_string())
    );
    assert_eq!(
        EngineError::at(EngineStep::SetFormat, "bad format".to_string()),
        EngineError::Encode("bad format".to_string())
    );
    assert_eq!(
        EngineError::at(EngineStep::WriteOutput, "disk full".to_string()),
        EngineError::Encode("disk full".to_string())
    );
    assert_eq!(EngineError::Decode("d".to_string()).reason(), "d");
    assert_eq!(EngineError::Encode("e".to_string()).reason(), "e");
    assert_eq!(EngineError::CodecInit("c".to_string()).reason(), "c");
}

#[test]
fn outcome_carries_destination_or_reason() {
    let request = ConversionRequest {
        source: "/in/a.heic".to_string(),
        destination: "/out/a.jpg".to_string(),
    };
    assert_eq!(
        conversion_outcome(request.clone(), Ok(())),
        ConversionOutcome::Converted("/out/a.jpg".to_string())
    );
    assert_eq!(
        conversion_outcome(request, Err(EngineError::Encode("permission denied".to_string()))),
        ConversionOutcome::Failed("permission denied".to_string())
    );
}

#[test]
fn codec_that_fails_to_start_gives_no_token() {
    assert!(initialize_codec(Ok(())).is_ok());
    match initialize_codec(Err("no delegates".to_string())) {
        Err(error) => assert_eq!(error, EngineError::CodecInit("no delegates".to_string())),
        Ok(_) => panic!("a token without a codec"),
    }
}

#[test]
fn request_message_becomes_the_job() {
    let j = job("/in", "/out").into_job();
    assert_eq!(j.input_root, "/in");
    assert_eq!(j.output_root, "/out");
}

#[test]
fn reset_makes_a_worker_idle_unless_it_runs() {
    let mut w = worker();
    w.update(job("/in", "/out"), &files(&["/in/a.heic"])).unwrap();
    assert_eq!(w.reset(), Err(WorkerError::Busy));
    assert!(w.is_running());
    w.record_outcome(ConversionOutcome::Converted("/out/a.jpg".to_string())).unwrap();
    assert_eq!(*w.state(), BatchState::Completed);
    assert_eq!(w.reset(), Ok(()));
    assert_eq!(*w.state(), BatchState::Idle);
    assert_eq!(w.total(), 0);
    assert_eq!(w.completed(), 0);
    assert_eq!(w.next_conversion(), None);
}
