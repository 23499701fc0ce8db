//! The job adapter's lifecycle reporting, observed through listeners.

use std::sync::Arc;
use std::sync::Mutex;

use nekobox_core::error::Error;
use nekobox_core::models::AudioFormat;
use nekobox_core::models::MediaType;
use nekobox_core::models::TaskResponse;
use nekobox_core::queue::Queue;
use nekobox_core::queue::QueueData;
use nekobox_core::queue::QueueJob;
use nekobox_core::queue::ScheduleAction;
use nekobox_core::service::DownloadResponse;
use nekobox_core::service::FetchCollection;
use nekobox_core::service::FetchService;
use nekobox_core::service::FetchServiceEvents;
use nekobox_core::service::FetchServiceHandler;
use nekobox_core::service::ResponseStatus;

/// A backend whose download succeeds or fails on demand.
struct StubService {
    succeed: bool,
}

impl FetchService for StubService {
    fn prepare(&mut self, _task: &TaskResponse, _url: &str) -> Result<(), Error> {
        Ok(())
    }

    fn collect(&mut self) -> Result<FetchCollection, Error> {
        Ok(FetchCollection::builder())
    }

    fn download(
        &mut self,
        _media_type: MediaType,
        _audio_format: Option<AudioFormat>,
    ) -> Result<DownloadResponse, Error> {
        if self.succeed {
            Ok(DownloadResponse::new(ResponseStatus::Complete, None))
        } else {
            Err(Error::InternalError)
        }
    }
}

/// A listener that writes every callback it receives into a shared log.
struct RecordingListener {
    id: usize,
    log: Arc<Mutex<Vec<(usize, &'static str)>>>,
}

impl FetchServiceEvents for RecordingListener {
    fn on_start(&mut self) {
        self.log.lock().unwrap().push((self.id, "start"));
    }

    fn on_end(&mut self) {
        self.log.lock().unwrap().push((self.id, "end"));
    }

    fn on_complete(&mut self) {
        self.log.lock().unwrap().push((self.id, "complete"));
    }

    fn on_error(&mut self) {
        self.log.lock().unwrap().push((self.id, "error"));
    }
}

fn handler_with_log(
    succeed: bool,
    log: &Arc<Mutex<Vec<(usize, &'static str)>>>,
) -> FetchServiceHandler<StubService, RecordingListener> {
    let mut handler = FetchServiceHandler::new(
        "https://example.com/watch?v=1",
        StubService { succeed },
        MediaType::Video,
        None,
    );
    handler.add_observer(RecordingListener { id: 0, log: Arc::clone(log) });
    handler
}

#[test]
fn successful_run_fires_start_complete_end() {
    let log = Arc::new(Mutex::new(Vec::new()));
    let mut handler = handler_with_log(true, &log);
    let result = handler.run_job();
    assert!(result.is_ok());
    let events = log.lock().unwrap().clone();
    assert_eq!(events, vec![(0, "start"), (0, "complete"), (0, "end")]);
}

#[test]
fn failing_run_fires_start_error_end() {
    let log = Arc::new(Mutex::new(Vec::new()));
    let mut handler = handler_with_log(false, &log);
    let result = handler.run_job();
    assert!(matches!(result, Err(Error::InternalError)));
    let events = log.lock().unwrap().clone();
    // No completion is ever reported for a failed download.
    assert_eq!(events, vec![(0, "start"), (0, "error"), (0, "end")]);
}

#[test]
fn observers_fire_in_insertion_order() {
    let log = Arc::new(Mutex::new(Vec::new()));
    let mut handler = FetchServiceHandler::new(
        "https://example.com/watch?v=2",
        StubService { succeed: true },
        MediaType::Audio,
        Some(AudioFormat::Mp3),
    );
    handler.add_observer(RecordingListener { id: 1, log: Arc::clone(&log) });
    handler.add_observer(RecordingListener { id: 2, log: Arc::clone(&log) });
    let _ = handler.run_job();
    let events = log.lock().unwrap().clone();
    assert_eq!(
        events,
        vec![
            (1, "start"),
            (2, "start"),
            (1, "complete"),
            (2, "complete"),
            (1, "end"),
            (2, "end"),
        ]
    );
}

#[test]
fn prepare_and_collect_pass_through() {
    let mut handler: FetchServiceHandler<StubService, RecordingListener> = FetchServiceHandler::new(
        "https://example.com/watch?v=3",
        StubService { succeed: true },
        MediaType::Video,
        None,
    );
    let task = TaskResponse::pending("abcdefgh12345678".to_string(), 7);
    assert!(handler.prepare(&task, "https://example.com/watch?v=3").is_ok());
    let collection = handler.collect().unwrap();
    assert!(collection.title.is_none());
    assert!(collection.duration.is_none());
}

#[test]
fn five_instantaneous_jobs_complete_in_submission_order() {
    // Two slots, no pacing delay, a ten-millisecond poll, no throttle.
    let data = QueueData::with_policy(2, 0, 10, None, 0);
    let mut queue: Queue<FetchServiceHandler<StubService, RecordingListener>> =
        Queue::with_data(data);
    let log = Arc::new(Mutex::new(Vec::new()));
    for id in 0..5 {
        let mut handler = FetchServiceHandler::new(
            "https://example.com/watch?v=4",
            StubService { succeed: true },
            MediaType::Video,
            None,
        );
        handler.add_observer(RecordingListener { id, log: Arc::clone(&log) });
        queue.push(handler);
    }
    let mut running = 0usize;
    let mut dispatches = 0usize;
    loop {
        match queue.schedule_step(running) {
            ScheduleAction::Dispatch { mut job, .. } => {
                // The job is instantaneous: run it on the spot and report
                // it finished at the next decision.
                job.run();
                running = 1;
                dispatches += 1;
            }
            ScheduleAction::Idle { .. } => break,
            _ => panic!("with instant jobs nothing else can happen"),
        }
    }
    assert_eq!(dispatches, 5);
    let events = log.lock().unwrap().clone();
    let completions: Vec<usize> = events
        .iter()
        .filter(|(_, what)| *what == "complete")
        .map(|(id, _)| *id)
        .collect();
    assert_eq!(completions, vec![0, 1, 2, 3, 4]);
}
