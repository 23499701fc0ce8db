//! The job adapter: it wraps one fetch request around a pluggable backend,
//! makes it schedulable, and reports the job's lifecycle to an ordered list
//! of observers.
//!
//! One run fires `on_start` to every observer in insertion order, performs
//! the backend's download, fires exactly one of `on_complete` / `on_error`
//! as that succeeded or failed, and always fires `on_end` afterwards. The
//! adapter records the events it has fired in a ghost history, and every
//! single callback it has delivered — which observer, which event — in a
//! ghost delivery log; its contracts are stated over both.

use vstd::prelude::*;
use crate::error::Error;
use crate::models::AudioFormat;
use crate::models::MediaType;
use crate::models::TaskResponse;
use crate::queue::QueueJob;

verus! {

/// The lifecycle points a job passes, in the order the adapter fires them.
#[derive(Clone, Copy, Debug, PartialEq, Eq, Structural)]
pub enum LifecycleEvent {
    Start,
    Complete,
    Error,
    End,
}

/// A listener on job lifecycle events. Implementations live outside the
/// library (a status store, a progress display); their calls are
/// fire-and-forget and nothing is assumed of them.
pub trait FetchServiceEvents: Send {
    fn on_start(&mut self);

    fn on_end(&mut self);

    fn on_complete(&mut self);

    fn on_error(&mut self);
}

/// The pluggable fetch backend: prepare a working location, collect cheap
/// metadata, perform the long-running download. Implementations live
/// outside the library and decide success on their own.
pub trait FetchService {
    fn prepare(&mut self, task: &TaskResponse, url: &str) -> Result<(), Error>;

    fn collect(&mut self) -> Result<FetchCollection, Error>;

    fn download(&mut self, media_type: MediaType, audio_format: Option<AudioFormat>) -> Result<
        DownloadResponse,
        Error,
    >;
}

/// What a finished download reports: where it stands and where the files
/// went, as a path rendered to text.
#[derive(Debug, Clone)]
pub struct DownloadResponse {
    pub status: ResponseStatus,
    pub path: Option<String>,
}

impl DownloadResponse {
    pub fn new(status: ResponseStatus, path: Option<String>) -> (r: Self)
        ensures
            r.status == status,
            r.path == path,
    {
        DownloadResponse { status, path }
    }
}

/// Where a download stands.
#[derive(Clone, Copy, Debug, PartialEq, Eq, Structural)]
pub enum ResponseStatus {
    Complete,
    Pending,
    Failed,
}

/// The metadata a backend could collect without downloading. Any field the
/// backend cannot supply is absent, never invented.
#[derive(Debug, Clone)]
pub struct FetchCollection {
    pub title: Option<String>,
    pub description: Option<String>,
    pub duration: Option<usize>,
    pub channel: Option<String>,
    pub views: Option<usize>,
    pub uploader: Option<String>,
}

impl FetchCollection {
    /// An empty collection, every field absent.
    pub fn builder() -> (r: Self)
        ensures
            r.title is None,
            r.description is None,
            r.duration is None,
            r.channel is None,
            r.views is None,
            r.uploader is None,
    {
        FetchCollection {
            title: None,
            description: None,
            duration: None,
            channel: None,
            views: None,
            uploader: None,
        }
    }

    pub fn title(&mut self, title: String)
        ensures
            *final(self) == (FetchCollection { title: Some(title), ..*old(self) }),
    {
        self.title = Some(title);
    }

    pub fn description(&mut self, description: String)
        ensures
            *final(self) == (FetchCollection { description: Some(description), ..*old(self) }),
    {
        self.description = Some(description);
    }

    pub fn channel(&mut self, channel: String)
        ensures
            *final(self) == (FetchCollection { channel: Some(channel), ..*old(self) }),
    {
        self.channel = Some(channel);
    }

    pub fn duration(&mut self, duration: usize)
        ensures
            *final(self) == (FetchCollection { duration: Some(duration), ..*old(self) }),
    {
        self.duration = Some(duration);
    }

    pub fn views(&mut self, views: usize)
        ensures
            *final(self) == (FetchCollection { views: Some(views), ..*old(self) }),
    {
        self.views = Some(views);
    }

    pub fn uploader(&mut self, uploader: String)
        ensures
            *final(self) == (FetchCollection { uploader: Some(uploader), ..*old(self) }),
    {
        self.uploader = Some(uploader);
    }
}

/// How often an event occurs in a history.
pub open spec fn occurrences(s: Seq<LifecycleEvent>, e: LifecycleEvent) -> nat
    decreases s.len(),
{
    if s.len() == 0 {
        0
    } else {
        occurrences(s.drop_last(), e) + if s.last() == e {
            1nat
        } else {
            0nat
        }
    }
}

/// The three events one run appends to the adapter's history: a start,
/// then a completion or an error as the download went, then an end.
pub open spec fn run_events(ok: bool) -> Seq<LifecycleEvent> {
    seq![
        LifecycleEvent::Start,
        if ok {
            LifecycleEvent::Complete
        } else {
            LifecycleEvent::Error
        },
        LifecycleEvent::End,
    ]
}

/// The callbacks one lifecycle point delivers: every observer by index,
/// in insertion order.
pub open spec fn deliveries_to_all(e: LifecycleEvent, n: int) -> Seq<(int, LifecycleEvent)> {
    Seq::new(n as nat, |j: int| (j, e))
}

/// The callbacks one run delivers: each lifecycle point goes to every
/// observer, in insertion order, and the run does not pass a point until
/// that point's whole block of callbacks has been delivered.
pub open spec fn run_deliveries(ok: bool, n: int) -> Seq<(int, LifecycleEvent)> {
    deliveries_to_all(LifecycleEvent::Start, n) + deliveries_to_all(
        if ok {
            LifecycleEvent::Complete
        } else {
            LifecycleEvent::Error
        },
        n,
    ) + deliveries_to_all(LifecycleEvent::End, n)
}

/// One appended event raises its own count by one and no other count.
pub proof fn lemma_occurrences_push(s: Seq<LifecycleEvent>, x: LifecycleEvent, e: LifecycleEvent)
    ensures
        occurrences(s.push(x), e) == occurrences(s, e) + if x == e {
            1nat
        } else {
            0nat
        },
{
    assert(s.push(x).drop_last() =~= s);
    assert(s.push(x).last() == x);
    assert(occurrences(s.push(x), e) == occurrences(s.push(x).drop_last(), e) + if s.push(
        x,
    ).last() == e {
        1nat
    } else {
        0nat
    });
}

/// Lifecycle exclusivity: whatever the outcome, one run fires exactly one
/// start, exactly one of complete or error — never both, never neither —
/// and exactly one end, which comes last.
pub proof fn lemma_lifecycle_exclusive(ok: bool)
    ensures
        occurrences(run_events(ok), LifecycleEvent::Start) == 1,
        occurrences(run_events(ok), LifecycleEvent::Complete) + occurrences(
            run_events(ok),
            LifecycleEvent::Error,
        ) == 1,
        occurrences(run_events(ok), LifecycleEvent::End) == 1,
        run_events(ok)[0] == LifecycleEvent::Start,
        run_events(ok).last() == LifecycleEvent::End,
{
    let mid = if ok {
        LifecycleEvent::Complete
    } else {
        LifecycleEvent::Error
    };
    let e0 = Seq::<LifecycleEvent>::empty();
    let s1 = e0.push(LifecycleEvent::Start);
    let s2 = s1.push(mid);
    let s3 = s2.push(LifecycleEvent::End);
    assert(run_events(ok) =~= s3);
    assert(occurrences(e0, LifecycleEvent::Start) == 0);
    assert(occurrences(e0, LifecycleEvent::Complete) == 0);
    assert(occurrences(e0, LifecycleEvent::Error) == 0);
    assert(occurrences(e0, LifecycleEvent::End) == 0);
    lemma_occurrences_push(e0, LifecycleEvent::Start, LifecycleEvent::Start);
    lemma_occurrences_push(e0, LifecycleEvent::Start, LifecycleEvent::Complete);
    lemma_occurrences_push(e0, LifecycleEvent::Start, LifecycleEvent::Error);
    lemma_occurrences_push(e0, LifecycleEvent::Start, LifecycleEvent::End);
    lemma_occurrences_push(s1, mid, LifecycleEvent::Start);
    lemma_occurrences_push(s1, mid, LifecycleEvent::Complete);
    lemma_occurrences_push(s1, mid, LifecycleEvent::Error);
    lemma_occurrences_push(s1, mid, LifecycleEvent::End);
    lemma_occurrences_push(s2, LifecycleEvent::End, LifecycleEvent::Start);
    lemma_occurrences_push(s2, LifecycleEvent::End, LifecycleEvent::Complete);
    lemma_occurrences_push(s2, LifecycleEvent::End, LifecycleEvent::Error);
    lemma_occurrences_push(s2, LifecycleEvent::End, LifecycleEvent::End);
}

/// The job adapter: one URL, one backend, the asked-for media kind, and
/// the observers to notify, in insertion order.
pub struct FetchServiceHandler<T, L> {
    url: String,
    service: T,
    media_type: MediaType,
    audio_format: Option<AudioFormat>,
    observers: Vec<L>,
    events: Ghost<Seq<LifecycleEvent>>,
    deliveries: Ghost<Seq<(int, LifecycleEvent)>>,
}

impl<T: FetchService, L: FetchServiceEvents> FetchServiceHandler<T, L> {
    /// The lifecycle events this adapter has fired so far, in order.
    pub closed spec fn events(self) -> Seq<LifecycleEvent> {
        self.events@
    }

    pub closed spec fn spec_url(self) -> Seq<char> {
        self.url@
    }

    pub closed spec fn spec_media_type(self) -> MediaType {
        self.media_type
    }

    pub closed spec fn spec_audio_format(self) -> Option<AudioFormat> {
        self.audio_format
    }

    /// Every callback delivered so far: which observer, which event, in
    /// delivery order.
    pub closed spec fn deliveries(self) -> Seq<(int, LifecycleEvent)> {
        self.deliveries@
    }

    /// The observers, in insertion order.
    pub closed spec fn observers_view(self) -> Seq<L> {
        self.observers@
    }

    /// The backend this adapter drives.
    pub closed spec fn spec_service(self) -> T {
        self.service
    }

    pub open spec fn observer_count(self) -> int {
        self.observers_view().len() as int
    }

    pub fn new(url: &str, service: T, media_type: MediaType, audio_format: Option<AudioFormat>) -> (r:
        Self)
        ensures
            r.spec_url() == url@,
            r.spec_service() == service,
            r.spec_media_type() == media_type,
            r.spec_audio_format() == audio_format,
            r.observers_view() =~= Seq::<L>::empty(),
            r.events() =~= Seq::<LifecycleEvent>::empty(),
            r.deliveries() =~= Seq::<(int, LifecycleEvent)>::empty(),
    {
        FetchServiceHandler {
            url: url.to_owned(),
            service,
            media_type,
            audio_format,
            observers: Vec::new(),
            events: Ghost(Seq::empty()),
            deliveries: Ghost(Seq::empty()),
        }
    }

    /// Appends an observer behind all earlier ones; observers are notified
    /// in insertion order, so events reach it after every observer that was
    /// added before it.
    pub fn add_observer(&mut self, observer: L)
        ensures
            final(self).observers_view() == old(self).observers_view().push(observer),
            final(self).events() == old(self).events(),
            final(self).deliveries() == old(self).deliveries(),
            final(self).spec_url() == old(self).spec_url(),
            final(self).spec_service() == old(self).spec_service(),
            final(self).spec_media_type() == old(self).spec_media_type(),
            final(self).spec_audio_format() == old(self).spec_audio_format(),
    {
        self.observers.push(observer);
    }

    /// Notifies every observer of one lifecycle point, in insertion order,
    /// records the event in the history, and records each callback in the
    /// delivery log. Observer calls are fire-and-forget: whatever an
    /// observer does, the loop goes on to the next one.
    fn fire_event(&mut self, event: LifecycleEvent)
        ensures
            final(self).events@ == old(self).events@.push(event),
            final(self).deliveries@ == old(self).deliveries@ + deliveries_to_all(
                event,
                old(self).observers@.len() as int,
            ),
            final(self).url == old(self).url,
            final(self).service == old(self).service,
            final(self).media_type == old(self).media_type,
            final(self).audio_format == old(self).audio_format,
            final(self).observers.len() == old(self).observers.len(),
    {
        let n = self.observers.len();
        let mut i: usize = 0;
        while i < n
            invariant
                i <= n,
                self.observers.len() == n,
                self.url == old(self).url,
                self.service == old(self).service,
                self.media_type == old(self).media_type,
                self.audio_format == old(self).audio_format,
                self.events == old(self).events,
                self.deliveries@ == old(self).deliveries@ + deliveries_to_all(event, i as int),
            decreases n - i,
        {
            let mut observer = self.observers.remove(i);
            match event {
                LifecycleEvent::Start => observer.on_start(),
                LifecycleEvent::Complete => observer.on_complete(),
                LifecycleEvent::Error => observer.on_error(),
                LifecycleEvent::End => observer.on_end(),
            }
            self.observers.insert(i, observer);
            self.deliveries = Ghost(self.deliveries@.push((i as int, event)));
            proof {
                assert(old(self).deliveries@ + deliveries_to_all(event, i + 1) =~= (old(
                    self,
                ).deliveries@ + deliveries_to_all(event, i as int)).push((i as int, event)));
            }
            i = i + 1;
        }
        self.events = Ghost(self.events@.push(event));
    }

    /// Hands the task and URL to the backend so it can establish its
    /// working location. Surfaced synchronously, before the job is queued.
    pub fn prepare(&mut self, task: &TaskResponse, url: &str) -> (r: Result<(), Error>)
        ensures
            final(self).events() == old(self).events(),
            final(self).deliveries() == old(self).deliveries(),
            final(self).observers_view() == old(self).observers_view(),
            final(self).spec_url() == old(self).spec_url(),
            final(self).spec_media_type() == old(self).spec_media_type(),
            final(self).spec_audio_format() == old(self).spec_audio_format(),
    {
        self.service.prepare(task, url)
    }

    /// Asks the backend for its cheap metadata. Surfaced synchronously,
    /// before the job is queued.
    pub fn collect(&mut self) -> (r: Result<FetchCollection, Error>)
        ensures
            final(self).events() == old(self).events(),
            final(self).deliveries() == old(self).deliveries(),
            final(self).observers_view() == old(self).observers_view(),
            final(self).spec_url() == old(self).spec_url(),
            final(self).spec_media_type() == old(self).spec_media_type(),
            final(self).spec_audio_format() == old(self).spec_audio_format(),
    {
        self.service.collect()
    }

    /// Runs the fetch once: `on_start` to every observer, the backend's
    /// download, then exactly one of `on_complete` / `on_error` as the
    /// download succeeded or failed, then `on_end` whatever the outcome.
    /// The appended history is `run_events(r is Ok)`, and the delivery log
    /// shows every callback reaching the observers in insertion order,
    /// point by point.
    pub fn run_job(&mut self) -> (r: Result<DownloadResponse, Error>)
        ensures
            final(self).events() == old(self).events() + run_events(r is Ok),
            final(self).deliveries() == old(self).deliveries() + run_deliveries(
                r is Ok,
                old(self).observer_count(),
            ),
            final(self).observer_count() == old(self).observer_count(),
            final(self).spec_url() == old(self).spec_url(),
            final(self).spec_media_type() == old(self).spec_media_type(),
            final(self).spec_audio_format() == old(self).spec_audio_format(),
    {
        self.fire_event(LifecycleEvent::Start);
        let result = self.service.download(self.media_type, self.audio_format);
        match &result {
            Ok(_) => self.fire_event(LifecycleEvent::Complete),
            Err(_) => self.fire_event(LifecycleEvent::Error),
        }
        self.fire_event(LifecycleEvent::End);
        proof {
            assert(self.events@ =~= old(self).events@ + run_events(result is Ok));
            assert(self.deliveries@ =~= old(self).deliveries@ + run_deliveries(
                result is Ok,
                old(self).observer_count(),
            ));
        }
        result
    }
}

impl<T: FetchService + Send, L: FetchServiceEvents> QueueJob for FetchServiceHandler<T, L> {
    fn run(&mut self)
        ensures
            exists|ok: bool|
                final(self).events() == old(self).events() + #[trigger] run_events(ok)
                    && final(self).deliveries() == old(self).deliveries() + run_deliveries(
                    ok,
                    old(self).observer_count(),
                ),
    {
        let result = self.run_job();
        proof {
            let ok = result is Ok;
            assert(self.events() == old(self).events() + run_events(ok) && self.deliveries()
                == old(self).deliveries() + run_deliveries(ok, old(self).observer_count()));
        }
    }
}

} // verus!
