use std::future::Future;
use std::pin::Pin;
use std::sync::atomic::{AtomicBool, AtomicUsize, Ordering};
use std::sync::Arc;
use std::time::{Duration, Instant};

use cream::context::events_context::EventsContextBuilder;
use cream::context::{Context, CreamContext, FromContext};
use cream::event_bus::{create, retry, valid_capacity, EventBusPort, Polled, PublishError, Retry};
use cream::events::router::{caller, EventHandlers, Router};
use cream::events::{describe, DomainEvent, DynEvent, Error, EventId, EventInfo, Handler};
use cream::router_bus::{BusState, RouterBus, Step};
use cream::tasks::{
    admits, Observation, Origin, SpawnError, Tasks, WaitLoop, WaitStep,
};

type Job = Pin<Box<dyn Future<Output = Result<(), Error>> + Send>>;
type Caller = fn(&Ctx, Event) -> Job;

const PING: EventId = 10;
const PONG: EventId = 11;
const SLOW: EventId = 12;

#[derive(Clone, Debug, PartialEq)]
enum Event {
    Ping(u32),
    Pong,
    Slow,
}

impl DynEvent for Event {
    fn identity(&self) -> EventId {
        match self {
            Event::Ping(_) => PING,
            Event::Pong => PONG,
            Event::Slow => SLOW,
        }
    }
}

impl DomainEvent for Event {
    fn name(&self) -> &'static str {
        match self {
            Event::Ping(_) => "Ping",
            Event::Pong => "Pong",
            Event::Slow => "Slow",
        }
    }

    fn version(&self) -> &'static str {
        "1.0.0"
    }
}

#[derive(Clone)]
struct Ctx {
    first: Arc<AtomicUsize>,
    second: Arc<AtomicUsize>,
    seen: Arc<AtomicUsize>,
    nested: Arc<AtomicUsize>,
    tasks: Tasks,
}

impl Ctx {
    fn new(tasks: Tasks) -> Self {
        Ctx {
            first: Arc::new(AtomicUsize::new(0)),
            second: Arc::new(AtomicUsize::new(0)),
            seen: Arc::new(AtomicUsize::new(0)),
            nested: Arc::new(AtomicUsize::new(0)),
            tasks,
        }
    }
}

impl Context for Ctx {}

struct First(Arc<AtomicUsize>, Arc<AtomicUsize>);
struct Second(Arc<AtomicUsize>);
struct SlowHandler(Tasks, Arc<AtomicUsize>);

impl FromContext<Ctx> for First {
    fn from_context(ctx: &Ctx) -> Self {
        First(ctx.first.clone(), ctx.seen.clone())
    }
}

impl FromContext<Ctx> for Second {
    fn from_context(ctx: &Ctx) -> Self {
        Second(ctx.second.clone())
    }
}

impl FromContext<Ctx> for SlowHandler {
    fn from_context(ctx: &Ctx) -> Self {
        SlowHandler(ctx.tasks.clone(), ctx.nested.clone())
    }
}

impl Handler for First {
    type Event = Event;
    type Invocation = Job;

    fn handle(self, event: Event) -> Job {
        Box::pin(async move {
            if let Event::Ping(n) = event {
                self.1.store(n as usize, Ordering::SeqCst);
            }
            self.0.fetch_add(1, Ordering::SeqCst);
            Ok(())
        })
    }
}

impl Handler for Second {
    type Event = Event;
    type Invocation = Job;

    fn handle(self, _: Event) -> Job {
        Box::pin(async move {
            self.0.fetch_add(1, Ordering::SeqCst);
            Err(Error::Failed)
        })
    }
}

impl Handler for SlowHandler {
    type Event = Event;
    type Invocation = Job;

    fn handle(self, _: Event) -> Job {
        Box::pin(async move {
            let done = self.1.clone();
            let spawned = self.0.spawn_nested(async move {
                tokio::time::sleep(Duration::from_millis(200)).await;
                done.fetch_add(1, Ordering::SeqCst);
            });
            assert!(spawned.is_ok());
            Ok(())
        })
    }
}

fn router() -> Router<Caller> {
    let mut router = Router::<Caller>::default();
    router.add(PING, caller::<Ctx, First>);
    router.add(PING, caller::<Ctx, Second>);
    router.add(SLOW, caller::<Ctx, SlowHandler>);
    router
}

fn runtime() -> tokio::runtime::Runtime {
    tokio::runtime::Builder::new_current_thread()
        .enable_time()
        .build()
        .unwrap()
}

async fn wait(tasks: &Tasks) {
    let mut waiter = WaitLoop::new();
    loop {
        tasks.tracker().wait().await;
        if waiter.observe(tasks.observe()) == WaitStep::Done {
            return;
        }
        tokio::task::yield_now().await;
    }
}

async fn listen(mut bus: RouterBus<Ctx, Event, Caller>, warned: Arc<AtomicUsize>) {
    while bus.current_state() == BusState::Running {
        let received = bus.socket().receiver().recv().await;
        match bus.listen_once(received) {
            Step::Dispatch(jobs) => {
                for outcome in bus.tasks().spawn_all(Origin::Dispatch, jobs) {
                    assert!(outcome.is_ok());
                }
            }
            Step::Unroutable(_) => {
                warned.fetch_add(1, Ordering::SeqCst);
            }
            Step::Stop => {}
        }
    }
}

#[test]
fn unrouted_identity_dispatches_nothing() {
    let ctx = Ctx::new(Tasks::new());
    let router = router();
    assert!(router.routes(PING));
    assert!(!router.routes(PONG));
    assert_eq!(router.count(PING), 2);
    assert_eq!(router.count(PONG), 0);
    assert!(router.dispatch(&ctx, PONG, Event::Pong).is_none());
    assert!(router.call(&ctx, Event::Pong).is_none());
    assert!(Router::<Caller>::default().call(&ctx, Event::Ping(1)).is_none());
}

#[test]
fn each_handler_gets_its_own_copy_in_registration_order() {
    let ctx = Ctx::new(Tasks::new());
    let jobs = router().call(&ctx, Event::Ping(7)).unwrap();
    assert_eq!(jobs.len(), 2);
    let outcomes: Vec<Result<(), Error>> = runtime().block_on(async move {
        let mut outcomes = Vec::new();
        for job in jobs {
            outcomes.push(job.await);
        }
        outcomes
    });
    assert_eq!(outcomes, vec![Ok(()), Err(Error::Failed)]);
    assert_eq!(ctx.first.load(Ordering::SeqCst), 1);
    assert_eq!(ctx.second.load(Ordering::SeqCst), 1);
    assert_eq!(ctx.seen.load(Ordering::SeqCst), 7);
}

#[test]
fn handler_set_fans_out_alone() {
    let ctx = Ctx::new(Tasks::new());
    let mut set = EventHandlers::<Caller>::new(PING);
    assert_eq!(set.identity(), PING);
    assert_eq!(set.len(), 0);
    assert_eq!(set.call(&ctx, Event::Ping(1)).len(), 0);
    set.add(caller::<Ctx, First>);
    set.add(caller::<Ctx, First>);
    set.add(caller::<Ctx, Second>);
    assert_eq!(set.len(), 3);
    assert_eq!(set.call(&ctx, Event::Ping(1)).len(), 3);
}

#[test]
fn event_describes_itself() {
    assert_eq!(
        describe(&Event::Ping(3)),
        EventInfo {
            identity: PING,
            name: "Ping",
            version: "1.0.0"
        }
    );
}

#[test]
fn loop_warns_on_unroutable_and_stays_running() {
    let (_port, socket) = create::<Event>(4);
    let tasks = Tasks::new();
    let mut bus = RouterBus::new(socket, Ctx::new(tasks.clone()), router(), tasks);
    assert_eq!(bus.current_state(), BusState::Running);
    match bus.listen_once(Some(Event::Pong)) {
        Step::Unroutable(info) => {
            assert_eq!(info.identity, PONG);
            assert_eq!(info.name, "Pong");
            assert_eq!(info.version, "1.0.0");
        }
        _ => panic!("a step other than the warning"),
    }
    assert_eq!(bus.current_state(), BusState::Running);
    match bus.listen_once(Some(Event::Ping(1))) {
        Step::Dispatch(jobs) => assert_eq!(jobs.len(), 2),
        _ => panic!("a step other than the dispatch"),
    }
    assert_eq!(bus.current_state(), BusState::Running);
}

#[test]
fn loop_stops_at_end_of_stream() {
    let (port, socket) = create::<Event>(4);
    let tasks = Tasks::new();
    let mut bus = RouterBus::new(socket, Ctx::new(tasks.clone()), router(), tasks);
    drop(port);
    let received = runtime().block_on(async { bus.socket().receiver().recv().await });
    assert!(received.is_none());
    assert!(matches!(bus.listen_once(received), Step::Stop));
    assert_eq!(bus.current_state(), BusState::Stopped);
    assert!(bus.socket().is_drained());
    assert_eq!(bus.socket().try_recv(), Polled::Drained);
}

#[test]
fn both_handlers_run_once_before_the_barrier_opens() {
    runtime().block_on(async {
        let cream_ctx = CreamContext::default();
        let tasks: Tasks = cream_ctx.provide();
        let ctx = Ctx::new(tasks.clone());
        let (events_ctx, setup) = EventsContextBuilder::default().build::<Event>(&cream_ctx);
        let bus = setup.setup(router(), ctx.clone());
        let warned = Arc::new(AtomicUsize::new(0));
        tokio::spawn(listen(bus, warned.clone()));

        let port: EventBusPort<Event> = events_ctx.provide();
        assert_eq!(port.capacity(), 10);
        assert!(port.publish(Event::Ping(5)).is_ok());
        assert!(port.publish(Event::Pong).is_ok());
        tokio::task::yield_now().await;
        tasks.close();
        wait(&tasks).await;

        assert_eq!(tasks.len(), 0);
        assert_eq!(ctx.first.load(Ordering::SeqCst), 1);
        assert_eq!(ctx.second.load(Ordering::SeqCst), 1);
        assert_eq!(warned.load(Ordering::SeqCst), 1);
    });
}

#[test]
fn barrier_waits_for_nested_job() {
    runtime().block_on(async {
        let cream_ctx = CreamContext::default();
        let tasks: Tasks = cream_ctx.provide();
        let ctx = Ctx::new(tasks.clone());
        let (events_ctx, setup) = EventsContextBuilder::default()
            .with_channel_size(2)
            .build::<Event>(&cream_ctx);
        tokio::spawn(listen(setup.setup(router(), ctx.clone()), Arc::new(AtomicUsize::new(0))));

        let started = Instant::now();
        assert!(events_ctx.port().publish(Event::Slow).is_ok());
        tokio::task::yield_now().await;
        tasks.close();
        wait(&tasks).await;

        assert!(started.elapsed() >= Duration::from_millis(200));
        assert_eq!(ctx.nested.load(Ordering::SeqCst), 1);
    });
}

#[test]
fn closed_tracker_refuses_top_level_jobs_only() {
    assert!(admits(false, Origin::TopLevel));
    assert!(admits(false, Origin::Nested));
    assert!(!admits(true, Origin::TopLevel));
    assert!(admits(true, Origin::Nested));
    assert!(admits(false, Origin::Dispatch));
    assert!(admits(true, Origin::Dispatch));

    runtime().block_on(async {
        let tasks = Tasks::default();
        let ran = Arc::new(AtomicUsize::new(0));
        assert!(!tasks.is_closed());
        let count = ran.clone();
        assert!(tasks
            .spawn(async move {
                count.fetch_add(1, Ordering::SeqCst);
            })
            .is_ok());
        tasks.clone().close();
        assert!(tasks.is_closed());
        let count = ran.clone();
        let refused = tasks.spawn(async move {
            count.fetch_add(10, Ordering::SeqCst);
        });
        let job = match refused {
            Err(SpawnError::Closed(job)) => job,
            _ => panic!("a closed tracker took a top-level job"),
        };
        assert!(tasks.spawn_nested(job).is_ok());
        wait(&tasks).await;
        assert_eq!(ran.load(Ordering::SeqCst), 11);
        assert_eq!(
            tasks.observe(),
            Observation {
                closed: true,
                in_flight: 0
            }
        );
    });
}

#[test]
fn job_comes_back_where_no_runtime_runs() {
    let tasks = Tasks::new();
    let ran = Arc::new(AtomicUsize::new(0));
    let count = ran.clone();
    let outcome = tasks.spawn(async move {
        count.fetch_add(1, Ordering::SeqCst);
    });
    let job = match outcome {
        Err(error @ SpawnError::NoRuntime(_)) => error.into_job(),
        _ => panic!("a job was spawned on no runtime"),
    };
    assert_eq!(tasks.len(), 0);
    runtime().block_on(job);
    assert_eq!(ran.load(Ordering::SeqCst), 1);
    let jobs: Vec<std::future::Ready<()>> = vec![std::future::ready(()), std::future::ready(())];
    let outcomes = tasks.spawn_all(Origin::TopLevel, jobs);
    assert_eq!(outcomes.len(), 2);
    assert!(outcomes
        .iter()
        .all(|outcome| matches!(outcome, Err(SpawnError::NoRuntime(_)))));
}

#[test]
fn test_spawn() {
    let ran = Arc::new(AtomicUsize::new(0));
    let seen = ran.clone();
    runtime().block_on(async move {
        let tasks = Tasks::new();
        let done = ran.clone();
        let spawned = tasks.spawn(async move {
            tokio::time::sleep(Duration::from_millis(200)).await;
            done.store(2, Ordering::Relaxed);
        });
        assert!(spawned.is_ok());
        ran.store(1, Ordering::Relaxed);
        tasks.close();
        wait(&tasks).await;
    });
    assert_eq!(seen.load(Ordering::Relaxed), 2);
}

#[test]
fn wait_wants_two_quiet_looks_in_a_row() {
    let quiet = Observation {
        closed: true,
        in_flight: 0,
    };
    let busy = Observation {
        closed: true,
        in_flight: 1,
    };
    let open = Observation {
        closed: false,
        in_flight: 0,
    };
    let mut waiter = WaitLoop::new();
    assert_eq!(waiter.observe(quiet), WaitStep::Again);
    assert_eq!(waiter.observe(busy), WaitStep::Again);
    assert_eq!(waiter.observe(quiet), WaitStep::Again);
    assert_eq!(waiter.observe(open), WaitStep::Again);
    assert_eq!(waiter.observe(quiet), WaitStep::Again);
    assert_eq!(waiter.observe(quiet), WaitStep::Done);
    assert_eq!(waiter.observe(quiet), WaitStep::Done);
    assert_eq!(waiter.observe(busy), WaitStep::Again);
}

#[test]
fn builder_keeps_the_size_it_was_given() {
    assert_eq!(EventsContextBuilder::default().channel_size(), 10);
    let builder = EventsContextBuilder::default().with_channel_size(3);
    assert_eq!(builder.channel_size(), 3);
    let cream_ctx = CreamContext::default().clone();
    let (events_ctx, _setup) = builder.build::<u8>(&cream_ctx);
    let port = events_ctx.clone().port();
    assert_eq!(port.capacity(), 3);
    assert_eq!(port.publish(1), Ok(()));
    assert_eq!(port.publish(2), Ok(()));
    assert_eq!(port.publish(3), Ok(()));
    assert!(port.publish(4).is_err());
    assert!(valid_capacity(1));
    assert!(valid_capacity(usize::MAX / 8));
    assert!(!valid_capacity(0));
    assert!(!valid_capacity(usize::MAX / 8 + 1));
}

#[test]
fn can_build_ctx_with_cream() {
    #[allow(dead_code)]
    struct Holder(CreamContext);

    let _ctx = Holder(CreamContext::default());
}

#[test]
fn context_creates_with_arguments() {
    struct Root;
    impl Context for Root {}
    struct Dep;
    impl FromContext<Root> for Dep {
        fn from_context(_: &Root) -> Self {
            Dep
        }
    }
    struct Named {
        name: String,
        _dep: Dep,
    }
    impl cream::context::CreateFromContext<Root> for Named {
        type Args = String;
        fn create_from_context(ctx: &Root, name: String) -> Self {
            Named {
                name,
                _dep: ctx.provide(),
            }
        }
    }
    let named: Named = Root.create("name".to_string());
    assert_eq!(named.name, "name");
    let _unit: () = Root.provide();
}

#[test]
fn can_send_events_through_threads() {
    static VAL: std::sync::atomic::AtomicBool = std::sync::atomic::AtomicBool::new(false);

    struct PlainCtx;
    impl Context for PlainCtx {}

    #[derive(Clone)]
    struct MyEvent;
    impl DynEvent for MyEvent {
        fn identity(&self) -> EventId {
            1
        }
    }
    impl DomainEvent for MyEvent {
        fn name(&self) -> &'static str {
            "MyEvent"
        }

        fn version(&self) -> &'static str {
            "1.0.0"
        }
    }

    struct MyHandler;
    impl FromContext<PlainCtx> for MyHandler {
        fn from_context(_: &PlainCtx) -> Self {
            MyHandler
        }
    }

    impl Handler for MyHandler {
        type Event = MyEvent;
        type Invocation = Job;

        fn handle(self, _: Self::Event) -> Job {
            Box::pin(async move {
                VAL.store(true, std::sync::atomic::Ordering::Relaxed);
                Ok(())
            })
        }
    }

    runtime().block_on(async {
        let ctx = PlainCtx;
        let cream_ctx = CreamContext::default();

        let mut router = Router::<fn(&PlainCtx, MyEvent) -> Job>::default();
        router.add(1, caller::<PlainCtx, MyHandler>);

        let (events_ctx, setup) = EventsContextBuilder::default().build(&cream_ctx);
        let mut bus = setup.setup(router, ctx);
        tokio::spawn(async move {
            while bus.current_state() == BusState::Running {
                let received = bus.socket().receiver().recv().await;
                if let Step::Dispatch(jobs) = bus.listen_once(received) {
                    let _ = bus.tasks().spawn_all(Origin::Dispatch, jobs);
                }
            }
        });

        let tasks: Tasks = cream_ctx.provide();
        let port: EventBusPort<MyEvent> = events_ctx.provide();

        assert!(port.publish(MyEvent).is_ok());
        tasks.close();
        wait(&tasks).await;

        assert!(VAL.load(std::sync::atomic::Ordering::Relaxed));
    });
}

#[test]
fn works_with_events_router() {
    #[derive(Clone)]
    struct MyCtx {
        ran: Arc<AtomicBool>,
        created: Arc<AtomicBool>,
    }

    impl Context for MyCtx {}

    #[derive(Clone)]
    struct MyEvent;
    impl DynEvent for MyEvent {
        fn identity(&self) -> EventId {
            1
        }
    }
    impl DomainEvent for MyEvent {
        fn name(&self) -> &'static str {
            "MyEvent"
        }

        fn version(&self) -> &'static str {
            "1.0.0"
        }
    }

    struct MyHandler {
        ran: Arc<AtomicBool>,
    }

    impl FromContext<MyCtx> for MyHandler {
        fn from_context(ctx: &MyCtx) -> Self {
            ctx.created.store(true, Ordering::Relaxed);
            Self {
                ran: ctx.ran.clone(),
            }
        }
    }

    impl Handler for MyHandler {
        type Event = MyEvent;
        type Invocation = Job;

        fn handle(self, _: Self::Event) -> Job {
            Box::pin(async move {
                tokio::time::sleep(Duration::from_millis(200)).await;
                self.ran.store(true, Ordering::Relaxed);
                Ok(())
            })
        }
    }

    let multi = tokio::runtime::Builder::new_multi_thread()
        .worker_threads(2)
        .enable_time()
        .build()
        .unwrap();
    multi.block_on(async {
        let ctx = MyCtx {
            ran: Arc::new(AtomicBool::new(false)),
            created: Arc::new(AtomicBool::new(false)),
        };

        let mut router = Router::<fn(&MyCtx, MyEvent) -> Job>::default();
        router.add(1, caller::<MyCtx, MyHandler>);

        let cream_ctx = CreamContext::default();
        let (events_ctx, setup) = EventsContextBuilder::default().build(&cream_ctx);

        let mut bus = setup.setup(router, ctx.clone());
        tokio::spawn(async move {
            while bus.current_state() == BusState::Running {
                let received = bus.socket().receiver().recv().await;
                if let Step::Dispatch(jobs) = bus.listen_once(received) {
                    let _ = bus.tasks().spawn_all(Origin::Dispatch, jobs);
                }
            }
        });

        let tasks: Tasks = cream_ctx.provide();
        let port: EventBusPort<MyEvent> = events_ctx.provide();

        assert!(port.publish(MyEvent).is_ok());

        // Allow other threads to run
        tokio::time::sleep(Duration::from_millis(50)).await;
        tasks.close();
        wait(&tasks).await;

        assert_eq!(tasks.len(), 0, "there should be no tasks left");

        assert!(
            ctx.created.load(Ordering::Relaxed),
            "handler should have been created"
        );
        assert!(ctx.ran.load(Ordering::Relaxed), "handler should have run");
    });
}

#[test]
fn only_a_full_mailbox_is_tried_again() {
    assert_eq!(retry::<u8>(Ok(())), Retry::Published);
    assert_eq!(retry(Err(PublishError::MailboxFull(4u8))), Retry::Again(4));
    assert_eq!(retry(Err(PublishError::MailboxClosed(5u8))), Retry::GiveUp(5));
    let (port, mut socket) = create::<u8>(1);
    assert_eq!(retry(port.publish(1)), Retry::Published);
    assert_eq!(retry(port.publish(2)), Retry::Again(2));
    assert_eq!(socket.try_recv(), Polled::Event(1));
    drop(socket);
    assert_eq!(retry(port.publish(3)), Retry::GiveUp(3));
}

#[test]
fn closed_tracker_still_takes_the_loops_jobs() {
    runtime().block_on(async {
        let tasks = Tasks::new();
        tasks.close();
        let ran = Arc::new(AtomicUsize::new(0));
        let (first, second) = (ran.clone(), ran.clone());
        let jobs: Vec<Job> = vec![
            Box::pin(async move {
                first.fetch_add(1, Ordering::SeqCst);
                Ok(())
            }),
            Box::pin(async move {
                second.fetch_add(1, Ordering::SeqCst);
                Ok(())
            }),
        ];
        let outcomes = tasks.spawn_all(Origin::Dispatch, jobs);
        assert_eq!(outcomes.len(), 2);
        assert!(outcomes.iter().all(|outcome| outcome.is_ok()));
        wait(&tasks).await;
        assert_eq!(ran.load(Ordering::SeqCst), 2);
    });
}
