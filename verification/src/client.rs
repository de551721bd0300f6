//! The client: what it knows, and what each of its tasks does with that.
//!
//! Three tasks run in the background while a client is connected. One polls the event loop and
//! follows a [`Session`], one hands received messages to the application, and one sends what the
//! application publishes. Their awaiting is done elsewhere; every decision between two awaits is
//! made here.

use std::sync::Arc;

use rumqttc::{AsyncClient, EventLoop};
use tokio::sync::mpsc;
use vstd::prelude::*;
use vstd::string::*;

use crate::broker::{clone_client, open};
use crate::callbacks::{CallbackManager, Notice, ERR_PUBLISH_FAILED};
use crate::config::{MqttConfig, QoS};
use crate::queues::{
    clone_sender, open_queues, try_send, MqttMessage, NotQueued, PublishRequest, Queued, Queues,
    PUBLISH_QUEUE_CAPACITY,
};
use crate::session::{Reaction, Session, SessionEvent};
use crate::text::{decimal_text, join, lossy_text};

verus! {

use crate::broker::{can_open, event_loop_of, event_loop_view, served_client};
use crate::callbacks::delivered;
use crate::calls::{on_error_call, on_msg_call, JavaArgView, JavaCallView};
use crate::config::{config_of, params_suffice, ParamsView};
use crate::queues::{
    message_room, message_source, not_queued, publish_room, publish_source, queue_can_hold,
    MessageView, RequestView,
};
use crate::session::{
    connected_after, fresh, next_connected, next_session, reaction, session_after, EventView,
    SessionView,
};
use crate::text::{decimal, decimal_writes_the_number, number_written, text_of};

/// Threads that the background tasks share.
pub const WORKER_THREADS: usize = 2;

/// What the thread with this number is called.
pub open spec fn thread_name_of(index: nat) -> Seq<char> {
    "mqtt-io-"@ + decimal(index)
}

/// Names a thread. They are counted from 0.
pub fn thread_name(index: u32) -> (r: String)
    ensures
        r@ == thread_name_of(index as nat),
{
    join("mqtt-io-", decimal_text(index).as_str())
}

/// Milliseconds that the background tasks are given to stop.
pub const SETTLE_MILLIS: u64 = 500;

/// Seconds after which nothing is waited for any more.
pub const SHUTDOWN_LIMIT_SECS: u64 = 3;

/// A client.
pub struct NativeMqttCore {
    /// The handle that publishes, while there is a connection or one is being made.
    client: Option<AsyncClient>,
    /// Whether the broker has accepted the connection.
    is_connected: bool,
    /// Whether the client has been shut down.
    is_shutdown: bool,
    /// What notifies the application.
    callbacks: Option<Arc<CallbackManager>>,
    /// Where received messages are put in.
    msg_tx: Option<mpsc::Sender<MqttMessage>>,
    /// Where messages to be published are put in.
    publish_tx: Option<mpsc::Sender<PublishRequest>>,
}

/// The mathematical form of a [`NativeMqttCore`].
#[verifier::ext_equal]
pub struct CoreView {
    pub client: Option<AsyncClient>,
    pub is_connected: bool,
    pub is_shutdown: bool,
    pub callbacks: Option<Arc<CallbackManager>>,
    pub msg_tx: Option<mpsc::Sender<MqttMessage>>,
    pub publish_tx: Option<mpsc::Sender<PublishRequest>>,
}

impl View for NativeMqttCore {
    type V = CoreView;

    closed spec fn view(&self) -> CoreView {
        CoreView {
            client: self.client,
            is_connected: self.is_connected,
            is_shutdown: self.is_shutdown,
            callbacks: self.callbacks,
            msg_tx: self.msg_tx,
            publish_tx: self.publish_tx,
        }
    }
}

/// A client that nothing has been asked of yet.
pub open spec fn idle_core() -> CoreView {
    CoreView {
        client: None,
        is_connected: false,
        is_shutdown: false,
        callbacks: None,
        msg_tx: None,
        publish_tx: None,
    }
}

/// What the background tasks of a connection are started with.
pub struct Started {
    /// The settings.
    pub config: MqttConfig,
    /// What notifies the application.
    pub callbacks: Arc<CallbackManager>,
    /// Where received messages are put in.
    pub msg_tx: mpsc::Sender<MqttMessage>,
    /// Where received messages are taken out.
    pub msg_rx: mpsc::Receiver<MqttMessage>,
    /// Where messages to be published are taken out.
    pub publish_rx: mpsc::Receiver<PublishRequest>,
}

/// A client that notifies the application in this way.
pub open spec fn with_callbacks(core: CoreView, callbacks: Arc<CallbackManager>) -> CoreView {
    CoreView { callbacks: Some(callbacks), ..core }
}

/// A client with the two queues that messages are put in at these ends of.
pub open spec fn with_queues(
    core: CoreView,
    msg_tx: mpsc::Sender<MqttMessage>,
    publish_tx: mpsc::Sender<PublishRequest>,
) -> CoreView {
    CoreView { msg_tx: Some(msg_tx), publish_tx: Some(publish_tx), ..core }
}

/// What a client has become after an event of a session.
pub open spec fn next_core(core: CoreView, session: SessionView, event: EventView) -> CoreView {
    CoreView {
        client: if !session.stopped && event is Cancelled {
            None
        } else {
            core.client
        },
        is_connected: next_connected(session, core.is_connected, event),
        ..core
    }
}

/// What the task that empties the queue of messages meets.
pub enum DispatchEvent {
    /// The client was shut down.
    Cancelled,
    /// The next message.
    Message(MqttMessage),
    /// The queue is empty, and nobody puts anything in any more.
    Closed,
}

/// The mathematical form of a [`DispatchEvent`].
pub enum DispatchView {
    Cancelled,
    Message(MessageView),
    Closed,
}

impl View for DispatchEvent {
    type V = DispatchView;

    open spec fn view(&self) -> DispatchView {
        match self {
            DispatchEvent::Cancelled => DispatchView::Cancelled,
            DispatchEvent::Message(message) => DispatchView::Message(message@),
            DispatchEvent::Closed => DispatchView::Closed,
        }
    }
}

/// How the application is called about an event of the queue of messages; where it is not, there is
/// nothing to do any more.
pub open spec fn dispatched_call(event: DispatchView) -> Option<JavaCallView> {
    match event {
        DispatchView::Message(message) => Some(on_msg_call(message.topic, message.payload)),
        _ => None,
    }
}

/// What is done about a message to be published.
pub enum PublishStep {
    /// It is dropped, and this is reported.
    Report(String),
    /// It is sent.
    Send {
        /// The handle to send it with.
        client: AsyncClient,
        /// The message.
        request: PublishRequest,
        /// Whether the broker is to keep it for those who subscribe later.
        retain: bool,
    },
}

/// The mathematical form of a [`PublishStep`].
pub enum PublishStepView {
    Report(Seq<char>),
    Send { client: AsyncClient, request: RequestView, retain: bool },
}

impl View for PublishStep {
    type V = PublishStepView;

    open spec fn view(&self) -> PublishStepView {
        match self {
            PublishStep::Report(message) => PublishStepView::Report(message@),
            PublishStep::Send { client, request, retain } => PublishStepView::Send {
                client: *client,
                request: request@,
                retain: *retain,
            },
        }
    }
}

/// What is done about a message that the application wants published: it is sent while there is a
/// connection, and otherwise dropped with a report that quotes it.
pub open spec fn publish_step(core: CoreView, request: RequestView) -> PublishStepView {
    if !core.is_connected {
        PublishStepView::Report("未连接，消息丢弃: "@ + text_of(request.payload))
    } else {
        match core.client {
            None => PublishStepView::Report("client 不存在，丢弃消息: "@ + text_of(request.payload)),
            Some(client) => PublishStepView::Send { client, request, retain: false },
        }
    }
}

/// The report of a message that could not be sent.
pub open spec fn send_failure(topic: Seq<char>, cause: Seq<char>) -> Seq<char> {
    "发布失败: "@ + topic + " - "@ + cause
}

/// Why a message was not queued.
pub open spec fn refusal_cause(refusal: NotQueued) -> Seq<char> {
    match refusal {
        NotQueued::NotStarted(_) => "publish_tx 未初始化"@,
        NotQueued::Full(_) => "no available capacity"@,
        NotQueued::Closed(_) => "channel closed"@,
    }
}

/// What publishing needs of a client. It can be used while others work on the client.
pub struct Publisher {
    /// Where messages to be published are put in.
    pub publish_tx: Option<mpsc::Sender<PublishRequest>>,
    /// What notifies the application.
    pub callbacks: Option<Arc<CallbackManager>>,
}

/// A message that was not put into the queue.
pub struct Unpublished {
    /// Why, and the message.
    pub refusal: NotQueued,
    /// What became of the report to the application, where there was one.
    pub notice: Option<Notice>,
}

/// Was this reported as a message that was not published, where anything notifies the application?
pub open spec fn reported(
    notice: Option<Notice>,
    callbacks: Option<Arc<CallbackManager>>,
    message: Seq<char>,
) -> bool {
    match callbacks {
        Some(callbacks) => notice matches Some(notice) && delivered(
            notice,
            on_error_call(ERR_PUBLISH_FAILED as int, message),
            *callbacks,
        ),
        None => notice is None,
    }
}

/// Is this the answer to a request to publish? Where there is a queue, the message was put in, or the
/// queue gave it back. A message that was not put in, also for want of a queue, is reported.
pub open spec fn publish_answered(
    answer: Result<Queued, Unpublished>,
    publish_tx: Option<mpsc::Sender<PublishRequest>>,
    callbacks: Option<Arc<CallbackManager>>,
    request: RequestView,
) -> bool {
    match answer {
        Ok(queued) => publish_tx == Some(queued.queue()) && queued.request() == request,
        Err(unpublished) => {
            &&& not_queued(unpublished.refusal, publish_tx, request)
            &&& reported(
                unpublished.notice,
                callbacks,
                send_failure(request.topic, refusal_cause(unpublished.refusal)),
            )
        },
    }
}

/// Reports that a message was not queued.
fn report_refusal(callbacks: &Option<Arc<CallbackManager>>, topic: &str, cause: &str) -> (r: Option<
    Notice,
>)
    ensures
        reported(r, *callbacks, send_failure(topic@, cause@)),
{
    match callbacks {
        None => None,
        Some(callbacks) => {
            let message = failure_text(topic, cause);
            Some(report_unpublished(callbacks, message.as_str()))
        },
    }
}

impl Publisher {
    /// Puts a message into the queue of those to be published, without waiting. Where there is no
    /// queue, or it does not take the message, the message comes back, and the application is told.
    pub fn publish(&self, topic: String, payload: Vec<u8>, qos: QoS) -> (r: Result<
        Queued,
        Unpublished,
    >)
        ensures
            publish_answered(
                r,
                self.publish_tx,
                self.callbacks,
                (RequestView { topic: topic@, payload: payload@, qos }),
            ),
    {
        let request = PublishRequest { topic, payload, qos };
        let refusal = match &self.publish_tx {
            None => NotQueued::NotStarted(request),
            Some(tx) => match try_send(tx, request) {
                Ok(queued) => return Ok(queued),
                Err(refusal) => refusal,
            },
        };
        let notice = match &refusal {
            NotQueued::NotStarted(request) => report_refusal(
                &self.callbacks,
                request.topic.as_str(),
                "publish_tx 未初始化",
            ),
            NotQueued::Full(returned) => report_refusal(
                &self.callbacks,
                returned.request().topic.as_str(),
                "no available capacity",
            ),
            NotQueued::Closed(returned) => report_refusal(
                &self.callbacks,
                returned.request().topic.as_str(),
                "channel closed",
            ),
        };
        Err(Unpublished { refusal, notice })
    }
}

/// What is waited for while a client is shut down.
#[derive(Clone, Copy, Debug, PartialEq, Eq, Structural)]
pub struct ShutdownPlan {
    /// Milliseconds that the background tasks are given to stop.
    pub settle_millis: u64,
    /// Seconds after which nothing is waited for any more.
    pub limit_secs: u64,
}

/// A client that is being shut down.
pub open spec fn shut_down(core: CoreView) -> CoreView {
    CoreView { is_shutdown: true, ..core }
}

/// A client whose background tasks have been given their time to stop.
pub open spec fn settled(core: CoreView) -> CoreView {
    CoreView { client: None, is_connected: false, ..core }
}

/// What comes next while a client is shut down.
#[derive(Clone, Copy, Debug, PartialEq, Eq, Structural)]
pub enum ShutdownStage {
    /// The background tasks are to be told to stop.
    Signal,
    /// They are to be given their time.
    Wait,
    /// The client lets go of the connection.
    Clear,
    /// Nothing.
    Finished,
}

/// What is done while a client is shut down.
#[derive(Clone, Copy, Debug, PartialEq, Eq, Structural)]
pub enum ShutdownAction {
    /// Tell the background tasks to stop.
    Signal,
    /// Wait.
    Wait(ShutdownPlan),
    /// Nothing more: the client is shut down.
    Finished,
}

/// The shutting down of a client.
pub struct ShutdownTask {
    stage: ShutdownStage,
}

impl View for ShutdownTask {
    type V = ShutdownStage;

    closed spec fn view(&self) -> ShutdownStage {
        self.stage
    }
}

/// What comes after a stage.
pub open spec fn next_shutdown_stage(stage: ShutdownStage) -> ShutdownStage {
    match stage {
        ShutdownStage::Signal => ShutdownStage::Wait,
        ShutdownStage::Wait => ShutdownStage::Clear,
        _ => ShutdownStage::Finished,
    }
}

/// What is done at a stage.
pub open spec fn shutdown_action(stage: ShutdownStage) -> ShutdownAction {
    match stage {
        ShutdownStage::Signal => ShutdownAction::Signal,
        ShutdownStage::Wait => ShutdownAction::Wait(
            ShutdownPlan { settle_millis: 500, limit_secs: 3 },
        ),
        _ => ShutdownAction::Finished,
    }
}

/// What a client has become after a stage.
pub open spec fn core_after_stage(core: CoreView, stage: ShutdownStage) -> CoreView {
    if stage == ShutdownStage::Clear {
        settled(core)
    } else {
        core
    }
}

impl ShutdownTask {
    /// Decides what is done next: the background tasks are told to stop, then they are given their
    /// time, and only then the client lets go of the connection.
    pub fn step(&mut self, core: &mut NativeMqttCore) -> (r: ShutdownAction)
        ensures
            final(self)@ == next_shutdown_stage(old(self)@),
            r == shutdown_action(old(self)@),
            final(core)@ == core_after_stage(old(core)@, old(self)@),
    {
        match self.stage {
            ShutdownStage::Signal => {
                self.stage = ShutdownStage::Wait;
                ShutdownAction::Signal
            },
            ShutdownStage::Wait => {
                self.stage = ShutdownStage::Clear;
                ShutdownAction::Wait(
                    ShutdownPlan {
                        settle_millis: SETTLE_MILLIS,
                        limit_secs: SHUTDOWN_LIMIT_SECS,
                    },
                )
            },
            ShutdownStage::Clear => {
                core.finish_shutdown();
                self.stage = ShutdownStage::Finished;
                ShutdownAction::Finished
            },
            ShutdownStage::Finished => ShutdownAction::Finished,
        }
    }
}

/// The stage that a shutdown has reached after some steps.
pub open spec fn shutdown_stage_after(steps: nat) -> ShutdownStage
    decreases steps,
{
    if steps == 0 {
        ShutdownStage::Signal
    } else {
        next_shutdown_stage(shutdown_stage_after((steps - 1) as nat))
    }
}

/// What a client has become after some steps of its shutdown, if nothing else works on it.
pub open spec fn core_after_steps(core: CoreView, steps: nat) -> CoreView
    decreases steps,
{
    if steps == 0 {
        core
    } else {
        core_after_stage(
            core_after_steps(core, (steps - 1) as nat),
            shutdown_stage_after((steps - 1) as nat),
        )
    }
}

/// A client is shut down in this order: the background tasks are told to stop, they are given their
/// time, and only then the connection is let go of. After that nothing is done any more.
pub proof fn shutdown_keeps_the_order(core: CoreView, steps: nat)
    ensures
        shutdown_action(shutdown_stage_after(0)) == ShutdownAction::Signal,
        shutdown_action(shutdown_stage_after(1)) == ShutdownAction::Wait(
            ShutdownPlan { settle_millis: 500, limit_secs: 3 },
        ),
        steps >= 2 ==> shutdown_action(shutdown_stage_after(steps)) == ShutdownAction::Finished,
        steps <= 2 ==> core_after_steps(core, steps) == core,
        steps >= 3 ==> core_after_steps(core, steps) == settled(core) && shutdown_stage_after(
            steps,
        ) == ShutdownStage::Finished,
    decreases steps,
{
    reveal_with_fuel(shutdown_stage_after, 4);
    reveal_with_fuel(core_after_steps, 4);
    if steps > 3 {
        shutdown_keeps_the_order(core, (steps - 1) as nat);
    }
}

impl NativeMqttCore {
    /// Makes a client, given whether the threads for its background tasks could be started, or else
    /// why they could not.
    pub fn new(runtime: Result<(), String>) -> (r: Result<NativeMqttCore, String>)
        ensures
            match runtime {
                Ok(_) => r matches Ok(core) && core@ == idle_core(),
                Err(cause) => r matches Err(message) && message@ == "创建 Tokio runtime 失败: "@
                    + cause@,
            },
    {
        match runtime {
            Ok(_) => Ok(
                NativeMqttCore {
                    client: None,
                    is_connected: false,
                    is_shutdown: false,
                    callbacks: None,
                    msg_tx: None,
                    publish_tx: None,
                },
            ),
            Err(cause) => Err(join("创建 Tokio runtime 失败: ", cause.as_str())),
        }
    }

    /// Has the broker accepted the connection?
    pub fn is_connected(&self) -> (r: bool)
        ensures
            r == self@.is_connected,
    {
        self.is_connected
    }

    /// Sets what notifies the application.
    pub fn set_callbacks(&mut self, callbacks: Arc<CallbackManager>)
        ensures
            final(self)@ == with_callbacks(old(self)@, callbacks),
    {
        self.callbacks = Some(callbacks);
    }

    /// What notifies the application: what was set last.
    pub fn get_callbacks(&self) -> (r: Option<Arc<CallbackManager>>)
        ensures
            r == self@.callbacks,
    {
        match &self.callbacks {
            Some(callbacks) => Some(callbacks.clone()),
            None => None,
        }
    }

    /// Makes the two queues of a connection, and keeps the ends where messages are put in.
    pub fn start_queues(&mut self, message_buffer_size: usize) -> (r: (
        mpsc::Sender<MqttMessage>,
        mpsc::Receiver<MqttMessage>,
        mpsc::Receiver<PublishRequest>,
    ))
        requires
            queue_can_hold(message_buffer_size as nat),
        ensures
            message_room(r.0) == message_buffer_size,
            message_source(r.1) == r.0,
            publish_room(publish_source(r.2)) == PUBLISH_QUEUE_CAPACITY,
            final(self)@ == with_queues(old(self)@, r.0, publish_source(r.2)),
    {
        let Queues { msg_tx, msg_rx, publish_tx, publish_rx } = open_queues(message_buffer_size);
        self.msg_tx = Some(clone_sender(&msg_tx));
        self.publish_tx = Some(publish_tx);
        (msg_tx, msg_rx, publish_rx)
    }

    /// Prepares a connection. Without anything that notifies the application nothing is done.
    pub fn connect(&mut self, config: MqttConfig) -> (r: Option<Started>)
        requires
            old(self)@.callbacks is Some ==> queue_can_hold(config@.message_buffer_size),
        ensures
            r is Some <==> old(self)@.callbacks is Some,
            match r {
                Some(started) => {
                    &&& started.config@ == config@
                    &&& old(self)@.callbacks == Some(started.callbacks)
                    &&& message_room(started.msg_tx) == config@.message_buffer_size
                    &&& message_source(started.msg_rx) == started.msg_tx
                    &&& publish_room(publish_source(started.publish_rx)) == PUBLISH_QUEUE_CAPACITY
                    &&& final(self)@ == with_queues(
                        old(self)@,
                        started.msg_tx,
                        publish_source(started.publish_rx),
                    )
                },
                None => final(self)@ == old(self)@,
            },
    {
        match self.get_callbacks() {
            None => None,
            Some(callbacks) => {
                let (msg_tx, msg_rx, publish_rx) = self.start_queues(config.message_buffer_size);
                Some(Started { config, callbacks, msg_tx, msg_rx, publish_rx })
            },
        }
    }

    /// Sets up the connection to the broker and begins a session. The handle is kept for publishing,
    /// and a second one is returned for subscribing.
    pub fn start_event_loop(&mut self, config: MqttConfig) -> (r: (AsyncClient, EventLoop, Session))
        requires
            can_open(config@),
        ensures
            final(self)@ == (CoreView { client: Some(r.0), ..old(self)@ }),
            event_loop_view(r.1) == event_loop_of(config@),
            served_client(r.1) == r.0,
            r.2@ == fresh(config@),
    {
        let (client, event_loop) = open(&config);
        self.client = Some(clone_client(&client));
        (client, event_loop, Session::new(config))
    }

    /// Decides what is done about an event of a session.
    pub fn event_loop(&mut self, session: &mut Session, event: SessionEvent) -> (r: Reaction)
        ensures
            final(self)@ == next_core(old(self)@, old(session)@, event@),
            final(session)@ == next_session(old(session)@, event@),
            r@ == reaction(old(session)@, old(self)@.is_connected, event@),
    {
        let connected = self.is_connected;
        if !session.is_stopped() {
            match &event {
                SessionEvent::Cancelled => self.client = None,
                SessionEvent::ConnAck => self.is_connected = true,
                SessionEvent::Failed { .. } => self.is_connected = false,
                _ => (),
            }
        }
        session.react(connected, event)
    }

    /// Hands a message from the queue to the application. Without a message there is nothing to do
    /// any more.
    pub fn callback_dispatcher(callbacks: &CallbackManager, event: DispatchEvent) -> (r: Option<
        Notice,
    >)
        ensures
            match dispatched_call(event@) {
                Some(call) => r matches Some(notice) && delivered(notice, call, *callbacks),
                None => r is None,
            },
    {
        match event {
            DispatchEvent::Message(message) => Some(
                callbacks.on_msg(message.topic.as_str(), message.payload.as_str()),
            ),
            DispatchEvent::Cancelled | DispatchEvent::Closed => None,
        }
    }

    /// Decides what is done about a message from the queue of those to be published.
    pub fn publish_sender(&self, request: PublishRequest) -> (r: PublishStep)
        ensures
            r@ == publish_step(self@, request@),
    {
        if !self.is_connected {
            let text = lossy_text(request.payload.as_slice());
            return PublishStep::Report(join("未连接，消息丢弃: ", text.as_str()));
        }
        match &self.client {
            Some(client) => PublishStep::Send {
                client: clone_client(client),
                request,
                retain: false,
            },
            None => {
                let text = lossy_text(request.payload.as_slice());
                PublishStep::Report(join("client 不存在，丢弃消息: ", text.as_str()))
            },
        }
    }

    /// What publishing needs of a client.
    pub fn publisher(&self) -> (r: Publisher)
        ensures
            r.publish_tx == self@.publish_tx,
            r.callbacks == self@.callbacks,
    {
        let publish_tx = match &self.publish_tx {
            Some(tx) => Some(clone_sender(tx)),
            None => None,
        };
        Publisher { publish_tx, callbacks: self.get_callbacks() }
    }

    /// Puts a message into the queue of those to be published, without waiting. Where there is no
    /// queue, or it does not take the message, the message comes back, and the application is told.
    pub fn publish(&self, topic: String, payload: Vec<u8>, qos: QoS) -> (r: Result<
        Queued,
        Unpublished,
    >)
        ensures
            publish_answered(
                r,
                self@.publish_tx,
                self@.callbacks,
                (RequestView { topic: topic@, payload: payload@, qos }),
            ),
    {
        self.publisher().publish(topic, payload, qos)
    }

    /// Begins to shut the client down. The second time there is nothing to do.
    pub fn shutdown(&mut self) -> (r: Option<ShutdownTask>)
        ensures
            match r {
                Some(task) => !old(self)@.is_shutdown && task@ == ShutdownStage::Signal,
                None => old(self)@.is_shutdown,
            },
            final(self)@ == shut_down(old(self)@),
    {
        if self.is_shutdown {
            return None;
        }
        self.is_shutdown = true;
        Some(ShutdownTask { stage: ShutdownStage::Signal })
    }

    /// Ends the shutdown, after the background tasks have had their time.
    fn finish_shutdown(&mut self)
        ensures
            final(self)@ == settled(old(self)@),
    {
        self.client = None;
        self.is_connected = false;
    }
}

/// Writes the report of a message that could not be sent.
fn failure_text(topic: &str, cause: &str) -> (r: String)
    ensures
        r@ == send_failure(topic@, cause@),
{
    let mut message = join("发布失败: ", topic);
    message.append(" - ");
    message.append(cause);
    message
}

/// What is reported of an attempt to send a message: nothing where it went out.
pub fn send_report(topic: &str, sent: Result<(), String>) -> (r: Option<String>)
    ensures
        match sent {
            Ok(_) => r is None,
            Err(cause) => r matches Some(message) && message@ == send_failure(topic@, cause@),
        },
{
    match sent {
        Ok(_) => None,
        Err(cause) => Some(failure_text(topic, cause.as_str())),
    }
}

/// Reports to the application that a message was not published.
pub fn report_unpublished(callbacks: &CallbackManager, message: &str) -> (r: Notice)
    ensures
        delivered(r, on_error_call(ERR_PUBLISH_FAILED as int, message@), *callbacks),
{
    callbacks.on_error(ERR_PUBLISH_FAILED, message)
}

/// What the task that sends messages meets.
pub enum SenderEvent {
    /// The next message from the queue.
    Received(PublishRequest),
    /// The attempt to send a message is over, well or with this error.
    Sent(Result<(), String>),
    /// The queue is empty, and nobody puts anything in any more.
    Closed,
}

/// The mathematical form of a [`SenderEvent`]. An attempt to send has the cause of its failure, where
/// it failed.
pub enum SenderEventView {
    Received(RequestView),
    Sent(Option<Seq<char>>),
    Closed,
}

impl View for SenderEvent {
    type V = SenderEventView;

    open spec fn view(&self) -> SenderEventView {
        match self {
            SenderEvent::Received(request) => SenderEventView::Received(request@),
            SenderEvent::Sent(Ok(_)) => SenderEventView::Sent(None),
            SenderEvent::Sent(Err(cause)) => SenderEventView::Sent(Some(cause@)),
            SenderEvent::Closed => SenderEventView::Closed,
        }
    }
}

/// What the task that sends messages does.
pub enum SenderAction {
    /// Report this, where there is anything to report, and take the next message out of the queue.
    Receive {
        /// The report.
        report: Option<String>,
    },
    /// Send a message.
    Send {
        /// The handle to send it with.
        client: AsyncClient,
        /// The message.
        request: PublishRequest,
        /// Whether the broker is to keep it for those who subscribe later.
        retain: bool,
    },
    /// Stop: the task is over.
    Stop,
}

/// The mathematical form of a [`SenderAction`].
pub enum SenderActionView {
    Receive { report: Option<Seq<char>> },
    Send { client: AsyncClient, request: RequestView, retain: bool },
    Stop,
}

impl View for SenderAction {
    type V = SenderActionView;

    open spec fn view(&self) -> SenderActionView {
        match self {
            SenderAction::Receive { report } => SenderActionView::Receive {
                report: match report {
                    Some(report) => Some(report@),
                    None => None,
                },
            },
            SenderAction::Send { client, request, retain } => SenderActionView::Send {
                client: *client,
                request: request@,
                retain: *retain,
            },
            SenderAction::Stop => SenderActionView::Stop,
        }
    }
}

/// The task that sends messages.
pub struct SenderTask {
    /// The topic of the message that is being sent.
    sending: Option<String>,
    /// Whether the task is over.
    stopped: bool,
}

/// The mathematical form of a [`SenderTask`].
#[verifier::ext_equal]
pub struct SenderTaskView {
    pub sending: Option<Seq<char>>,
    pub stopped: bool,
}

impl View for SenderTask {
    type V = SenderTaskView;

    closed spec fn view(&self) -> SenderTaskView {
        SenderTaskView {
            sending: match self.sending {
                Some(topic) => Some(topic@),
                None => None,
            },
            stopped: self.stopped,
        }
    }
}

/// The task before its first message.
pub open spec fn idle_sender() -> SenderTaskView {
    SenderTaskView { sending: None, stopped: false }
}

/// What the task has become after an event.
pub open spec fn next_sender(
    task: SenderTaskView,
    core: CoreView,
    event: SenderEventView,
) -> SenderTaskView {
    if task.stopped {
        task
    } else {
        match event {
            SenderEventView::Received(request) => SenderTaskView {
                sending: if publish_step(core, request) is Send {
                    Some(request.topic)
                } else {
                    None
                },
                stopped: false,
            },
            SenderEventView::Sent(_) => SenderTaskView { sending: None, stopped: false },
            SenderEventView::Closed => SenderTaskView { sending: None, stopped: true },
        }
    }
}

/// What the task does about an event.
pub open spec fn sender_action(
    task: SenderTaskView,
    core: CoreView,
    event: SenderEventView,
) -> SenderActionView {
    if task.stopped {
        SenderActionView::Stop
    } else {
        match event {
            SenderEventView::Received(request) => match publish_step(core, request) {
                PublishStepView::Report(message) => SenderActionView::Receive {
                    report: Some(message),
                },
                PublishStepView::Send { client, request, retain } => SenderActionView::Send {
                    client,
                    request,
                    retain,
                },
            },
            SenderEventView::Sent(failure) => SenderActionView::Receive {
                report: match (task.sending, failure) {
                    (Some(topic), Some(cause)) => Some(send_failure(topic, cause)),
                    _ => None,
                },
            },
            SenderEventView::Closed => SenderActionView::Stop,
        }
    }
}

impl SenderTask {
    /// Begins the task.
    pub fn new() -> (r: SenderTask)
        ensures
            r@ == idle_sender(),
    {
        SenderTask { sending: None, stopped: false }
    }

    /// Decides what is done about an event.
    pub fn step(&mut self, core: &NativeMqttCore, event: SenderEvent) -> (r: SenderAction)
        ensures
            final(self)@ == next_sender(old(self)@, core@, event@),
            r@ == sender_action(old(self)@, core@, event@),
    {
        if self.stopped {
            return SenderAction::Stop;
        }
        match event {
            SenderEvent::Received(request) => match core.publish_sender(request) {
                PublishStep::Report(message) => {
                    self.sending = None;
                    SenderAction::Receive { report: Some(message) }
                },
                PublishStep::Send { client, request, retain } => {
                    self.sending = Some(request.topic.clone());
                    SenderAction::Send { client, request, retain }
                },
            },
            SenderEvent::Sent(sent) => {
                let report = match &self.sending {
                    Some(topic) => send_report(topic.as_str(), sent),
                    None => None,
                };
                self.sending = None;
                SenderAction::Receive { report }
            },
            SenderEvent::Closed => {
                self.sending = None;
                self.stopped = true;
                SenderAction::Stop
            },
        }
    }
}

/// What the task has become after some events, each with the state of the client at that time.
pub open spec fn sender_after(
    task: SenderTaskView,
    events: Seq<(CoreView, SenderEventView)>,
) -> SenderTaskView
    decreases events.len(),
{
    if events.len() == 0 {
        task
    } else {
        next_sender(sender_after(task, events.drop_last()), events.last().0, events.last().1)
    }
}

/// What became of a message from the queue.
pub enum RequestOutcome {
    /// It was sent, and nothing was reported.
    Sent,
    /// It was not sent, and this was reported.
    Reported(Seq<char>),
}

/// What became of the messages from the queue, in the order in which it was settled. A message is
/// settled when it is reported, or when the attempt to send it is over.
pub open spec fn request_outcomes(
    task: SenderTaskView,
    events: Seq<(CoreView, SenderEventView)>,
) -> Seq<RequestOutcome>
    decreases events.len(),
{
    if events.len() == 0 {
        Seq::empty()
    } else {
        let before = request_outcomes(task, events.drop_last());
        let (core, event) = events.last();
        match sender_action(sender_after(task, events.drop_last()), core, event) {
            SenderActionView::Receive { report: Some(message) } => before.push(
                RequestOutcome::Reported(message),
            ),
            SenderActionView::Receive { report: None } => before.push(RequestOutcome::Sent),
            _ => before,
        }
    }
}

/// A message from the queue with what the task meets while it is dealt with.
pub struct Handling {
    /// The message.
    pub request: RequestView,
    /// The client when the message is taken out.
    pub core: CoreView,
    /// Why sending it fails, if it is sent and that fails.
    pub failure: Option<Seq<char>>,
    /// The client when that is known.
    pub core_after: CoreView,
}

/// The events of a message: it is taken out, and where it is sent, that ends well or not.
pub open spec fn handling_events(handling: Handling) -> Seq<(CoreView, SenderEventView)> {
    let received = seq![(handling.core, SenderEventView::Received(handling.request))];
    if publish_step(handling.core, handling.request) is Send {
        received.push((handling.core_after, SenderEventView::Sent(handling.failure)))
    } else {
        received
    }
}

/// The events of some messages, one message after another.
pub open spec fn all_handling_events(handlings: Seq<Handling>) -> Seq<(CoreView, SenderEventView)>
    decreases handlings.len(),
{
    if handlings.len() == 0 {
        Seq::empty()
    } else {
        all_handling_events(handlings.drop_last()) + handling_events(handlings.last())
    }
}

/// What is to become of a message: it is sent, or there is a report that says why it was not.
pub open spec fn handling_outcome(handling: Handling) -> RequestOutcome {
    match publish_step(handling.core, handling.request) {
        PublishStepView::Report(message) => RequestOutcome::Reported(message),
        PublishStepView::Send { .. } => match handling.failure {
            None => RequestOutcome::Sent,
            Some(cause) => RequestOutcome::Reported(send_failure(handling.request.topic, cause)),
        },
    }
}

/// Each message from the queue has exactly one outcome, in the order of the queue, whatever the state
/// of the connection and whatever becomes of sending: it is sent, or it is reported once. A message
/// that fails does not keep a later one from its turn.
pub proof fn each_request_has_one_outcome(handlings: Seq<Handling>)
    ensures
        request_outcomes(idle_sender(), all_handling_events(handlings)) == handlings.map_values(
            |handling: Handling| handling_outcome(handling),
        ),
        sender_after(idle_sender(), all_handling_events(handlings)) == idle_sender(),
    decreases handlings.len(),
{
    let outcome = |handling: Handling| handling_outcome(handling);
    if handlings.len() == 0 {
        assert(handlings.map_values(outcome) =~= Seq::empty());
    } else {
        let before = all_handling_events(handlings.drop_last());
        let last = handlings.last();
        each_request_has_one_outcome(handlings.drop_last());
        let taken = (last.core, SenderEventView::Received(last.request));
        let over = (last.core_after, SenderEventView::Sent(last.failure));
        assert(before.push(taken).drop_last() =~= before);
        assert(before.push(taken).push(over).drop_last() =~= before.push(taken));
        let settled = request_outcomes(idle_sender(), before);
        if publish_step(last.core, last.request) is Send {
            assert(all_handling_events(handlings) =~= before.push(taken).push(over));
            assert(request_outcomes(idle_sender(), before.push(taken)) == settled);
            assert(sender_after(idle_sender(), before.push(taken)).sending == Some(
                last.request.topic,
            ));
            assert(request_outcomes(idle_sender(), before.push(taken).push(over)) == settled.push(
                handling_outcome(last),
            ));
        } else {
            assert(all_handling_events(handlings) =~= before.push(taken));
            assert(request_outcomes(idle_sender(), before.push(taken)) == settled.push(
                handling_outcome(last),
            ));
        }
        assert(handlings.map_values(outcome) =~= handlings.drop_last().map_values(outcome).push(
            outcome(last),
        ));
    }
}

/// The task that sends messages is over if and only if the queue was empty and closed.
pub proof fn sender_stops_with_the_queue(events: Seq<(CoreView, SenderEventView)>)
    ensures
        sender_after(idle_sender(), events).stopped <==> exists|i: int|
            0 <= i < events.len() && (#[trigger] events[i]).1 is Closed,
    decreases events.len(),
{
    if events.len() > 0 {
        let before = events.drop_last();
        sender_stops_with_the_queue(before);
        assert(events[events.len() - 1] == events.last());
        if sender_after(idle_sender(), before).stopped {
            let i = choose|i: int| 0 <= i < before.len() && (#[trigger] before[i]).1 is Closed;
            assert(events[i].1 is Closed);
        } else {
            assert forall|i: int| 0 <= i < before.len() implies !((
            #[trigger] events[i]).1 is Closed) by {
                assert(before[i] == events[i]);
            }
        }
    }
}

/// The calls of the application about some events of the queue of messages: one after another, until
/// there is nothing to do any more.
pub open spec fn dispatched_calls(events: Seq<DispatchView>) -> Seq<JavaCallView>
    decreases events.len(),
{
    if events.len() == 0 {
        Seq::empty()
    } else {
        match dispatched_call(events[0]) {
            Some(call) => seq![call] + dispatched_calls(events.skip(1)),
            None => Seq::empty(),
        }
    }
}

/// These messages, as events of the queue.
pub open spec fn message_events(messages: Seq<MessageView>) -> Seq<DispatchView> {
    messages.map_values(|message: MessageView| DispatchView::Message(message))
}

/// The messages that are taken out of the queue before it is closed or the client is shut down are
/// handed to the application one by one, each once, in the order of the queue; and nothing is handed
/// over after that.
pub proof fn messages_are_handed_over_in_order(
    messages: Seq<MessageView>,
    end: DispatchView,
    rest: Seq<DispatchView>,
)
    requires
        !(end is Message),
    ensures
        dispatched_calls(message_events(messages) + seq![end] + rest) == messages.map_values(
            |message: MessageView| on_msg_call(message.topic, message.payload),
        ),
    decreases messages.len(),
{
    let called = |message: MessageView| on_msg_call(message.topic, message.payload);
    let events = message_events(messages) + seq![end] + rest;
    if messages.len() == 0 {
        assert(events[0] == end);
        assert(messages.map_values(called) =~= Seq::empty());
    } else {
        let others = messages.skip(1);
        messages_are_handed_over_in_order(others, end, rest);
        assert(events.skip(1) =~= message_events(others) + seq![end] + rest);
        assert(events[0] == DispatchView::Message(messages[0]));
        assert(messages.map_values(called) =~= seq![called(messages[0])] + others.map_values(
            called,
        ));
    }
}

/// A client after these ways to notify the application have been set, one after another.
pub open spec fn with_all_callbacks(core: CoreView, set: Seq<Arc<CallbackManager>>) -> CoreView
    decreases set.len(),
{
    if set.len() == 0 {
        core
    } else {
        with_callbacks(with_all_callbacks(core, set.drop_last()), set.last())
    }
}

/// The application is notified through what was set last, and not at all before anything was set;
/// setting it changes nothing else.
pub proof fn last_callbacks_are_used(core: CoreView, set: Seq<Arc<CallbackManager>>)
    ensures
        set.len() == 0 ==> with_all_callbacks(core, set) == core,
        set.len() > 0 ==> with_all_callbacks(core, set) == with_callbacks(core, set.last()),
        with_all_callbacks(idle_core(), set).callbacks == if set.len() == 0 {
            None
        } else {
            Some(set.last())
        },
    decreases set.len(),
{
    if set.len() > 0 {
        last_callbacks_are_used(core, set.drop_last());
    }
}

/// A message is sent only while there is a connection, and then unchanged. One that is not sent is
/// reported, and the report ends in the message's text.
pub proof fn unsent_message_is_reported(core: CoreView, request: RequestView)
    ensures
        match publish_step(core, request) {
            PublishStepView::Send { client, request: sent, retain } => core.is_connected
                && core.client == Some(client) && sent == request && !retain,
            PublishStepView::Report(message) => (!core.is_connected || core.client is None)
                && text_of(request.payload).is_suffix_of(message),
        },
{
    let text = text_of(request.payload);
    let offline = "未连接，消息丢弃: "@;
    let missing = "client 不存在，丢弃消息: "@;
    assert((offline + text).subrange(offline.len() as int, (offline + text).len() as int) =~= text);
    assert((missing + text).subrange(missing.len() as int, (missing + text).len() as int) =~= text);
}

/// What a client has become after some events of a session.
pub open spec fn core_after(
    core: CoreView,
    session: SessionView,
    events: Seq<EventView>,
) -> CoreView
    decreases events.len(),
{
    if events.len() == 0 {
        core
    } else {
        next_core(
            core_after(core, session, events.drop_last()),
            session_after(session, events.drop_last()),
            events.last(),
        )
    }
}

/// What a client knows of its connection is what the events of the session say: so whatever holds of
/// the course of a session holds of a client that begins it while not connected.
pub proof fn client_follows_session(
    core: CoreView,
    session: SessionView,
    events: Seq<EventView>,
)
    requires
        !core.is_connected,
    ensures
        core_after(core, session, events).is_connected == connected_after(session, events),
    decreases events.len(),
{
    if events.len() > 0 {
        client_follows_session(core, session, events.drop_last());
    }
}

/// A lost connection leaves the handle in place: only shutting the client down takes it away.
pub proof fn handle_survives_failure(core: CoreView, session: SessionView, event: EventView)
    requires
        !(event is Cancelled),
    ensures
        next_core(core, session, event).client == core.client,
{
}

/// An event of a session changes nothing of a client but its handle and whether it is connected.
pub proof fn events_leave_the_rest(core: CoreView, session: SessionView, event: EventView)
    ensures
        ({
            let after = next_core(core, session, event);
            &&& after.is_shutdown == core.is_shutdown
            &&& after.callbacks == core.callbacks
            &&& after.msg_tx == core.msg_tx
            &&& after.publish_tx == core.publish_tx
        }),
{
}

/// A client that is asked to shut down stays so, whatever step of that is taken; so being asked again
/// changes nothing, and there is nothing to do about it.
pub proof fn second_shutdown_does_nothing(core: CoreView, stage: ShutdownStage)
    ensures
        shut_down(core).is_shutdown,
        core_after_stage(shut_down(core), stage).is_shutdown,
        shut_down(core_after_stage(shut_down(core), stage)) == core_after_stage(
            shut_down(core),
            stage,
        ),
{
}

/// A client that has been shut down is not connected, and sends nothing that still waits to be
/// published.
pub proof fn shutdown_disconnects(core: CoreView, request: RequestView)
    ensures
        !settled(shut_down(core)).is_connected,
        settled(shut_down(core)).client is None,
        publish_step(settled(shut_down(core)), request) is Report,
{
}

/// Settings that were read from what an application passed can be connected with, as long as the
/// queue of messages can have the room that was asked for.
pub proof fn accepted_params_can_connect(params: ParamsView)
    requires
        params_suffice(params),
    ensures
        can_open(config_of(params)),
        params.message_buffer_size <= usize::MAX / 8 ==> queue_can_hold(
            config_of(params).message_buffer_size,
        ),
{
}

/// What is said of an event of the queue of messages is said of the message.
pub proof fn dispatch_event_shows_its_message(event: DispatchEvent)
    ensures
        match event {
            DispatchEvent::Cancelled => event@ is Cancelled,
            DispatchEvent::Message(message) => event@ == DispatchView::Message(message@),
            DispatchEvent::Closed => event@ is Closed,
        },
{
}

/// What is said of an event of the sending task is said of what it carries.
pub proof fn sender_event_shows_its_fields(event: SenderEvent)
    ensures
        match event {
            SenderEvent::Received(request) => event@ == SenderEventView::Received(request@),
            SenderEvent::Sent(Ok(_)) => event@ == SenderEventView::Sent(None),
            SenderEvent::Sent(Err(cause)) => event@ == SenderEventView::Sent(Some(cause@)),
            SenderEvent::Closed => event@ is Closed,
        },
{
}

/// What is said of what is done about a message is said of what it carries.
pub proof fn sending_shows_its_fields(step: PublishStep, action: SenderAction)
    ensures
        match step {
            PublishStep::Report(message) => step@ == PublishStepView::Report(message@),
            PublishStep::Send { client, request, retain } => step@ == (PublishStepView::Send {
                client,
                request: request@,
                retain,
            }),
        },
        match action {
            SenderAction::Receive { report: Some(message) } => action@ == (
            SenderActionView::Receive { report: Some(message@) }),
            SenderAction::Receive { report: None } => action@ == (SenderActionView::Receive {
                report: None,
            }),
            SenderAction::Send { client, request, retain } => action@ == (SenderActionView::Send {
                client,
                request: request@,
                retain,
            }),
            SenderAction::Stop => action@ is Stop,
        },
{
}

/// A message from the queue is handed to the broker exactly where the client is connected and has a
/// handle: with its own topic, content and level, not to be kept, and through the client's own handle.
/// Otherwise it is reported at once, and the report ends in its content.
pub proof fn sent_message_is_the_request(task: SenderTaskView, core: CoreView, request: RequestView)
    requires
        !task.stopped,
    ensures
        match sender_action(task, core, SenderEventView::Received(request)) {
            SenderActionView::Send { client, request: sent, retain } => {
                &&& core.is_connected
                &&& core.client == Some(client)
                &&& sent.topic == request.topic
                &&& sent.payload == request.payload
                &&& sent.qos == request.qos
                &&& !retain
            },
            SenderActionView::Receive { report } => {
                &&& !(core.is_connected && core.client is Some)
                &&& report == Some(
                    if !core.is_connected {
                        "未连接，消息丢弃: "@ + text_of(request.payload)
                    } else {
                        "client 不存在，丢弃消息: "@ + text_of(request.payload)
                    },
                )
            },
            SenderActionView::Stop => false,
        },
{
}

/// What a single request is met with is the same: it is sent as it is, or reported.
pub proof fn request_is_sent_or_reported(core: CoreView, request: RequestView)
    ensures
        match publish_step(core, request) {
            PublishStepView::Send { client, request: sent, retain } => {
                &&& core.is_connected
                &&& core.client == Some(client)
                &&& sent.topic == request.topic
                &&& sent.payload == request.payload
                &&& sent.qos == request.qos
                &&& !retain
            },
            PublishStepView::Report(message) => {
                ||| !core.is_connected && message == "未连接，消息丢弃: "@ + text_of(request.payload)
                ||| core.is_connected && core.client is None && message
                    == "client 不存在，丢弃消息: "@ + text_of(request.payload)
            },
        },
{
}

/// While a message is being sent its topic is remembered, so that a failure is reported with the topic
/// of that message and its own cause; a success is not reported. Then the next message has its turn.
pub proof fn failed_sending_is_reported(
    task: SenderTaskView,
    core: CoreView,
    later: CoreView,
    request: RequestView,
    cause: Seq<char>,
)
    requires
        !task.stopped,
        core.is_connected,
        core.client is Some,
    ensures
        ({
            let sending = next_sender(task, core, SenderEventView::Received(request));
            &&& !sending.stopped
            &&& sender_action(sending, later, SenderEventView::Sent(None)) == (
            SenderActionView::Receive { report: None })
            &&& sender_action(sending, later, SenderEventView::Sent(Some(cause))) == (
            SenderActionView::Receive {
                report: Some("发布失败: "@ + request.topic + " - "@ + cause),
            })
            &&& !next_sender(sending, later, SenderEventView::Sent(Some(cause))).stopped
        }),
{
}

/// The sending task ends when the queue is empty and closed, and does nothing more.
pub proof fn closed_queue_ends_sending(task: SenderTaskView, core: CoreView, event: SenderEventView)
    ensures
        sender_action(task, core, SenderEventView::Closed) is Stop,
        next_sender(task, core, SenderEventView::Closed).stopped,
        task.stopped ==> sender_action(task, core, event) is Stop && next_sender(task, core, event)
            == task,
        !task.stopped && !(event is Closed) ==> !next_sender(task, core, event).stopped
            && !(sender_action(task, core, event) is Stop),
{
}

/// What is handed to the broker while some events are met, in order.
pub open spec fn handed_to_broker(
    task: SenderTaskView,
    events: Seq<(CoreView, SenderEventView)>,
) -> Seq<(AsyncClient, RequestView, bool)>
    decreases events.len(),
{
    if events.len() == 0 {
        Seq::empty()
    } else {
        let before = handed_to_broker(task, events.drop_last());
        let (core, event) = events.last();
        match sender_action(sender_after(task, events.drop_last()), core, event) {
            SenderActionView::Send { client, request, retain } => before.push(
                (client, request, retain),
            ),
            _ => before,
        }
    }
}

/// The broker is handed the messages from the queue in the order of the queue, each unchanged and
/// once: those that are taken out while the client is connected and has a handle, and no other.
pub proof fn broker_gets_the_queue_in_order(handlings: Seq<Handling>)
    ensures
        handed_to_broker(idle_sender(), all_handling_events(handlings)) == handlings.filter(
            |handling: Handling| handling.core.is_connected && handling.core.client is Some,
        ).map_values(
            |handling: Handling|
                (handling.core.client->Some_0, handling.request, false),
        ),
    decreases handlings.len(),
{
    let sendable = |handling: Handling|
        handling.core.is_connected && handling.core.client is Some;
    let handed = |handling: Handling| (handling.core.client->Some_0, handling.request, false);
    reveal(Seq::filter);
    if handlings.len() == 0 {
        assert(handlings.filter(sendable).map_values(handed) =~= Seq::empty());
    } else {
        let before = all_handling_events(handlings.drop_last());
        let last = handlings.last();
        broker_gets_the_queue_in_order(handlings.drop_last());
        each_request_has_one_outcome(handlings.drop_last());
        let taken = (last.core, SenderEventView::Received(last.request));
        let over = (last.core_after, SenderEventView::Sent(last.failure));
        let so_far = handed_to_broker(idle_sender(), before);
        let kept = handlings.drop_last().filter(sendable);
        assert(before.push(taken).drop_last() =~= before);
        assert(before.push(taken).push(over).drop_last() =~= before.push(taken));
        if sendable(last) {
            assert(all_handling_events(handlings) =~= before.push(taken).push(over));
            assert(handed_to_broker(idle_sender(), before.push(taken)) == so_far.push(
                handed(last),
            ));
            assert(handed_to_broker(idle_sender(), before.push(taken).push(over)) == so_far.push(
                handed(last),
            ));
            assert(kept.push(last).map_values(handed) =~= kept.map_values(handed).push(
                handed(last),
            ));
        } else {
            assert(all_handling_events(handlings) =~= before.push(taken));
            assert(handed_to_broker(idle_sender(), before.push(taken)) == so_far);
        }
    }
}

/// A request to publish has one of two answers. It was put, unchanged, into the client's queue; or it
/// comes back unchanged, and then the application is told with code 3, its topic and the reason, where
/// anything notifies it. Without a queue it always comes back.
pub proof fn publish_is_queued_or_told(
    answer: Result<Queued, Unpublished>,
    publish_tx: Option<mpsc::Sender<PublishRequest>>,
    callbacks: Option<Arc<CallbackManager>>,
    request: RequestView,
)
    requires
        publish_answered(answer, publish_tx, callbacks, request),
    ensures
        publish_tx is None ==> (answer matches Err(unpublished) && unpublished.refusal
            is NotStarted),
        match answer {
            Ok(queued) => publish_tx == Some(queued.queue()) && queued.request() == request,
            Err(unpublished) => {
                let (kept, reason) = match unpublished.refusal {
                    NotQueued::NotStarted(kept) => (kept@, "publish_tx 未初始化"@),
                    NotQueued::Full(returned) => (returned.returned(), "no available capacity"@),
                    NotQueued::Closed(returned) => (returned.returned(), "channel closed"@),
                };
                &&& kept == request
                &&& callbacks is None <==> unpublished.notice is None
                &&& callbacks matches Some(manager) ==> (unpublished.notice matches Some(notice)
                    && delivered(
                    notice,
                    on_error_call(3, "发布失败: "@ + request.topic + " - "@ + reason),
                    *manager,
                ))
            },
        },
{
}

/// A new client is neither connected nor shut down, and holds nothing.
pub proof fn new_client_is_idle()
    ensures
        ({
            let core = idle_core();
            &&& !core.is_connected
            &&& !core.is_shutdown
            &&& core.client is None
            &&& core.callbacks is None
            &&& core.msg_tx is None
            &&& core.publish_tx is None
        }),
{
}

/// Setting what notifies the application, and starting the queues, change that and nothing else.
pub proof fn setting_up_leaves_the_rest(
    core: CoreView,
    callbacks: Arc<CallbackManager>,
    msg_tx: mpsc::Sender<MqttMessage>,
    publish_tx: mpsc::Sender<PublishRequest>,
)
    ensures
        ({
            let after = with_callbacks(core, callbacks);
            &&& after.callbacks == Some(callbacks)
            &&& after.client == core.client
            &&& after.is_connected == core.is_connected
            &&& after.is_shutdown == core.is_shutdown
            &&& after.msg_tx == core.msg_tx
            &&& after.publish_tx == core.publish_tx
        }),
        ({
            let after = with_queues(core, msg_tx, publish_tx);
            &&& after.msg_tx == Some(msg_tx)
            &&& after.publish_tx == Some(publish_tx)
            &&& after.client == core.client
            &&& after.is_connected == core.is_connected
            &&& after.is_shutdown == core.is_shutdown
            &&& after.callbacks == core.callbacks
        }),
{
}

/// A client counts as connected once the broker has accepted the connection, and no more once that has
/// failed. Being cancelled takes the handle away, and nothing else does.
pub proof fn events_change_the_connection(core: CoreView, session: SessionView, event: EventView)
    requires
        !session.stopped,
    ensures
        ({
            let after = next_core(core, session, event);
            &&& event is ConnAck ==> after.is_connected
            &&& event is Failed ==> !after.is_connected
            &&& !(event is ConnAck) && !(event is Failed) ==> after.is_connected
                == core.is_connected
            &&& event is Cancelled ==> after.client is None
            &&& !(event is Cancelled) ==> after.client == core.client
        }),
{
}

/// A session that has stopped changes nothing of the client.
pub proof fn stopped_session_leaves_the_client(
    core: CoreView,
    session: SessionView,
    event: EventView,
)
    requires
        session.stopped,
    ensures
        next_core(core, session, event) == core,
{
}

/// Shutting down marks the client first and lets go of the connection at the end; what notifies the
/// application and the queues stay.
pub proof fn shutdown_leaves_the_rest(core: CoreView)
    ensures
        ({
            let marked = shut_down(core);
            &&& marked.is_shutdown
            &&& marked.client == core.client
            &&& marked.is_connected == core.is_connected
            &&& marked.callbacks == core.callbacks
            &&& marked.msg_tx == core.msg_tx
            &&& marked.publish_tx == core.publish_tx
        }),
        ({
            let after = settled(core);
            &&& after.client is None
            &&& !after.is_connected
            &&& after.is_shutdown == core.is_shutdown
            &&& after.callbacks == core.callbacks
            &&& after.msg_tx == core.msg_tx
            &&& after.publish_tx == core.publish_tx
        }),
{
}

/// A shutdown goes from the signal to the wait, from there to letting go, and then it is over; only
/// letting go changes the client.
pub proof fn shutdown_stages_follow_each_other(core: CoreView, stage: ShutdownStage)
    ensures
        next_shutdown_stage(ShutdownStage::Signal) == ShutdownStage::Wait,
        next_shutdown_stage(ShutdownStage::Wait) == ShutdownStage::Clear,
        next_shutdown_stage(ShutdownStage::Clear) == ShutdownStage::Finished,
        next_shutdown_stage(ShutdownStage::Finished) == ShutdownStage::Finished,
        shutdown_action(ShutdownStage::Signal) == ShutdownAction::Signal,
        shutdown_action(ShutdownStage::Wait) == ShutdownAction::Wait(
            ShutdownPlan { settle_millis: 500, limit_secs: 3 },
        ),
        shutdown_action(ShutdownStage::Clear) == ShutdownAction::Finished,
        shutdown_action(ShutdownStage::Finished) == ShutdownAction::Finished,
        core_after_stage(core, ShutdownStage::Clear) == settled(core),
        stage != ShutdownStage::Clear ==> core_after_stage(core, stage) == core,
{
}

/// A message from the queue is handed to the application with `onMsg`, its own topic and its own
/// content; without a message the application is not called.
pub proof fn dispatched_message_is_told(event: DispatchView)
    ensures
        match event {
            DispatchView::Message(message) => dispatched_call(event) matches Some(call)
                && call.method == "onMsg"@ && call.args == seq![
                JavaArgView::Text(message.topic),
                JavaArgView::Text(message.payload),
            ],
            _ => dispatched_call(event) is None,
        },
{
}

/// The threads of the background tasks are called `mqtt-io-` and their number.
pub proof fn threads_are_numbered(index: nat)
    ensures
        ({
            let name = thread_name_of(index);
            &&& name.len() > 8
            &&& name.take(8) == "mqtt-io-"@
            &&& number_written(name.skip(8)) == index
            &&& name.skip(8) == decimal(index)
        }),
{
    reveal_strlit("mqtt-io-");
    decimal_writes_the_number(index);
    assert(thread_name_of(index).take(8) =~= "mqtt-io-"@);
    assert(thread_name_of(index).skip(8) =~= decimal(index));
}

} // verus!
