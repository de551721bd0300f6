//! The two queues between the application's threads and the background tasks.
//!
//! Received messages wait in one for the task that hands them to the application, and messages to
//! be published wait in the other for the task that sends them.

use tokio::sync::mpsc;
use vstd::prelude::*;

use crate::config::QoS;

verus! {

/// A received message on its way to the application.
pub struct MqttMessage {
    /// The topic it was published under.
    pub topic: String,
    /// Its content as text.
    pub payload: String,
}

/// The mathematical form of an [`MqttMessage`].
#[verifier::ext_equal]
pub struct MessageView {
    pub topic: Seq<char>,
    pub payload: Seq<char>,
}

impl View for MqttMessage {
    type V = MessageView;

    open spec fn view(&self) -> MessageView {
        MessageView { topic: self.topic@, payload: self.payload@ }
    }
}

/// A message that the application wants published.
pub struct PublishRequest {
    /// The topic to publish under.
    pub topic: String,
    /// The content.
    pub payload: Vec<u8>,
    /// How hard to try to deliver it.
    pub qos: QoS,
}

/// The mathematical form of a [`PublishRequest`].
#[verifier::ext_equal]
pub struct RequestView {
    pub topic: Seq<char>,
    pub payload: Seq<u8>,
    pub qos: QoS,
}

impl View for PublishRequest {
    type V = RequestView;

    open spec fn view(&self) -> RequestView {
        RequestView { topic: self.topic@, payload: self.payload@, qos: self.qos }
    }
}

/// Room in the queue of messages to be published.
pub const PUBLISH_QUEUE_CAPACITY: usize = 200;

/// The end of a queue that items are put in at.
#[verifier::external_type_specification]
#[verifier::external_body]
#[verifier::reject_recursive_types(T)]
pub struct ExSender<T>(mpsc::Sender<T>);

/// The end of a queue that items are taken out at.
#[verifier::external_type_specification]
#[verifier::external_body]
#[verifier::reject_recursive_types(T)]
pub struct ExReceiver<T>(mpsc::Receiver<T>);

/// How many messages the queue behind this end was made to hold.
pub uninterp spec fn message_room(tx: mpsc::Sender<MqttMessage>) -> nat;

/// How many requests the queue behind this end was made to hold.
pub uninterp spec fn publish_room(tx: mpsc::Sender<PublishRequest>) -> nat;

/// The end of a queue of messages where what is taken out at this end was put in.
pub uninterp spec fn message_source(rx: mpsc::Receiver<MqttMessage>) -> mpsc::Sender<MqttMessage>;

/// The end of a queue of requests where what is taken out at this end was put in.
pub uninterp spec fn publish_source(
    rx: mpsc::Receiver<PublishRequest>,
) -> mpsc::Sender<PublishRequest>;

/// Can a queue be made with this much room? It has to hold something, and three bits of a word are
/// taken.
pub open spec fn queue_can_hold(room: nat) -> bool {
    0 < room <= usize::MAX / 8
}

/// `tokio::sync::mpsc::channel`, for received messages: the two ends of a queue that holds
/// `room` of them. It
/// panics where it has no room, or more than a semaphore can count.
#[verifier::external_body]
fn message_channel(room: usize) -> (r: (
    mpsc::Sender<MqttMessage>,
    mpsc::Receiver<MqttMessage>,
))
    requires
        queue_can_hold(room as nat),
    ensures
        message_room(r.0) == room,
        message_source(r.1) == r.0,
{
    mpsc::channel(room)
}

/// `tokio::sync::mpsc::channel`, for requests: the two ends of a queue that holds `room` of them.
/// It panics where it has no room, or more than a semaphore can count.
#[verifier::external_body]
fn publish_channel(room: usize) -> (r: (
    mpsc::Sender<PublishRequest>,
    mpsc::Receiver<PublishRequest>,
))
    requires
        queue_can_hold(room as nat),
    ensures
        publish_room(r.0) == room,
        publish_source(r.1) == r.0,
{
    mpsc::channel(room)
}

/// `<mpsc::Sender as Clone>::clone`: another handle on the same end of the same queue.
#[verifier::external_body]
pub(crate) fn clone_sender<T>(tx: &mpsc::Sender<T>) -> (r: mpsc::Sender<T>)
    ensures
        r == *tx,
{
    tx.clone()
}

/// A request that a queue gave back. Only [`try_send`] writes one.
pub struct Returned {
    request: PublishRequest,
    what: Ghost<(mpsc::Sender<PublishRequest>, bool)>,
}

impl Returned {
    /// The end of the queue that the request was to be put in at.
    pub closed spec fn queue(&self) -> mpsc::Sender<PublishRequest> {
        self.what@.0
    }

    /// Was it given back because there was no room? Otherwise nobody takes requests out any more.
    pub closed spec fn was_full(&self) -> bool {
        self.what@.1
    }

    /// The request.
    pub closed spec fn returned(&self) -> RequestView {
        self.request@
    }

    /// The request.
    pub fn request(&self) -> (r: &PublishRequest)
        ensures
            r@ == self.returned(),
    {
        &self.request
    }
}

/// A request that was not queued.
pub enum NotQueued {
    /// There is no queue yet.
    NotStarted(PublishRequest),
    /// There was no room.
    Full(Returned),
    /// Nobody takes requests out any more.
    Closed(Returned),
}

/// Is this why a request was not put into the queue at this end, where there is a queue? Without one
/// the request was never handed on; otherwise the queue gave it back.
pub open spec fn not_queued(
    refusal: NotQueued,
    publish_tx: Option<mpsc::Sender<PublishRequest>>,
    request: RequestView,
) -> bool {
    match refusal {
        NotQueued::NotStarted(kept) => publish_tx is None && kept@ == request,
        NotQueued::Full(returned) => publish_tx == Some(returned.queue()) && returned.returned() == request
            && returned.was_full(),
        NotQueued::Closed(returned) => publish_tx == Some(returned.queue()) && returned.returned() == request
            && !returned.was_full(),
    }
}

/// The receipt for a request that was put into a queue. Only [`try_send`] writes one.
pub struct Queued {
    what: Ghost<(mpsc::Sender<PublishRequest>, RequestView)>,
}

impl Queued {
    /// The end of the queue that the request was put in at.
    pub closed spec fn queue(&self) -> mpsc::Sender<PublishRequest> {
        self.what@.0
    }

    /// The request.
    pub closed spec fn request(&self) -> RequestView {
        self.what@.1
    }
}

/// `mpsc::Sender::try_send`: puts a request in without waiting, for which there is a receipt, or
/// gives that request back. Which of the two depends on what other threads have put in and taken
/// out.
#[verifier::external_body]
pub(crate) fn try_send(tx: &mpsc::Sender<PublishRequest>, request: PublishRequest) -> (r: Result<
    Queued,
    NotQueued,
>)
    ensures
        match r {
            Ok(queued) => queued.queue() == *tx && queued.request() == request@,
            Err(refusal) => not_queued(refusal, Some(*tx), request@),
        },
{
    let ghost view = request@;
    tx.try_send(request).map(|_| Queued { what: Ghost((*tx, view)) }).map_err(
        |e| match e {
            mpsc::error::TrySendError::Full(request) => NotQueued::Full(
                Returned { request, what: Ghost((*tx, true)) },
            ),
            mpsc::error::TrySendError::Closed(request) => NotQueued::Closed(
                Returned { request, what: Ghost((*tx, false)) },
            ),
        },
    )
}

/// Both ends of the two queues.
pub struct Queues {
    /// Where received messages are put in.
    pub msg_tx: mpsc::Sender<MqttMessage>,
    /// Where received messages are taken out.
    pub msg_rx: mpsc::Receiver<MqttMessage>,
    /// Where messages to be published are put in.
    pub publish_tx: mpsc::Sender<PublishRequest>,
    /// Where messages to be published are taken out.
    pub publish_rx: mpsc::Receiver<PublishRequest>,
}

/// Makes the two queues, the one for received messages with the room that is asked for.
pub fn open_queues(message_buffer_size: usize) -> (r: Queues)
    requires
        queue_can_hold(message_buffer_size as nat),
    ensures
        message_room(r.msg_tx) == message_buffer_size,
        message_source(r.msg_rx) == r.msg_tx,
        publish_room(r.publish_tx) == PUBLISH_QUEUE_CAPACITY,
        publish_source(r.publish_rx) == r.publish_tx,
{
    let (msg_tx, msg_rx) = message_channel(message_buffer_size);
    let (publish_tx, publish_rx) = publish_channel(PUBLISH_QUEUE_CAPACITY);
    Queues { msg_tx, msg_rx, publish_tx, publish_rx }
}

/// What is said of a message is said of its topic and its content.
pub proof fn message_shows_its_fields(message: MqttMessage, request: PublishRequest)
    ensures
        message@.topic == message.topic@,
        message@.payload == message.payload@,
        request@.topic == request.topic@,
        request@.payload == request.payload@,
        request@.qos == request.qos,
{
}

/// A request that was not queued is the one that was handed in; it was given back by the queue that it
/// was for, or there was no queue.
pub proof fn refused_request_comes_back(
    refusal: NotQueued,
    publish_tx: Option<mpsc::Sender<PublishRequest>>,
    request: RequestView,
)
    requires
        not_queued(refusal, publish_tx, request),
    ensures
        match refusal {
            NotQueued::NotStarted(kept) => publish_tx is None && kept@ == request,
            NotQueued::Full(returned) => {
                &&& publish_tx == Some(returned.queue())
                &&& returned.returned() == request
                &&& returned.was_full()
            },
            NotQueued::Closed(returned) => {
                &&& publish_tx == Some(returned.queue())
                &&& returned.returned() == request
                &&& !returned.was_full()
            },
        },
{
}

/// A queue can be made with any room but none, as long as three bits of a word are left free.
pub proof fn queue_needs_room(room: nat)
    ensures
        queue_can_hold(room) <==> 1 <= room && room * 8 <= usize::MAX,
{
}

} // verus!
