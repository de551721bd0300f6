//! The life of a connection: what is done about each event, until the client is shut down.
//!
//! The event loop of the `rumqttc` crate reconnects by itself when it is polled again. A [`Session`]
//! decides everything around that: what the application is told, what is subscribed to, how long to
//! wait after a failure, and when to stop.

use vstd::prelude::*;
use vstd::string::*;

use crate::callbacks::{CallbackManager, Notice};
use crate::config::{MqttConfig, QoS};
use crate::queues::MqttMessage;
use crate::text::{decimal_text, join, payload_text};

verus! {

use crate::callbacks::delivered;
use crate::calls::{connect_complete_call, connection_lost_call, JavaArgView, JavaCallView};
use crate::config::{texts, ConfigView};
use crate::queues::MessageView;
use crate::text::{
    decimal, decimal_writes_the_number, encoded_text_is_kept, number_written, text_of,
};

/// Something that happened to a session.
pub enum SessionEvent {
    /// The client was shut down while the session waited for an event.
    Cancelled,
    /// The broker accepted the connection.
    ConnAck,
    /// The broker passed a message on.
    Publish {
        /// The topic it was published under.
        topic: String,
        /// Its content.
        payload: Vec<u8>,
    },
    /// Anything else that the connection reports.
    Other,
    /// The connection broke, or could not be made.
    Failed {
        /// Why.
        cause: String,
    },
    /// A message was put into the queue.
    Queued,
    /// A message could not be put into the queue, because nobody takes any out.
    QueueClosed,
    /// The wait after a failure is over.
    WaitOver,
    /// The client was shut down during the wait after a failure.
    WaitCancelled,
}

/// The mathematical form of a [`SessionEvent`].
pub enum EventView {
    Cancelled,
    ConnAck,
    Publish { topic: Seq<char>, payload: Seq<u8> },
    Other,
    Failed { cause: Seq<char> },
    Queued,
    QueueClosed,
    WaitOver,
    WaitCancelled,
}

impl View for SessionEvent {
    type V = EventView;

    open spec fn view(&self) -> EventView {
        match self {
            SessionEvent::Cancelled => EventView::Cancelled,
            SessionEvent::ConnAck => EventView::ConnAck,
            SessionEvent::Publish { topic, payload } => EventView::Publish {
                topic: topic@,
                payload: payload@,
            },
            SessionEvent::Other => EventView::Other,
            SessionEvent::Failed { cause } => EventView::Failed { cause: cause@ },
            SessionEvent::Queued => EventView::Queued,
            SessionEvent::QueueClosed => EventView::QueueClosed,
            SessionEvent::WaitOver => EventView::WaitOver,
            SessionEvent::WaitCancelled => EventView::WaitCancelled,
        }
    }
}

/// What to do about an event.
pub enum Reaction {
    /// Wait for the next event.
    Poll,
    /// Tell the application that it is connected, subscribe, and wait for the next event.
    Announce {
        /// Whether there was a connection before this one.
        reconnect: bool,
        /// The broker's address.
        server_uri: String,
        /// The topics to subscribe to, in order.
        topics: Vec<String>,
        /// The level to subscribe with.
        qos: QoS,
    },
    /// Put a message into the queue for the application.
    Enqueue(MqttMessage),
    /// Wait, unless the client is shut down meanwhile.
    Wait {
        /// Why the connection was lost, where the application is to be told first.
        lost: Option<String>,
        /// How many seconds to wait.
        secs: u64,
    },
    /// Stop: the session is over.
    Stop,
}

/// The mathematical form of a [`Reaction`].
pub enum ReactionView {
    Poll,
    Announce { reconnect: bool, server_uri: Seq<char>, topics: Seq<Seq<char>>, qos: QoS },
    Enqueue(MessageView),
    Wait { lost: Option<Seq<char>>, secs: nat },
    Stop,
}

impl View for Reaction {
    type V = ReactionView;

    open spec fn view(&self) -> ReactionView {
        match self {
            Reaction::Poll => ReactionView::Poll,
            Reaction::Announce { reconnect, server_uri, topics, qos } => ReactionView::Announce {
                reconnect: *reconnect,
                server_uri: server_uri@,
                topics: texts(topics@),
                qos: *qos,
            },
            Reaction::Enqueue(message) => ReactionView::Enqueue(message@),
            Reaction::Wait { lost, secs } => ReactionView::Wait {
                lost: match lost {
                    Some(cause) => Some(cause@),
                    None => None,
                },
                secs: *secs as nat,
            },
            Reaction::Stop => ReactionView::Stop,
        }
    }
}

/// A session: the settings, and what has happened so far.
pub struct Session {
    config: MqttConfig,
    server_uri: String,
    was_ever_connected: bool,
    stopped: bool,
}

/// The mathematical form of a [`Session`].
#[verifier::ext_equal]
pub struct SessionView {
    pub config: ConfigView,
    pub server_uri: Seq<char>,
    pub was_ever_connected: bool,
    pub stopped: bool,
}

/// The broker's address as the application is told it: host and port with a colon between them.
pub open spec fn server_uri_of(config: ConfigView) -> Seq<char> {
    config.host + ":"@ + decimal(config.port)
}

/// A session to which nothing has happened yet.
pub open spec fn fresh(config: ConfigView) -> SessionView {
    SessionView {
        config,
        server_uri: server_uri_of(config),
        was_ever_connected: false,
        stopped: false,
    }
}

/// Does a session end with this event?
pub open spec fn is_stopping(event: EventView) -> bool {
    event is Cancelled || event is QueueClosed || event is WaitCancelled
}

/// What a session has become after an event.
pub open spec fn next_session(session: SessionView, event: EventView) -> SessionView {
    SessionView {
        config: session.config,
        server_uri: session.server_uri,
        was_ever_connected: session.was_ever_connected || (!session.stopped && event is ConnAck),
        stopped: session.stopped || is_stopping(event),
    }
}

/// Whether the client counts as connected after an event.
pub open spec fn next_connected(session: SessionView, connected: bool, event: EventView) -> bool {
    if session.stopped {
        connected
    } else {
        match event {
            EventView::ConnAck => true,
            EventView::Failed { .. } => false,
            _ => connected,
        }
    }
}

/// What is done about an event while the client counts as connected or not.
pub open spec fn reaction(session: SessionView, connected: bool, event: EventView) -> ReactionView {
    if session.stopped || is_stopping(event) {
        ReactionView::Stop
    } else {
        match event {
            EventView::ConnAck => ReactionView::Announce {
                reconnect: session.was_ever_connected,
                server_uri: session.server_uri,
                topics: session.config.topics,
                qos: session.config.qos,
            },
            EventView::Publish { topic, payload } => ReactionView::Enqueue(
                MessageView { topic, payload: text_of(payload) },
            ),
            EventView::Failed { cause } => ReactionView::Wait {
                lost: if connected {
                    Some(cause)
                } else {
                    None
                },
                secs: session.config.reconnect_interval_secs,
            },
            _ => ReactionView::Poll,
        }
    }
}

/// A copy of a vector of strings.
fn copy_strings(strings: &Vec<String>) -> (r: Vec<String>)
    ensures
        texts(r@) == texts(strings@),
{
    let mut copies: Vec<String> = Vec::new();
    while copies.len() < strings.len()
        invariant
            copies@.len() <= strings@.len(),
            forall|i: int| 0 <= i < copies@.len() ==> #[trigger] copies@[i]@ == strings@[i]@,
        decreases strings@.len() - copies@.len(),
    {
        let copy = strings[copies.len()].clone();
        copies.push(copy);
    }
    assert(texts(copies@) =~= texts(strings@));
    copies
}

/// Writes the broker's address.
pub fn server_uri(config: &MqttConfig) -> (r: String)
    ensures
        r@ == server_uri_of(config@),
{
    let mut uri = join(config.host.as_str(), ":");
    uri.append(decimal_text(config.port as u32).as_str());
    uri
}

impl View for Session {
    type V = SessionView;

    closed spec fn view(&self) -> SessionView {
        SessionView {
            config: self.config@,
            server_uri: self.server_uri@,
            was_ever_connected: self.was_ever_connected,
            stopped: self.stopped,
        }
    }
}

impl Session {
    /// Begins a session.
    pub fn new(config: MqttConfig) -> (r: Session)
        ensures
            r@ == fresh(config@),
    {
        let uri = server_uri(&config);
        Session { config, server_uri: uri, was_ever_connected: false, stopped: false }
    }

    /// The address of the broker.
    pub fn server_uri(&self) -> (r: &str)
        ensures
            r@ == self@.server_uri,
    {
        self.server_uri.as_str()
    }

    /// Is the session over?
    pub fn is_stopped(&self) -> (r: bool)
        ensures
            r == self@.stopped,
    {
        self.stopped
    }

    /// Decides what is done about an event while the client counts as connected or not.
    pub fn react(&mut self, connected: bool, event: SessionEvent) -> (r: Reaction)
        ensures
            final(self)@ == next_session(old(self)@, event@),
            r@ == reaction(old(self)@, connected, event@),
    {
        if self.stopped {
            return Reaction::Stop;
        }
        match event {
            SessionEvent::Cancelled | SessionEvent::QueueClosed | SessionEvent::WaitCancelled => {
                self.stopped = true;
                Reaction::Stop
            },
            SessionEvent::ConnAck => {
                let reconnect = self.was_ever_connected;
                self.was_ever_connected = true;
                Reaction::Announce {
                    reconnect,
                    server_uri: self.server_uri.clone(),
                    topics: copy_strings(&self.config.topics),
                    qos: self.config.qos,
                }
            },
            SessionEvent::Publish { topic, payload } => {
                let text = payload_text(payload.as_slice());
                Reaction::Enqueue(MqttMessage { topic, payload: text })
            },
            SessionEvent::Failed { cause } => {
                let lost = if connected {
                    Some(cause)
                } else {
                    None
                };
                Reaction::Wait { lost, secs: self.config.reconnect_interval_secs }
            },
            SessionEvent::Other | SessionEvent::Queued | SessionEvent::WaitOver => Reaction::Poll,
        }
    }
}

/// How the application is called about a reaction, where it is to be told anything.
pub open spec fn told(reaction: ReactionView) -> Option<JavaCallView> {
    match reaction {
        ReactionView::Announce { reconnect, server_uri, .. } => Some(
            connect_complete_call(reconnect, server_uri),
        ),
        ReactionView::Wait { lost: Some(cause), .. } => Some(connection_lost_call(cause)),
        _ => None,
    }
}

/// Tells the application about a reaction, where it is to be told anything: that it is connected, or
/// that the connection has gone.
pub fn notify(callbacks: &CallbackManager, reaction: &Reaction) -> (r: Option<Notice>)
    ensures
        match reaction@ {
            ReactionView::Announce { reconnect, server_uri, .. } => r matches Some(notice)
                && delivered(notice, connect_complete_call(reconnect, server_uri), *callbacks),
            ReactionView::Wait { lost: Some(cause), .. } => r matches Some(notice) && delivered(
                notice,
                connection_lost_call(cause),
                *callbacks,
            ),
            _ => r is None,
        },
        match told(reaction@) {
            Some(call) => r matches Some(notice) && delivered(notice, call, *callbacks),
            None => r is None,
        },
{
    match reaction {
        Reaction::Announce { reconnect, server_uri, .. } => Some(
            callbacks.connect_complete(*reconnect, server_uri.as_str()),
        ),
        Reaction::Wait { lost: Some(cause), .. } => Some(
            callbacks.connection_lost(cause.as_str()),
        ),
        _ => None,
    }
}

/// The topics that are subscribed to after a connection has been made, one at a time.
pub struct Subscriptions {
    topics: Vec<String>,
    qos: QoS,
    tried: usize,
}

/// The mathematical form of [`Subscriptions`].
#[verifier::ext_equal]
pub struct SubscriptionsView {
    pub topics: Seq<Seq<char>>,
    pub qos: QoS,
    /// How many of the topics have been tried.
    pub tried: nat,
}

impl View for Subscriptions {
    type V = SubscriptionsView;

    closed spec fn view(&self) -> SubscriptionsView {
        SubscriptionsView { topics: texts(self.topics@), qos: self.qos, tried: self.tried as nat }
    }
}

/// These topics before any has been tried.
pub open spec fn untried(topics: Seq<Seq<char>>, qos: QoS) -> SubscriptionsView {
    SubscriptionsView { topics, qos, tried: 0 }
}

/// The topic to subscribe to next, where one is left.
pub open spec fn next_topic(subscriptions: SubscriptionsView) -> Option<(Seq<char>, QoS)> {
    if subscriptions.tried < subscriptions.topics.len() {
        Some((subscriptions.topics[subscriptions.tried as int], subscriptions.qos))
    } else {
        None
    }
}

/// The subscriptions after the next topic has been handed out. How the one before ended, where there
/// was one, makes no difference.
pub open spec fn next_subscriptions(
    subscriptions: SubscriptionsView,
    before: Option<Result<(), Seq<char>>>,
) -> SubscriptionsView {
    SubscriptionsView {
        tried: if subscriptions.tried < subscriptions.topics.len() {
            subscriptions.tried + 1
        } else {
            subscriptions.tried
        },
        ..subscriptions
    }
}

/// How a subscription ended, where there was one, with the text of its error.
pub open spec fn ended(before: Option<Result<(), String>>) -> Option<Result<(), Seq<char>>> {
    match before {
        None => None,
        Some(Ok(_)) => Some(Ok(())),
        Some(Err(cause)) => Some(Err(cause@)),
    }
}

impl Subscriptions {
    /// Begins with the first topic.
    pub fn new(topics: Vec<String>, qos: QoS) -> (r: Subscriptions)
        ensures
            r@ == untried(texts(topics@), qos),
    {
        Subscriptions { topics, qos, tried: 0 }
    }

    /// Hands out the next topic, given how the subscription before it ended. A subscription that
    /// failed is left at that.
    pub fn step(&mut self, before: Option<Result<(), String>>) -> (r: Option<(String, QoS)>)
        ensures
            final(self)@ == next_subscriptions(old(self)@, ended(before)),
            match r {
                Some((topic, qos)) => next_topic(old(self)@) == Some((topic@, qos)),
                None => next_topic(old(self)@) is None,
            },
    {
        if self.tried < self.topics.len() {
            let topic = self.topics[self.tried].clone();
            self.tried = self.tried + 1;
            Some((topic, self.qos))
        } else {
            None
        }
    }
}

/// The subscriptions after some steps, with how the subscription before each of them ended.
pub open spec fn subscriptions_after(
    subscriptions: SubscriptionsView,
    ends: Seq<Option<Result<(), Seq<char>>>>,
) -> SubscriptionsView
    decreases ends.len(),
{
    if ends.len() == 0 {
        subscriptions
    } else {
        next_subscriptions(subscriptions_after(subscriptions, ends.drop_last()), ends.last())
    }
}

/// What is subscribed to in some steps, in order.
pub open spec fn subscribed(
    subscriptions: SubscriptionsView,
    ends: Seq<Option<Result<(), Seq<char>>>>,
) -> Seq<(Seq<char>, QoS)>
    decreases ends.len(),
{
    if ends.len() == 0 {
        Seq::empty()
    } else {
        let before = subscribed(subscriptions, ends.drop_last());
        match next_topic(subscriptions_after(subscriptions, ends.drop_last())) {
            Some(next) => before.push(next),
            None => before,
        }
    }
}

/// Each topic is subscribed to once, in order, however the subscriptions end: one that fails keeps no
/// later topic from its turn. After as many steps as there are topics nothing is left.
pub proof fn each_topic_is_tried_once(
    topics: Seq<Seq<char>>,
    qos: QoS,
    ends: Seq<Option<Result<(), Seq<char>>>>,
)
    ensures
        ({
            let n = if ends.len() <= topics.len() {
                ends.len()
            } else {
                topics.len()
            };
            &&& subscribed(untried(topics, qos), ends) == Seq::new(n, |i: int| (topics[i], qos))
            &&& subscriptions_after(untried(topics, qos), ends) == (SubscriptionsView {
                topics,
                qos,
                tried: n,
            })
        }),
        ends.len() >= topics.len() ==> next_topic(subscriptions_after(untried(topics, qos), ends))
            is None,
    decreases ends.len(),
{
    if ends.len() > 0 {
        each_topic_is_tried_once(topics, qos, ends.drop_last());
    }
    let n = if ends.len() <= topics.len() {
        ends.len()
    } else {
        topics.len()
    };
    assert(subscribed(untried(topics, qos), ends) =~= Seq::new(n, |i: int| (topics[i], qos)));
}

/// What a session has become after some events.
pub open spec fn session_after(session: SessionView, events: Seq<EventView>) -> SessionView
    decreases events.len(),
{
    if events.len() == 0 {
        session
    } else {
        next_session(session_after(session, events.drop_last()), events.last())
    }
}

/// Whether the client counts as connected after some events, if it did not before.
pub open spec fn connected_after(session: SessionView, events: Seq<EventView>) -> bool
    decreases events.len(),
{
    if events.len() == 0 {
        false
    } else {
        next_connected(
            session_after(session, events.drop_last()),
            connected_after(session, events.drop_last()),
            events.last(),
        )
    }
}

/// What is done about the event at place `i`.
pub open spec fn reaction_at(session: SessionView, events: Seq<EventView>, i: int) -> ReactionView {
    reaction(
        session_after(session, events.take(i)),
        connected_after(session, events.take(i)),
        events[i],
    )
}

/// Is the application told of a lost connection?
pub open spec fn tells_of_loss(reaction: ReactionView) -> bool {
    reaction matches ReactionView::Wait { lost: Some(_), .. }
}

/// One more event.
proof fn one_more_event(session: SessionView, events: Seq<EventView>, n: int)
    requires
        0 <= n < events.len(),
    ensures
        session_after(session, events.take(n + 1)) == next_session(
            session_after(session, events.take(n)),
            events[n],
        ),
        connected_after(session, events.take(n + 1)) == next_connected(
            session_after(session, events.take(n)),
            connected_after(session, events.take(n)),
            events[n],
        ),
{
    assert(events.take(n + 1).drop_last() =~= events.take(n));
    assert(events.take(n + 1).last() == events[n]);
}

/// What a session knows of its past.
proof fn session_remembers(config: ConfigView, events: Seq<EventView>, n: int)
    requires
        0 <= n <= events.len(),
    ensures
        session_after(fresh(config), events.take(n)).config == config,
        session_after(fresh(config), events.take(n)).server_uri == server_uri_of(config),
        session_after(fresh(config), events.take(n)).stopped <==> exists|i: int|
            0 <= i < n && is_stopping(#[trigger] events[i]),
        session_after(fresh(config), events.take(n)).was_ever_connected <==> exists|i: int|
            0 <= i < n && #[trigger] reaction_at(fresh(config), events, i) is Announce,
    decreases n,
{
    if n > 0 {
        let m = n - 1;
        session_remembers(config, events, m);
        one_more_event(fresh(config), events, m);
        assert(session_after(fresh(config), events.take(n)).was_ever_connected ==> exists|i: int|
            0 <= i < n && #[trigger] reaction_at(fresh(config), events, i) is Announce) by {
            let last = reaction_at(fresh(config), events, m);
            if !(last is Announce) && session_after(
                fresh(config),
                events.take(n),
            ).was_ever_connected {
                let i = choose|i: int|
                    0 <= i < m && #[trigger] reaction_at(fresh(config), events, i) is Announce;
                assert(reaction_at(fresh(config), events, i) is Announce);
            }
        }
    }
}

/// The application is told that it is connected again exactly where it has been told before that it
/// is connected.
pub proof fn only_first_announcement_is_no_reconnect(
    config: ConfigView,
    events: Seq<EventView>,
    n: int,
)
    requires
        0 <= n < events.len(),
    ensures
        reaction_at(fresh(config), events, n) matches ReactionView::Announce { reconnect, .. } ==> (
        reconnect <==> exists|i: int|
            0 <= i < n && #[trigger] reaction_at(fresh(config), events, i) is Announce),
{
    session_remembers(config, events, n);
}

/// Each time the broker accepts the connection, the application is told the address and all topics
/// are subscribed to, in order, until the session has stopped.
pub proof fn every_connection_subscribes(config: ConfigView, events: Seq<EventView>, n: int)
    requires
        0 <= n < events.len(),
        events[n] is ConnAck,
        forall|i: int| 0 <= i < n ==> !is_stopping(#[trigger] events[i]),
    ensures
        reaction_at(fresh(config), events, n) matches ReactionView::Announce {
            server_uri,
            topics,
            qos,
            ..
        } && server_uri == server_uri_of(config) && topics == config.topics && qos == config.qos,
{
    session_remembers(config, events, n);
}

/// After each connection every topic of the settings is subscribed to once, in order and with the
/// level of the settings, whatever becomes of each subscription, until the session has stopped.
pub proof fn every_connection_tries_every_topic(
    config: ConfigView,
    events: Seq<EventView>,
    n: int,
    ends: Seq<Option<Result<(), Seq<char>>>>,
)
    requires
        0 <= n < events.len(),
        events[n] is ConnAck,
        forall|i: int| 0 <= i < n ==> !is_stopping(#[trigger] events[i]),
        ends.len() >= config.topics.len(),
    ensures
        reaction_at(fresh(config), events, n) matches ReactionView::Announce { topics, qos, .. }
            && subscribed(untried(topics, qos), ends) == config.topics.map_values(
            |topic: Seq<char>| (topic, config.qos),
        ),
{
    every_connection_subscribes(config, events, n);
    each_topic_is_tried_once(config.topics, config.qos, ends);
    assert(config.topics.map_values(|topic: Seq<char>| (topic, config.qos)) =~= Seq::new(
        config.topics.len(),
        |i: int| (config.topics[i], config.qos),
    ));
}

/// A session never gives up: it is over if and only if the client was shut down or the queue of
/// messages was closed, however many attempts to connect fail.
pub proof fn session_never_gives_up(config: ConfigView, events: Seq<EventView>)
    ensures
        session_after(fresh(config), events).stopped <==> exists|i: int|
            0 <= i < events.len() && is_stopping(#[trigger] events[i]),
{
    session_remembers(config, events, events.len() as int);
    assert(events.take(events.len() as int) =~= events);
}

/// After every failure the same number of seconds is waited, until the session has stopped.
pub proof fn every_failure_waits(config: ConfigView, events: Seq<EventView>, n: int)
    requires
        0 <= n < events.len(),
        events[n] is Failed,
        forall|i: int| 0 <= i < n ==> !is_stopping(#[trigger] events[i]),
    ensures
        reaction_at(fresh(config), events, n) matches ReactionView::Wait { secs, .. } && secs
            == config.reconnect_interval_secs,
{
    session_remembers(config, events, n);
}

/// While the client counts as connected, the last thing that was told is that it is.
proof fn connected_since(config: ConfigView, events: Seq<EventView>, n: int)
    requires
        0 <= n <= events.len(),
    ensures
        connected_after(fresh(config), events.take(n)) ==> exists|i: int|
            0 <= i < n && #[trigger] reaction_at(fresh(config), events, i) is Announce && forall|
                j: int,
            |
                i < j < n ==> !tells_of_loss(#[trigger] reaction_at(fresh(config), events, j)),
    decreases n,
{
    if n > 0 {
        let m = n - 1;
        connected_since(config, events, m);
        one_more_event(fresh(config), events, m);
        if connected_after(fresh(config), events.take(n)) {
            let last = reaction_at(fresh(config), events, m);
            if !(last is Announce) {
                assert(!tells_of_loss(last));
                let i = choose|i: int|
                    0 <= i < m && #[trigger] reaction_at(fresh(config), events, i) is Announce
                        && forall|j: int|
                        i < j < m ==> !tells_of_loss(
                            #[trigger] reaction_at(fresh(config), events, j),
                        );
                assert(reaction_at(fresh(config), events, i) is Announce);
                assert forall|j: int| i < j < n implies !tells_of_loss(
                    #[trigger] reaction_at(fresh(config), events, j),
                ) by {
                    if j < m {
                        assert(!tells_of_loss(reaction_at(fresh(config), events, j)));
                    }
                }
            }
        }
    }
}

/// A connection is reported as lost only once: before each report of a loss the application was told
/// of a connection, and no loss has been reported since.
pub proof fn each_loss_follows_a_connection(config: ConfigView, events: Seq<EventView>, n: int)
    requires
        0 <= n < events.len(),
        tells_of_loss(reaction_at(fresh(config), events, n)),
    ensures
        exists|i: int|
            0 <= i < n && #[trigger] reaction_at(fresh(config), events, i) is Announce && forall|
                j: int,
            |
                i < j < n ==> !tells_of_loss(#[trigger] reaction_at(fresh(config), events, j)),
{
    connected_since(config, events, n);
}

/// The messages among some events, as the application is to see them.
pub open spec fn received(events: Seq<EventView>) -> Seq<MessageView>
    decreases events.len(),
{
    if events.len() == 0 {
        Seq::empty()
    } else {
        let before = received(events.drop_last());
        match events.last() {
            EventView::Publish { topic, payload } => before.push(
                MessageView { topic, payload: text_of(payload) },
            ),
            _ => before,
        }
    }
}

/// The messages that a session asks to have put into the queue.
pub open spec fn offered(session: SessionView, events: Seq<EventView>) -> Seq<MessageView>
    decreases events.len(),
{
    if events.len() == 0 {
        Seq::empty()
    } else {
        let before = offered(session, events.drop_last());
        match reaction(
            session_after(session, events.drop_last()),
            connected_after(session, events.drop_last()),
            events.last(),
        ) {
            ReactionView::Enqueue(message) => before.push(message),
            _ => before,
        }
    }
}

/// While a session goes on it offers what comes.
proof fn live_session_offers(config: ConfigView, events: Seq<EventView>)
    requires
        forall|i: int| 0 <= i < events.len() ==> !is_stopping(#[trigger] events[i]),
    ensures
        offered(fresh(config), events) == received(events),
    decreases events.len(),
{
    if events.len() > 0 {
        let before = events.drop_last();
        assert forall|i: int| 0 <= i < before.len() implies !is_stopping(#[trigger] before[i]) by {
            assert(before[i] == events[i]);
        }
        live_session_offers(config, before);
        session_never_gives_up(config, before);
    }
}

/// No message is passed over, doubled or reordered: what a session asks to have put into the queue is
/// what came before the session was stopped, in the order in which it came. The event that stops
/// the session, where there is one, is the one at place `end`; where it says that the queue is
/// closed, the last of the messages was asked for in vain.
pub proof fn every_message_is_offered(config: ConfigView, events: Seq<EventView>, end: int)
    requires
        0 <= end <= events.len(),
        end < events.len() ==> is_stopping(events[end]),
        forall|i: int| 0 <= i < end ==> !is_stopping(#[trigger] events[i]),
    ensures
        offered(fresh(config), events) == received(events.take(end)),
    decreases events.len(),
{
    if events.len() == end {
        assert(events.take(end) =~= events);
        live_session_offers(config, events);
    } else {
        let before = events.drop_last();
        assert forall|i: int| 0 <= i < end implies !is_stopping(#[trigger] before[i]) by {
            assert(before[i] == events[i]);
        }
        assert(end < before.len() ==> is_stopping(before[end]));
        every_message_is_offered(config, before, end);
        assert(before.take(end) =~= events.take(end));
        session_never_gives_up(config, before);
    }
}

/// The client counts as connected exactly where the broker has accepted a connection and nothing
/// has failed since, while the session has not stopped.
pub proof fn connected_until_failure(config: ConfigView, events: Seq<EventView>)
    requires
        forall|i: int| 0 <= i < events.len() ==> !is_stopping(#[trigger] events[i]),
    ensures
        connected_after(fresh(config), events) <==> exists|i: int|
            0 <= i < events.len() && #[trigger] events[i] is ConnAck && forall|j: int|
                i < j < events.len() ==> !(#[trigger] events[j] is Failed),
    decreases events.len(),
{
    if events.len() > 0 {
        let before = events.drop_last();
        assert forall|i: int| 0 <= i < before.len() implies !is_stopping(#[trigger] before[i]) by {
            assert(before[i] == events[i]);
        }
        connected_until_failure(config, before);
        session_never_gives_up(config, before);
        let last = events.len() - 1;
        if connected_after(fresh(config), events) && !(events[last] is ConnAck) {
            let i = choose|i: int|
                0 <= i < before.len() && #[trigger] before[i] is ConnAck && forall|j: int|
                    i < j < before.len() ==> !(#[trigger] before[j] is Failed);
            assert(events[i] is ConnAck);
            assert forall|j: int| i < j < events.len() implies !(#[trigger] events[j] is Failed) by {
                if j < last {
                    assert(!(before[j] is Failed));
                }
            }
        }
        if exists|i: int|
            0 <= i < events.len() && #[trigger] events[i] is ConnAck && forall|j: int|
                i < j < events.len() ==> !(#[trigger] events[j] is Failed) {
            let i = choose|i: int|
                0 <= i < events.len() && #[trigger] events[i] is ConnAck && forall|j: int|
                    i < j < events.len() ==> !(#[trigger] events[j] is Failed);
            if i < last {
                assert(before[i] is ConnAck);
                assert forall|j: int| i < j < before.len() implies !(
                #[trigger] before[j] is Failed) by {
                    assert(!(events[j] is Failed));
                }
                assert(!(events[last] is Failed));
            }
        }
    }
}

/// A session that has stopped does nothing more.
pub proof fn stopped_session_does_nothing(session: SessionView, connected: bool, event: EventView)
    requires
        session.stopped,
    ensures
        reaction(session, connected, event) is Stop,
        next_session(session, event) == session,
        next_connected(session, connected, event) == connected,
{
}

/// A message whose payload is the UTF-8 form of some text is queued for the application with that
/// very text.
pub proof fn published_text_arrives(
    session: SessionView,
    connected: bool,
    topic: Seq<char>,
    text: Seq<char>,
)
    requires
        !session.stopped,
    ensures
        reaction(
            session,
            connected,
            EventView::Publish { topic, payload: vstd::utf8::encode_utf8(text) },
        ) matches ReactionView::Enqueue(message) && message.topic == topic && message.payload
            == text,
{
    encoded_text_is_kept(text);
}

/// What is said of an event is said of what it carries.
pub proof fn event_shows_its_fields(event: SessionEvent)
    ensures
        match event {
            SessionEvent::Cancelled => event@ is Cancelled,
            SessionEvent::ConnAck => event@ is ConnAck,
            SessionEvent::Publish { topic, payload } => event@ == (EventView::Publish {
                topic: topic@,
                payload: payload@,
            }),
            SessionEvent::Other => event@ is Other,
            SessionEvent::Failed { cause } => event@ == (EventView::Failed { cause: cause@ }),
            SessionEvent::Queued => event@ is Queued,
            SessionEvent::QueueClosed => event@ is QueueClosed,
            SessionEvent::WaitOver => event@ is WaitOver,
            SessionEvent::WaitCancelled => event@ is WaitCancelled,
        },
{
}

/// What is said of a reaction is said of what it carries.
pub proof fn reaction_shows_its_fields(reaction: Reaction)
    ensures
        match reaction {
            Reaction::Poll => reaction@ is Poll,
            Reaction::Announce { reconnect, server_uri, topics, qos } => reaction@ == (
            ReactionView::Announce {
                reconnect,
                server_uri: server_uri@,
                topics: texts(topics@),
                qos,
            }),
            Reaction::Enqueue(message) => reaction@ == ReactionView::Enqueue(message@),
            Reaction::Wait { lost: Some(cause), secs } => reaction@ == (ReactionView::Wait {
                lost: Some(cause@),
                secs: secs as nat,
            }),
            Reaction::Wait { lost: None, secs } => reaction@ == (ReactionView::Wait {
                lost: None,
                secs: secs as nat,
            }),
            Reaction::Stop => reaction@ is Stop,
        },
{
}

/// The address that is told is the host of the settings, a colon, and the port of the settings in
/// decimal.
pub proof fn address_is_host_and_port(config: ConfigView)
    ensures
        ({
            let uri = server_uri_of(config);
            let n = config.host.len() as int;
            &&& n < uri.len()
            &&& uri.take(n) == config.host
            &&& uri[n] == ':'
            &&& number_written(uri.skip(n + 1)) == config.port
            &&& uri.skip(n + 1) == decimal(config.port)
        }),
{
    reveal_strlit(":");
    let uri = server_uri_of(config);
    let n = config.host.len() as int;
    decimal_writes_the_number(config.port);
    assert(uri.take(n) =~= config.host);
    assert(uri.skip(n + 1) =~= decimal(config.port));
}

/// The wait after a failure ends in another attempt: the event loop is polled again, whatever has
/// happened before and whatever the settings are, and nothing else changes.
pub proof fn end_of_wait_is_another_attempt(session: SessionView, connected: bool)
    requires
        !session.stopped,
    ensures
        reaction(session, connected, EventView::WaitOver) is Poll,
        next_session(session, EventView::WaitOver) == session,
        next_connected(session, connected, EventView::WaitOver) == connected,
{
}

/// Every failure is followed by one wait, of the seconds in the settings, and that by another attempt
/// to connect, for as long as the session has not been stopped; and the failure itself stops nothing.
pub proof fn failure_leads_to_another_attempt(
    session: SessionView,
    connected: bool,
    cause: Seq<char>,
)
    requires
        !session.stopped,
    ensures
        ({
            let failed = EventView::Failed { cause };
            let after = next_session(session, failed);
            let connected_after = next_connected(session, connected, failed);
            &&& reaction(session, connected, failed) matches ReactionView::Wait { secs, .. } && secs
                == session.config.reconnect_interval_secs
            &&& after == session
            &&& !connected_after
            &&& reaction(after, connected_after, EventView::WaitOver) is Poll
        }),
{
}

/// The application is told of a failure exactly where the client counted as connected, and then with
/// the cause of that very failure, whatever the settings are; the client does not count as connected
/// afterwards.
pub proof fn loss_is_told_where_connected(session: SessionView, connected: bool, cause: Seq<char>)
    requires
        !session.stopped,
    ensures
        ({
            let failed = EventView::Failed { cause };
            let reaction = reaction(session, connected, failed);
            &&& reaction matches ReactionView::Wait { lost, .. } && lost == if connected {
                Some(cause)
            } else {
                None
            }
            &&& connected ==> (told(reaction) matches Some(call) && call.method
                == "connectionLost"@ && call.args == seq![JavaArgView::Text(cause)])
            &&& !connected ==> told(reaction) is None
            &&& !next_connected(session, connected, failed)
        }),
{
}

/// When the broker accepts a connection, the application is told whether there was one before and the
/// address of the session, every topic of the settings is subscribed to with their level, and the
/// client counts as connected.
pub proof fn accepted_connection_is_announced(session: SessionView, connected: bool)
    requires
        !session.stopped,
    ensures
        ({
            let reaction = reaction(session, connected, EventView::ConnAck);
            &&& reaction matches ReactionView::Announce { topics, qos, .. } && topics
                == session.config.topics && qos == session.config.qos
            &&& told(reaction) matches Some(call) && call.method == "connectComplete"@ && call.args
                == seq![
                JavaArgView::Bool(session.was_ever_connected),
                JavaArgView::Text(session.server_uri),
            ]
            &&& next_session(session, EventView::ConnAck).was_ever_connected
            &&& next_connected(session, connected, EventView::ConnAck)
            &&& !next_session(session, EventView::ConnAck).stopped
        }),
{
}

/// A message that comes is to be queued with its own topic and the text of its own payload, and
/// nothing else changes.
pub proof fn message_is_queued_as_it_came(
    session: SessionView,
    connected: bool,
    topic: Seq<char>,
    payload: Seq<u8>,
)
    requires
        !session.stopped,
    ensures
        ({
            let event = EventView::Publish { topic, payload };
            &&& reaction(session, connected, event) matches ReactionView::Enqueue(message)
                && message.topic == topic && message.payload == text_of(payload)
            &&& next_session(session, event) == session
            &&& next_connected(session, connected, event) == connected
        }),
{
}

/// After anything else the next event is waited for, and nothing changes: after a message has been
/// queued, and after what the connection reports besides.
pub proof fn other_events_change_nothing(session: SessionView, connected: bool, event: EventView)
    requires
        !session.stopped,
        event is Queued || event is Other || event is WaitOver,
    ensures
        reaction(session, connected, event) is Poll,
        told(reaction(session, connected, event)) is None,
        next_session(session, event) == session,
        next_connected(session, connected, event) == connected,
{
}

/// A session is stopped by being cancelled, while it polls or while it waits, and by a closed queue,
/// and by nothing else; whether the client counts as connected stays as it is.
pub proof fn only_these_events_stop(session: SessionView, connected: bool, event: EventView)
    requires
        !session.stopped,
    ensures
        ({
            let stops = event is Cancelled || event is WaitCancelled || event is QueueClosed;
            &&& reaction(session, connected, event) is Stop <==> stops
            &&& next_session(session, event).stopped <==> stops
            &&& stops ==> next_connected(session, connected, event) == connected
            &&& stops ==> told(reaction(session, connected, event)) is None
        }),
{
}

/// An event leaves the settings and the address of a session as they are, and that there was a
/// connection is never forgotten nor made up.
pub proof fn session_keeps_its_settings(session: SessionView, event: EventView)
    ensures
        next_session(session, event).config == session.config,
        next_session(session, event).server_uri == session.server_uri,
        session.was_ever_connected ==> next_session(session, event).was_ever_connected,
        !(event is ConnAck) ==> next_session(session, event).was_ever_connected
            == session.was_ever_connected,
        session.stopped ==> next_session(session, event).stopped,
{
}

/// A new session has the settings and the address that it was made for, and neither a connection nor
/// an end behind it.
pub proof fn new_session_has_no_past(config: ConfigView)
    ensures
        fresh(config).config == config,
        fresh(config).server_uri == server_uri_of(config),
        !fresh(config).was_ever_connected,
        !fresh(config).stopped,
{
}

/// Each time the broker accepts a connection the application gets `connectComplete`, with `false` the
/// first time and `true` each later time, and with host and port of the settings.
pub proof fn each_connection_is_told(config: ConfigView, events: Seq<EventView>, n: int)
    requires
        0 <= n < events.len(),
        events[n] is ConnAck,
        forall|i: int| 0 <= i < n ==> !is_stopping(#[trigger] events[i]),
    ensures
        told(reaction_at(fresh(config), events, n)) matches Some(call) && call.method
            == "connectComplete"@ && call.args == seq![
            JavaArgView::Bool(
                exists|i: int| 0 <= i < n && #[trigger] events[i] is ConnAck,
            ),
            JavaArgView::Text(config.host + ":"@ + decimal(config.port)),
        ],
{
    session_remembers(config, events, n);
    let before = exists|i: int| 0 <= i < n && #[trigger] events[i] is ConnAck;
    if session_after(fresh(config), events.take(n)).was_ever_connected {
        let i = choose|i: int|
            0 <= i < n && #[trigger] reaction_at(fresh(config), events, i) is Announce;
        session_remembers(config, events, i);
        assert(events[i] is ConnAck);
    } else if before {
        let i = choose|i: int| 0 <= i < n && #[trigger] events[i] is ConnAck;
        session_remembers(config, events, i);
        assert(reaction_at(fresh(config), events, i) is Announce);
    }
}

/// A failure is told with `connectionLost` and its cause exactly where the broker has accepted a
/// connection before and nothing has failed since; otherwise nothing is told.
pub proof fn each_loss_is_told(config: ConfigView, events: Seq<EventView>, n: int, cause: Seq<char>)
    requires
        0 <= n < events.len(),
        events[n] == (EventView::Failed { cause }),
        forall|i: int| 0 <= i < n ==> !is_stopping(#[trigger] events[i]),
    ensures
        ({
            let was_connected = exists|i: int|
                0 <= i < n && #[trigger] events[i] is ConnAck && forall|j: int|
                    i < j < n ==> !(#[trigger] events[j] is Failed);
            match told(reaction_at(fresh(config), events, n)) {
                Some(call) => was_connected && call.method == "connectionLost"@ && call.args
                    == seq![JavaArgView::Text(cause)],
                None => !was_connected,
            }
        }),
{
    let past = events.take(n);
    session_remembers(config, events, n);
    assert forall|i: int| 0 <= i < past.len() implies !is_stopping(#[trigger] past[i]) by {
        assert(past[i] == events[i]);
    }
    connected_until_failure(config, past);
    if connected_after(fresh(config), past) {
        let i = choose|i: int|
            0 <= i < past.len() && #[trigger] past[i] is ConnAck && forall|j: int|
                i < j < past.len() ==> !(#[trigger] past[j] is Failed);
        assert(events[i] is ConnAck);
        assert forall|j: int| i < j < n implies !(#[trigger] events[j] is Failed) by {
            assert(!(past[j] is Failed));
        }
    }
    if exists|i: int|
        0 <= i < n && #[trigger] events[i] is ConnAck && forall|j: int|
            i < j < n ==> !(#[trigger] events[j] is Failed) {
        let i = choose|i: int|
            0 <= i < n && #[trigger] events[i] is ConnAck && forall|j: int|
                i < j < n ==> !(#[trigger] events[j] is Failed);
        assert(past[i] is ConnAck);
        assert forall|j: int| i < j < past.len() implies !(#[trigger] past[j] is Failed) by {
            assert(!(events[j] is Failed));
        }
    }
}

/// After every failure the next thing to be done, once the wait is over, is another attempt to connect,
/// however often that has happened before.
pub proof fn connection_is_tried_for_ever(config: ConfigView, events: Seq<EventView>, n: int)
    requires
        0 <= n,
        n + 1 < events.len(),
        events[n] is Failed,
        events[n + 1] is WaitOver,
        forall|i: int| 0 <= i < n ==> !is_stopping(#[trigger] events[i]),
    ensures
        reaction_at(fresh(config), events, n) matches ReactionView::Wait { secs, .. } && secs
            == config.reconnect_interval_secs,
        reaction_at(fresh(config), events, n + 1) is Poll,
{
    session_remembers(config, events, n);
    one_more_event(fresh(config), events, n);
}

} // verus!
