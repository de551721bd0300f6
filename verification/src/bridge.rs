//! Reading what the application passes across the language border.

use std::sync::Arc;

use jni::objects::{JObject, JObjectArray};
use jni::JNIEnv;
use vstd::prelude::*;
use vstd::string::*;

use crate::callbacks::{CallbackError, CallbackManager, Notice, ERR_INVALID_PARAMS};
use crate::client::{NativeMqttCore, Publisher, Started, Unpublished};
use crate::config::{ConnectParams, MqttConfig, QoS};
use crate::jvm::{
    array_as_object, bytes_as_object, convert_byte_array, get_array_length,
    get_object_array_element, get_string, is_null, ByteArray,
};
use crate::queues::Queued;

verus! {

use crate::callbacks::{callback_refused, delivered};
use crate::calls::on_error_call;
use crate::client::{publish_answered, with_callbacks, with_queues};
use crate::config::{
    config_of, missing_params_message, params_suffice, passed_values_are_taken_over, qos_of,
    refusal_is_for_empty_names, texts, ParamsView,
};
use crate::jvm::{
    exchanges, java_array, java_bytes, java_object, java_text, machine, Exchange,
};
use crate::queues::{
    message_room, message_source, publish_room, publish_source, queue_can_hold, RequestView,
    PUBLISH_QUEUE_CAPACITY,
};

/// Can this text have been read from a Java string? It is the string's own, or empty where there is
/// no string or reading it failed.
pub open spec fn read_as(object: JObject<'_>, text: Seq<char>) -> bool {
    text.len() == 0 || (java_object(object) is Some && text == java_text(object))
}

/// A text that was read, or the empty one where it was not.
pub fn text_or_empty(read: Option<String>) -> (r: String)
    ensures
        match read {
            Some(text) => r@ == text@,
            None => r@.len() == 0,
        },
{
    match read {
        Some(text) => text,
        None => String::new(),
    }
}

/// Bytes that were read, or no bytes where they were not.
pub fn bytes_or_empty(read: Option<Vec<u8>>) -> (r: Vec<u8>)
    ensures
        match read {
            Some(bytes) => r@ == bytes@,
            None => r@.len() == 0,
        },
{
    match read {
        Some(bytes) => bytes,
        None => Vec::new(),
    }
}

/// Is this text not empty?
pub open spec fn non_empty(text: Seq<char>) -> bool {
    text.len() > 0
}

/// The texts that are not empty, in order.
pub fn drop_empty(strings: Vec<String>) -> (r: Vec<String>)
    ensures
        texts(r@) == texts(strings@).filter(|text: Seq<char>| non_empty(text)),
{
    let ghost keep = |text: Seq<char>| non_empty(text);
    let mut kept: Vec<String> = Vec::new();
    let mut i: usize = 0;
    while i < strings.len()
        invariant
            i <= strings@.len(),
            keep == (|text: Seq<char>| non_empty(text)),
            texts(kept@) == texts(strings@).take(i as int).filter(keep),
        decreases strings@.len() - i,
    {
        let ghost before = texts(strings@).take(i as int);
        let ghost kept_before = kept@;
        proof {
            assert(texts(strings@).take(i + 1) =~= before.push(strings@[i as int]@));
            assert(before.push(strings@[i as int]@).drop_last() =~= before);
            reveal(Seq::filter);
        }
        if !strings[i].as_str().is_empty() {
            let text = strings[i].clone();
            kept.push(text);
            assert(texts(kept@) =~= texts(kept_before).push(strings@[i as int]@));
        }
        i = i + 1;
    }
    assert(texts(strings@).take(i as int) =~= texts(strings@));
    kept
}

/// The text that an answer stands for: empty where there was none.
pub open spec fn answered_text(answer: Option<Seq<char>>) -> Seq<char> {
    match answer {
        Some(text) => text,
        None => Seq::empty(),
    }
}

/// The bytes that an answer stands for: none where there was none.
pub open spec fn answered_bytes(answer: Option<Seq<u8>>) -> Seq<u8> {
    match answer {
        Some(bytes) => bytes,
        None => Seq::empty(),
    }
}

/// Is this how a Java string was read? It was asked for once, or not at all where there is none.
pub open spec fn string_read(
    before: Seq<Exchange>,
    after: Seq<Exchange>,
    object: JObject<'_>,
    text: Seq<char>,
) -> bool {
    &&& read_as(object, text)
    &&& match java_object(object) {
        None => text.len() == 0 && after == before,
        Some(_) => exists|answer: Option<Seq<char>>|
            text == #[trigger] answered_text(answer) && (answer matches Some(read) ==> read
                == java_text(object)) && after == before.push(
                Exchange::ReadString { string: java_object(object), text: answer },
            ),
    }
}

/// Reads a Java string. A null reference, and one that cannot be read, gives the empty text. The
/// virtual machine is asked for the string once, and not at all for a null reference.
pub fn safe_get_string(env: &mut JNIEnv<'_>, jstr: &JObject<'_>) -> (r: String)
    ensures
        string_read(exchanges(*old(env)), exchanges(*final(env)), *jstr, r@),
        machine(*final(env)) == machine(*old(env)),
        java_object(*jstr) is None ==> *final(env) == *old(env),
{
    if is_null(jstr) {
        return String::new();
    }
    let read = match get_string(env, jstr) {
        Ok(text) => Some(text),
        Err(_) => None,
    };
    let ghost answer = match &read {
        Some(text) => Some(text@),
        None => None,
    };
    let text = text_or_empty(read);
    assert(text@ =~= answered_text(answer));
    text
}

/// Is this how a Java `byte[]` was read? It was asked for once, or not at all where there is none.
pub open spec fn bytes_read(
    before: Seq<Exchange>,
    after: Seq<Exchange>,
    array: ByteArray<'_>,
    bytes: Seq<u8>,
) -> bool {
    match java_bytes(array) {
        None => bytes.len() == 0 && after == before,
        Some(_) => exists|answer: Option<Seq<u8>>|
            bytes == #[trigger] answered_bytes(answer) && after == before.push(
                Exchange::CopyBytes { array: java_bytes(array), bytes: answer },
            ),
    }
}

/// Reads a Java `byte[]`. A null reference, and an array that cannot be read, gives no bytes. The
/// virtual machine is asked for the array once, and not at all for a null reference.
pub fn safe_get_byte_array(env: &mut JNIEnv<'_>, arr: &ByteArray<'_>) -> (r: Vec<u8>)
    ensures
        bytes_read(exchanges(*old(env)), exchanges(*final(env)), *arr, r@),
        machine(*final(env)) == machine(*old(env)),
        java_bytes(*arr) is None ==> *final(env) == *old(env),
{
    if is_null(bytes_as_object(arr)) {
        return Vec::new();
    }
    let read = match convert_byte_array(env, arr) {
        Ok(bytes) => Some(bytes),
        Err(_) => None,
    };
    let ghost answer = match &read {
        Some(bytes) => Some(bytes@),
        None => None,
    };
    let bytes = bytes_or_empty(read);
    assert(bytes@ =~= answered_bytes(answer));
    bytes
}

/// What came of one place of a Java `String[]`.
pub enum Place {
    /// There was no answer for the place.
    Refused,
    /// It holds no string.
    Empty,
    /// It holds a string, whose text was asked for.
    Holds { string: int, answer: Option<Seq<char>> },
}

/// The text of a place: empty where none was read.
pub open spec fn place_text(place: Place) -> Seq<char> {
    match place {
        Place::Holds { answer, .. } => answered_text(answer),
        _ => Seq::empty(),
    }
}

/// What the virtual machine is asked at place `index`.
pub open spec fn place_exchanges(array: Option<int>, index: int, place: Place) -> Seq<Exchange> {
    match place {
        Place::Refused => seq![Exchange::ArrayElement { array, index, element: None }],
        Place::Empty => seq![Exchange::ArrayElement { array, index, element: Some(None) }],
        Place::Holds { string, answer } => seq![
            Exchange::ArrayElement { array, index, element: Some(Some(string)) },
            Exchange::ReadString { string: Some(string), text: answer },
        ],
    }
}

/// What the virtual machine is asked at the first places of an array, one after another.
pub open spec fn places_exchanges(array: Option<int>, places: Seq<Place>) -> Seq<Exchange>
    decreases places.len(),
{
    if places.len() == 0 {
        Seq::empty()
    } else {
        places_exchanges(array, places.drop_last()) + place_exchanges(
            array,
            places.len() - 1,
            places.last(),
        )
    }
}

/// The texts of some places that are not empty, in order.
pub open spec fn places_texts(places: Seq<Place>) -> Seq<Seq<char>> {
    places.map_values(|place: Place| place_text(place)).filter(|text: Seq<char>| non_empty(text))
}

/// How many places are asked for: as many as the array has, and none where its length is unknown.
pub open spec fn places_to_ask(answer: Option<int>) -> nat {
    match answer {
        Some(length) => if length > 0 {
            length as nat
        } else {
            0
        },
        None => 0,
    }
}

/// Is this how a Java `String[]` was read? Its length was asked for first, and then each place of it
/// in order.
pub open spec fn array_asked(
    before: Seq<Exchange>,
    after: Seq<Exchange>,
    array: Option<int>,
    length: Option<int>,
    places: Seq<Place>,
) -> bool {
    &&& places.len() == places_to_ask(length)
    &&& after == before.push(Exchange::ArrayLength { array, length }) + places_exchanges(
        array,
        places,
    )
}

/// Is this how a Java `String[]` was read? Nothing was asked where there is none.
pub open spec fn strings_read(
    before: Seq<Exchange>,
    after: Seq<Exchange>,
    array: JObjectArray<'_>,
    read: Seq<Seq<char>>,
) -> bool {
    &&& match java_array(array) {
        None => read.len() == 0 && after == before,
        Some(_) => exists|length: Option<int>, places: Seq<Place>| #[trigger]
            array_asked(before, after, java_array(array), length, places) && read == places_texts(
                places,
            ),
    }
    &&& forall|i: int| 0 <= i < read.len() ==> non_empty(#[trigger] read[i])
}

/// Reads a Java `String[]`. Elements that are null, empty or cannot be read are left out; a null
/// reference, and an array that cannot be read, gives no texts.
pub fn safe_get_string_array(env: &mut JNIEnv<'_>, arr: &JObjectArray<'_>) -> (r: Vec<String>)
    ensures
        strings_read(exchanges(*old(env)), exchanges(*final(env)), *arr, texts(r@)),
        machine(*final(env)) == machine(*old(env)),
        java_array(*arr) is None ==> *final(env) == *old(env),
{
    if is_null(array_as_object(arr)) {
        return Vec::new();
    }
    let ghost array = java_array(*arr);
    let ghost text_at = |place: Place| place_text(place);
    let known = get_array_length(env, arr);
    let ghost answer = match known {
        Ok(length) => Some(length as int),
        Err(_) => None,
    };
    let ghost asked = exchanges(*env);
    let len: i32 = match known {
        Ok(len) => len,
        Err(_) => 0,
    };
    let mut read: Vec<String> = Vec::new();
    let ghost mut places: Seq<Place> = Seq::empty();
    let mut i: i32 = 0;
    proof {
        assert(asked + places_exchanges(array, places) =~= asked);
        assert(texts(read@) =~= places.map_values(text_at));
    }
    while i < len
        invariant
            0 <= i,
            i <= len || i == 0,
            array == java_array(*arr),
            text_at == (|place: Place| place_text(place)),
            machine(*env) == machine(*old(env)),
            places.len() == i,
            exchanges(*env) == asked + places_exchanges(array, places),
            texts(read@) == places.map_values(text_at),
        decreases len - i,
    {
        let ghost start = exchanges(*env);
        let element = get_object_array_element(env, arr, i);
        let ghost place: Place;
        let text = match element {
            Ok(element) => {
                let text = safe_get_string(env, &element);
                proof {
                    match java_object(element) {
                        None => {
                            place = Place::Empty;
                        },
                        Some(string) => {
                            let last = exchanges(*env).last();
                            place = Place::Holds { string, answer: last->text };
                        },
                    }
                    assert(text@ =~= place_text(place));
                }
                text
            },
            Err(_) => {
                proof {
                    place = Place::Refused;
                }
                let text = String::new();
                assert(text@ =~= place_text(place));
                text
            },
        };
        proof {
            assert(exchanges(*env) =~= start + place_exchanges(array, i as int, place));
            let more = places.push(place);
            assert(more.drop_last() =~= places);
            assert(exchanges(*env) =~= asked + places_exchanges(array, more));
            assert(more.map_values(text_at) =~= places.map_values(text_at).push(text@));
            assert(texts(read@.push(text)) =~= texts(read@).push(text@));
            places = more;
        }
        read.push(text);
        i = i + 1;
    }
    let ghost all = texts(read@);
    let kept = drop_empty(read);
    proof {
        assert forall|i: int| 0 <= i < kept@.len() implies non_empty(
            #[trigger] texts(kept@)[i],
        ) by {
            all.lemma_filter_pred(|text: Seq<char>| non_empty(text), i);
        }
        assert(array_asked(
            exchanges(*old(env)),
            exchanges(*env),
            array,
            answer,
            places,
        ));
    }
    kept
}

/// What the application passes when it asks for a connection.
pub struct ConnectArgs<'call, 'local> {
    pub host: &'call JObject<'local>,
    pub port: i32,
    pub client_id: &'call JObject<'local>,
    pub username: &'call JObject<'local>,
    pub password: &'call JObject<'local>,
    pub qos: i32,
    pub keep_alive_secs: i32,
    pub reconnect_interval_secs: i32,
    pub message_buffer_size: i32,
    pub clean_session: bool,
    pub connection_timeout_secs: i32,
    pub topics: &'call JObjectArray<'local>,
}

/// Were these values read from what the application passed, with these exchanges after each text? The
/// host is read first, then the client's name, the user, the password, and at last the topics.
pub open spec fn params_read_through(
    before: Seq<Exchange>,
    host: Seq<Exchange>,
    client_id: Seq<Exchange>,
    username: Seq<Exchange>,
    password: Seq<Exchange>,
    after: Seq<Exchange>,
    params: ParamsView,
    args: ConnectArgs<'_, '_>,
) -> bool {
    &&& string_read(before, host, *args.host, params.host)
    &&& string_read(host, client_id, *args.client_id, params.client_id)
    &&& string_read(client_id, username, *args.username, params.username)
    &&& string_read(username, password, *args.password, params.password)
    &&& strings_read(password, after, *args.topics, params.topics)
}

/// Were these values read from what the application passed?
pub open spec fn params_read(
    before: Seq<Exchange>,
    after: Seq<Exchange>,
    params: ParamsView,
    args: ConnectArgs<'_, '_>,
) -> bool {
    &&& params.port == args.port
    &&& params.qos == args.qos
    &&& params.keep_alive_secs == args.keep_alive_secs
    &&& params.reconnect_interval_secs == args.reconnect_interval_secs
    &&& params.message_buffer_size == args.message_buffer_size
    &&& params.clean_session == args.clean_session
    &&& params.connection_timeout_secs == args.connection_timeout_secs
    &&& exists|
        host: Seq<Exchange>,
        client_id: Seq<Exchange>,
        username: Seq<Exchange>,
        password: Seq<Exchange>,
    | #[trigger]
        params_read_through(before, host, client_id, username, password, after, params, args)
}

/// Reads what the application passes when it asks for a connection.
pub fn read_params(env: &mut JNIEnv<'_>, args: &ConnectArgs<'_, '_>) -> (r: ConnectParams)
    ensures
        params_read(exchanges(*old(env)), exchanges(*final(env)), r@, *args),
        machine(*final(env)) == machine(*old(env)),
{
    let ghost before = exchanges(*env);
    let host = safe_get_string(env, args.host);
    let ghost host_read = exchanges(*env);
    let client_id = safe_get_string(env, args.client_id);
    let ghost client_id_read = exchanges(*env);
    let username = safe_get_string(env, args.username);
    let ghost username_read = exchanges(*env);
    let password = safe_get_string(env, args.password);
    let ghost password_read = exchanges(*env);
    let topics = safe_get_string_array(env, args.topics);
    let params = ConnectParams {
        host,
        port: args.port,
        client_id,
        username,
        password,
        qos: args.qos,
        keep_alive_secs: args.keep_alive_secs,
        reconnect_interval_secs: args.reconnect_interval_secs,
        message_buffer_size: args.message_buffer_size,
        clean_session: args.clean_session,
        connection_timeout_secs: args.connection_timeout_secs,
        topics,
    };
    assert(params_read_through(
        before,
        host_read,
        client_id_read,
        username_read,
        password_read,
        exchanges(*env),
        params@,
        *args,
    ));
    params
}

/// What becomes of a request for a connection.
pub enum ConnectRequest {
    /// The application's callback object could not be taken into keeping. There is nobody to tell.
    Unheard(CallbackError),
    /// The settings are not enough to connect with, and the application has been told so.
    Rejected {
        /// What told the application.
        callbacks: CallbackManager,
        /// What was reported.
        message: String,
        /// What became of the report.
        notice: Notice,
    },
    /// The connection can be started.
    Ready {
        /// What notifies the application.
        callbacks: CallbackManager,
        /// The settings.
        config: MqttConfig,
    },
}

/// Is this what becomes of a request for a connection with these values, once the callback object
/// is in keeping?
pub open spec fn answered(request: ConnectRequest, params: ParamsView) -> bool {
    match request {
        ConnectRequest::Unheard(_) => false,
        ConnectRequest::Rejected { callbacks, message, notice } => {
            &&& !params_suffice(params)
            &&& message@ == missing_params_message(params)
            &&& delivered(
                notice,
                on_error_call(ERR_INVALID_PARAMS as int, message@),
                callbacks,
            )
        },
        ConnectRequest::Ready { config, .. } => {
            &&& params_suffice(params)
            &&& config@ == config_of(params)
        },
    }
}

/// What notifies the application after a request for a connection, where anything does.
pub open spec fn notifier(request: ConnectRequest) -> Option<CallbackManager> {
    match request {
        ConnectRequest::Unheard(_) => None,
        ConnectRequest::Rejected { callbacks, .. } => Some(callbacks),
        ConnectRequest::Ready { callbacks, .. } => Some(callbacks),
    }
}

/// Decides about the values of a request for a connection. Where they are not enough, the
/// application is told.
pub fn answer_connect(callbacks: CallbackManager, params: ConnectParams) -> (r: ConnectRequest)
    ensures
        answered(r, params@),
        notifier(r) == Some(callbacks),
{
    match MqttConfig::from_params(params) {
        Ok(config) => ConnectRequest::Ready { callbacks, config },
        Err(message) => {
            let notice = callbacks.on_error(ERR_INVALID_PARAMS, message.as_str());
            ConnectRequest::Rejected { callbacks, message, notice }
        },
    }
}

/// Receives a request for a connection. The application's values are read only where the callback
/// object could be taken into keeping.
pub fn receive_connect(
    env: &mut JNIEnv<'_>,
    args: &ConnectArgs<'_, '_>,
    callback_obj: JObject<'_>,
) -> (r: ConnectRequest)
    ensures
        machine(*final(env)) == machine(*old(env)),
        java_object(callback_obj) is None ==> r is Unheard,
        r matches ConnectRequest::Unheard(error) ==> callback_refused(
            error,
            machine(*old(env)),
            java_object(callback_obj),
        ) && *final(env) == *old(env),
        notifier(r) matches Some(callbacks) ==> {
            &&& callbacks.held()
            &&& callbacks.object() == java_object(callback_obj)
            &&& callbacks.java_vm() == machine(*old(env))
            &&& exists|params: ParamsView| #[trigger]
                params_read(exchanges(*old(env)), exchanges(*final(env)), params, *args)
                    && answered(r, params)
        },
{
    match CallbackManager::new(env, callback_obj) {
        Err(error) => ConnectRequest::Unheard(error),
        Ok(callbacks) => {
            let params = read_params(env, args);
            answer_connect(callbacks, params)
        },
    }
}

/// Starts a connection: the client notifies the application through `callbacks` from now on.
pub fn start_connection(
    core: &mut NativeMqttCore,
    callbacks: CallbackManager,
    config: MqttConfig,
) -> (r: Started)
    requires
        queue_can_hold(config@.message_buffer_size),
    ensures
        r.config@ == config@,
        *r.callbacks == callbacks,
        message_room(r.msg_tx) == config@.message_buffer_size,
        message_source(r.msg_rx) == r.msg_tx,
        publish_room(publish_source(r.publish_rx)) == PUBLISH_QUEUE_CAPACITY,
        final(core)@ == with_queues(
            with_callbacks(old(core)@, r.callbacks),
            r.msg_tx,
            publish_source(r.publish_rx),
        ),
{
    core.set_callbacks(Arc::new(callbacks));
    core.connect(config).unwrap()
}

/// Hands on a request to publish a message. One without a topic is ignored.
pub fn publish_request(publisher: &Publisher, topic: String, payload: Vec<u8>, qos: i32) -> (r:
    Option<Result<Queued, Unpublished>>)
    ensures
        r is None <==> topic@.len() == 0,
        r matches Some(answer) ==> publish_answered(
            answer,
            publisher.publish_tx,
            publisher.callbacks,
            (RequestView { topic: topic@, payload: payload@, qos: qos_of(qos as int) }),
        ),
{
    if topic.as_str().is_empty() {
        return None;
    }
    Some(publisher.publish(topic, payload, QoS::from_code(qos)))
}

/// Were the topic and the content of a message read from what the application passed, and is this the
/// answer? The topic is read first.
pub open spec fn publish_received(
    before: Seq<Exchange>,
    between: Seq<Exchange>,
    after: Seq<Exchange>,
    topic: JObject<'_>,
    payload: ByteArray<'_>,
    request: RequestView,
) -> bool {
    &&& string_read(before, between, topic, request.topic)
    &&& bytes_read(between, after, payload, request.payload)
}

/// Receives a request to publish a message. One whose topic is empty, or cannot be read, is ignored.
pub fn receive_publish(
    env: &mut JNIEnv<'_>,
    publisher: &Publisher,
    topic: &JObject<'_>,
    payload: &ByteArray<'_>,
    qos: i32,
) -> (r: Option<Result<Queued, Unpublished>>)
    ensures
        machine(*final(env)) == machine(*old(env)),
        exists|between: Seq<Exchange>, request: RequestView|
            #[trigger] publish_received(
                exchanges(*old(env)),
                between,
                exchanges(*final(env)),
                *topic,
                *payload,
                request,
            ) && request.qos == qos_of(qos as int) && (r is None <==> request.topic.len() == 0) && (
            r matches Some(answer) ==> publish_answered(
                answer,
                publisher.publish_tx,
                publisher.callbacks,
                request,
            )),
{
    let text = safe_get_string(env, topic);
    let ghost between = exchanges(*env);
    let bytes = safe_get_byte_array(env, payload);
    let ghost request = RequestView {
        topic: text@,
        payload: bytes@,
        qos: qos_of(qos as int),
    };
    let answer = publish_request(publisher, text, bytes, qos);
    assert(publish_received(
        exchanges(*old(env)),
        between,
        exchanges(*env),
        *topic,
        *payload,
        request,
    ));
    answer
}

/// A Java string that was read was asked for once, and its text is the answer, which is the string's
/// own; without an answer it is empty. Where there is no string nothing is asked, and the text is
/// empty.
pub proof fn string_is_the_answer(
    before: Seq<Exchange>,
    after: Seq<Exchange>,
    object: JObject<'_>,
    text: Seq<char>,
)
    requires
        string_read(before, after, object, text),
    ensures
        java_object(object) is None ==> text.len() == 0 && after == before,
        java_object(object) is Some ==> {
            &&& after.len() == before.len() + 1
            &&& after.drop_last() == before
            &&& after.last() matches Exchange::ReadString { string, text: answer } && string
                == java_object(object) && match answer {
                Some(read) => text == read && read == java_text(object),
                None => text.len() == 0,
            }
        },
{
    if java_object(object) is Some {
        let answer = choose|answer: Option<Seq<char>>|
            text == #[trigger] answered_text(answer) && (answer matches Some(read) ==> read
                == java_text(object)) && after == before.push(
                Exchange::ReadString { string: java_object(object), text: answer },
            );
        assert(after.drop_last() =~= before);
    }
}

/// A Java `byte[]` that was read was asked for once, and its bytes are the answer; without an answer
/// there are none. Where there is no array nothing is asked, and there are no bytes.
pub proof fn bytes_are_the_answer(
    before: Seq<Exchange>,
    after: Seq<Exchange>,
    array: ByteArray<'_>,
    bytes: Seq<u8>,
)
    requires
        bytes_read(before, after, array, bytes),
    ensures
        java_bytes(array) is None ==> bytes.len() == 0 && after == before,
        java_bytes(array) is Some ==> {
            &&& after.len() == before.len() + 1
            &&& after.drop_last() == before
            &&& after.last() matches Exchange::CopyBytes { array: asked, bytes: answer } && asked
                == java_bytes(array) && match answer {
                Some(read) => bytes == read,
                None => bytes.len() == 0,
            }
        },
{
    if java_bytes(array) is Some {
        let answer = choose|answer: Option<Seq<u8>>|
            bytes == #[trigger] answered_bytes(answer) && after == before.push(
                Exchange::CopyBytes { array: java_bytes(array), bytes: answer },
            );
        assert(after.drop_last() =~= before);
    }
}

/// One more place of an array adds its text, if that was read and is not empty, after the others; and
/// what is asked about it comes after what is asked about the others: the element at that place, and
/// then its text, where it holds a string.
pub proof fn places_are_read_one_by_one(array: Option<int>, places: Seq<Place>, place: Place)
    ensures
        places_texts(Seq::empty()) == Seq::<Seq<char>>::empty(),
        places_exchanges(array, Seq::empty()) == Seq::<Exchange>::empty(),
        places_texts(places.push(place)) == match place {
            Place::Holds { answer: Some(text), .. } => if text.len() > 0 {
                places_texts(places).push(text)
            } else {
                places_texts(places)
            },
            _ => places_texts(places),
        },
        places_exchanges(array, places.push(place)) == ({
            let before = places_exchanges(array, places);
            let index = places.len() as int;
            match place {
                Place::Refused => before.push(
                    Exchange::ArrayElement { array, index, element: None },
                ),
                Place::Empty => before.push(
                    Exchange::ArrayElement { array, index, element: Some(None) },
                ),
                Place::Holds { string, answer } => before.push(
                    Exchange::ArrayElement { array, index, element: Some(Some(string)) },
                ).push(Exchange::ReadString { string: Some(string), text: answer }),
            }
        }),
{
    let text_at = |place: Place| place_text(place);
    let keep = |text: Seq<char>| non_empty(text);
    reveal(Seq::filter);
    assert(Seq::<Place>::empty().map_values(text_at) =~= Seq::<Seq<char>>::empty());
    assert(places.push(place).drop_last() =~= places);
    assert(places.push(place).map_values(text_at) =~= places.map_values(text_at).push(
        place_text(place),
    ));
    assert(places.map_values(text_at).push(place_text(place)).drop_last() =~= places.map_values(
        text_at,
    ));
    match place {
        Place::Holds { string, answer } => {
            assert(places_exchanges(array, places) + place_exchanges(
                array,
                places.len() as int,
                place,
            ) =~= places_exchanges(array, places).push(
                Exchange::ArrayElement {
                    array,
                    index: places.len() as int,
                    element: Some(Some(string)),
                },
            ).push(Exchange::ReadString { string: Some(string), text: answer }));
        },
        _ => {},
    }
}

/// A Java `String[]` that was read was first asked for its length, and then for every place that it
/// has, and for no place where the length was refused; the texts are those of the places. Where there
/// is no array nothing is asked, and there are no texts.
pub proof fn array_is_read_place_by_place(
    before: Seq<Exchange>,
    after: Seq<Exchange>,
    array: JObjectArray<'_>,
    read: Seq<Seq<char>>,
)
    requires
        strings_read(before, after, array, read),
    ensures
        java_array(array) is None ==> read.len() == 0 && after == before,
        java_array(array) is Some ==> exists|length: Option<int>, places: Seq<Place>|
            {
                &&& #[trigger] array_asked(before, after, java_array(array), length, places)
                &&& places.len() == match length {
                    Some(length) => if length > 0 {
                        length
                    } else {
                        0
                    },
                    None => 0,
                }
                &&& after == before.push(
                    (Exchange::ArrayLength { array: java_array(array), length }),
                ) + places_exchanges(java_array(array), places)
                &&& read == places_texts(places)
            },
{
    if java_array(array) is Some {
        let (length, places) = choose|length: Option<int>, places: Seq<Place>| #[trigger]
            array_asked(before, after, java_array(array), length, places) && read == places_texts(
                places,
            );
        assert(array_asked(before, after, java_array(array), length, places));
    }
}

/// The values of a request for a connection are those that the application passed: each number and flag
/// as it is, and each text read from the very string that stands for it, in this order.
pub proof fn params_are_what_was_passed(
    before: Seq<Exchange>,
    after: Seq<Exchange>,
    params: ParamsView,
    args: ConnectArgs<'_, '_>,
)
    requires
        params_read(before, after, params, args),
    ensures
        params.port == args.port,
        params.qos == args.qos,
        params.keep_alive_secs == args.keep_alive_secs,
        params.reconnect_interval_secs == args.reconnect_interval_secs,
        params.message_buffer_size == args.message_buffer_size,
        params.clean_session == args.clean_session,
        params.connection_timeout_secs == args.connection_timeout_secs,
        params.host.len() > 0 ==> params.host == java_text(*args.host),
        params.client_id.len() > 0 ==> params.client_id == java_text(*args.client_id),
        params.username.len() > 0 ==> params.username == java_text(*args.username),
        params.password.len() > 0 ==> params.password == java_text(*args.password),
        exists|a: Seq<Exchange>, b: Seq<Exchange>, c: Seq<Exchange>, d: Seq<Exchange>|
            {
                &&& #[trigger] params_read_through(before, a, b, c, d, after, params, args)
                &&& string_read(before, a, *args.host, params.host)
                &&& string_read(a, b, *args.client_id, params.client_id)
                &&& string_read(b, c, *args.username, params.username)
                &&& string_read(c, d, *args.password, params.password)
                &&& strings_read(d, after, *args.topics, params.topics)
            },
{
    let (a, b, c, d) = choose|
        a: Seq<Exchange>,
        b: Seq<Exchange>,
        c: Seq<Exchange>,
        d: Seq<Exchange>,
    | #[trigger]
        params_read_through(before, a, b, c, d, after, params, args);
    assert(params_read_through(before, a, b, c, d, after, params, args));
    string_is_the_answer(before, a, *args.host, params.host);
    string_is_the_answer(a, b, *args.client_id, params.client_id);
    string_is_the_answer(b, c, *args.username, params.username);
    string_is_the_answer(c, d, *args.password, params.password);
}

/// A request for a connection is refused exactly where the host that is left without a scheme, or the
/// client's name, is empty; the application is then told with code 1. Otherwise the settings are those
/// that the application's values stand for, and the same manager notifies it from then on.
pub proof fn connect_is_started_or_told(request: ConnectRequest, params: ParamsView)
    requires
        answered(request, params),
    ensures
        match request {
            ConnectRequest::Ready { callbacks, config } => {
                &&& config_of(params).host.len() > 0
                &&& params.client_id.len() > 0
                &&& config@ == config_of(params)
                &&& notifier(request) == Some(callbacks)
            },
            ConnectRequest::Rejected { callbacks, message, notice } => {
                &&& config_of(params).host.len() == 0 || params.client_id.len() == 0
                &&& message@ == missing_params_message(params)
                &&& delivered(notice, on_error_call(1, message@), callbacks)
                &&& notifier(request) == Some(callbacks)
            },
            ConnectRequest::Unheard(_) => false,
        },
{
    refusal_is_for_empty_names(params);
    passed_values_are_taken_over(params);
}

/// A message to be published is what the application passed: the topic is read first, from the string
/// that stands for it, and the content after it, from the array that stands for it.
pub proof fn published_message_is_what_was_passed(
    before: Seq<Exchange>,
    between: Seq<Exchange>,
    after: Seq<Exchange>,
    topic: JObject<'_>,
    payload: ByteArray<'_>,
    request: RequestView,
)
    requires
        publish_received(before, between, after, topic, payload, request),
    ensures
        string_read(before, between, topic, request.topic),
        bytes_read(between, after, payload, request.payload),
        request.topic.len() > 0 ==> request.topic == java_text(topic),
{
    string_is_the_answer(before, between, topic, request.topic);
}

} // verus!
