//! Notifying the application.

use std::sync::Arc;

use jni::objects::{GlobalRef, JObject, JValueGen};
use jni::JNIEnv;
use vstd::prelude::*;

use crate::calls::{Delivery, JavaArg, JavaCall, Outcome, Stage};
use crate::jvm::{
    attach_current_thread_as_daemon, bool_value, call_method, exception_clear, get_java_vm,
    global_as_object, int_value, is_null, new_global_ref, new_string, text_value, Refusal, Transcript,
};

verus! {

use crate::calls::{
    connect_complete_call, connection_lost_call, is_text, next_stage,
    notifications_are_well_typed, on_error_call, on_msg_call, stage_after,
    stage_after_reply, stage_from, stage_from_is_ahead, stages_are_in_range,
    strings_are_made_in_order, well_typed, JavaArgView, JavaCallView,
};
use crate::jvm::{
    exchanges, global_object, global_source, java_object, java_text, java_value, machine, Exchange,
    MachineRequest,
};

/// The code of a report of unusable settings: the host or the client's name is empty.
pub const ERR_INVALID_PARAMS: i32 = 1;

/// The code of a report that the client could not be set up.
pub const ERR_INIT_FAILED: i32 = 2;

/// The code of a report that a message was not published.
pub const ERR_PUBLISH_FAILED: i32 = 3;

/// Why no [`CallbackManager`] could be made.
pub enum CallbackError {
    /// The application passed no callback object.
    NoCallback,
    /// The virtual machine could not be reached.
    NoJavaVm(Refusal),
    /// There was no global reference to be had.
    NoGlobalRef(Refusal),
    /// The global reference is null: the virtual machine has no memory for it.
    NullGlobalRef(GlobalRef),
}

/// Is this why no manager was made for a callback object that came through an environment of that
/// virtual machine? Each error but the first rests on what the machine answered when it was asked.
pub open spec fn callback_refused(
    error: CallbackError,
    java_vm: jni::JavaVM,
    object: Option<int>,
) -> bool {
    match error {
        CallbackError::NoCallback => object is None,
        CallbackError::NoJavaVm(refusal) => object is Some && refusal.request() == (
        MachineRequest::GetJavaVm { machine: java_vm }),
        CallbackError::NoGlobalRef(refusal) => object is Some && refusal.request() == (
        MachineRequest::NewGlobalRef { object }),
        CallbackError::NullGlobalRef(global_ref) => object is Some && global_source(global_ref)
            == object && global_object(global_ref) is None,
    }
}

/// Calls the methods of the application's callback object, from whatever thread it is asked on.
pub struct CallbackManager {
    /// The virtual machine, to which a thread is attached before it calls.
    java_vm: Arc<jni::JavaVM>,
    /// The application's callback object, until it is given up.
    global_ref: Option<GlobalRef>,
}

/// What was asked of the virtual machine for a notification.
pub enum Evidence {
    /// The thread was not attached, so nothing else was asked.
    Refused(Refusal),
    /// The thread was attached, and this was asked.
    Asked(Transcript),
}

impl Evidence {
    /// What was asked once the thread was attached.
    pub open spec fn exchanges(self) -> Seq<Exchange> {
        match self {
            Evidence::Refused(_) => Seq::empty(),
            Evidence::Asked(transcript) => transcript.exchanges(),
        }
    }
}

/// What became of a notification.
pub struct Notice {
    /// Its course.
    pub delivery: Delivery,
    /// What was asked of the virtual machine.
    pub evidence: Evidence,
}

/// What is asked at a stage of a delivery after the thread has been attached, and whether it
/// succeeded.
pub open spec fn stage_exchange(
    call: JavaCallView,
    object: Option<int>,
    stage: Stage,
    reply: bool,
) -> Exchange {
    match stage {
        Stage::MakeString(i) => Exchange::MakeString {
            content: match call.args[i as int] {
                JavaArgView::Text(text) => text,
                _ => Seq::empty(),
            },
            made: reply,
        },
        Stage::Invoke => Exchange::CallMethod { object, call, returned: reply },
        _ => Exchange::ClearException { cleared: reply },
    }
}

/// What is asked in a delivery whose steps succeed or not as `replies` say. The first reply is to
/// attaching the thread.
pub open spec fn exchanges_after(
    call: JavaCallView,
    object: Option<int>,
    held: bool,
    replies: Seq<bool>,
) -> Seq<Exchange>
    decreases replies.len(),
{
    if replies.len() <= 1 {
        Seq::empty()
    } else {
        let before = replies.drop_last();
        exchanges_after(call, object, held, before).push(
            stage_exchange(call, object, stage_after(call.args, held, before), replies.last()),
        )
    }
}

/// Did these replies, and no more of them than were needed, take a delivery to `stage` while these
/// exchanges were made?
pub open spec fn carried_out(
    call: JavaCallView,
    object: Option<int>,
    held: bool,
    replies: Seq<bool>,
    stage: Stage,
    exchanges: Seq<Exchange>,
) -> bool {
    &&& replies.len() > 0
    &&& replies[0]
    &&& !(stage_after(call.args, held, replies.drop_last()) is Done)
    &&& stage == stage_after(call.args, held, replies)
    &&& exchanges == exchanges_after(call, object, held, replies)
}

/// Is this what became of `call`? Either the manager's virtual machine refused to attach the thread;
/// or everything that was asked of it, and what it answered, are the steps of a delivery to the
/// manager's object, up to its end.
pub open spec fn delivered(notice: Notice, call: JavaCallView, manager: CallbackManager) -> bool {
    &&& notice.delivery.call() == call
    &&& notice.delivery.held() == manager.held()
    &&& notice.delivery.stage() is Done
    &&& match notice.evidence {
        Evidence::Refused(refusal) => {
            &&& refusal.request() == (MachineRequest::Attach { machine: manager.java_vm() })
            &&& notice.delivery.stage() == Stage::Done(Outcome::NotAttached)
        },
        Evidence::Asked(transcript) => {
            &&& transcript.machine() == manager.java_vm()
            &&& exists|replies: Seq<bool>| #[trigger]
                carried_out(
                    call,
                    manager.object(),
                    manager.held(),
                    replies,
                    notice.delivery.stage(),
                    transcript.exchanges(),
                )
        },
    }
}

/// One more reply goes with one more exchange.
proof fn one_more_exchange(
    call: JavaCallView,
    object: Option<int>,
    held: bool,
    replies: Seq<bool>,
    reply: bool,
)
    requires
        replies.len() > 0,
    ensures
        stage_after(call.args, held, replies.push(reply)) == next_stage(
            call.args,
            held,
            stage_after(call.args, held, replies),
            reply,
        ),
        exchanges_after(call, object, held, replies.push(reply)) == exchanges_after(
            call,
            object,
            held,
            replies,
        ).push(stage_exchange(call, object, stage_after(call.args, held, replies), reply)),
        replies.push(reply).drop_last() == replies,
{
    stage_after_reply(call.args, held, replies, reply);
    assert(replies.push(reply).drop_last() =~= replies);
}

/// A call that was carried out to its end is delivered.
proof fn carried_out_is_delivered(
    notice: Notice,
    transcript: Transcript,
    call: JavaCallView,
    manager: CallbackManager,
    replies: Seq<bool>,
)
    requires
        notice.delivery.call() == call,
        notice.delivery.held() == manager.held(),
        notice.delivery.stage() is Done,
        notice.evidence == Evidence::Asked(transcript),
        transcript.machine() == manager.java_vm(),
        carried_out(
            call,
            manager.object(),
            manager.held(),
            replies,
            notice.delivery.stage(),
            transcript.exchanges(),
        ),
    ensures
        delivered(notice, call, manager),
{
}

/// Have these replies taken a delivery to a held object as far as it is, with all that they answer
/// asked through this environment?
spec fn under_way(
    delivery: Delivery,
    env: JNIEnv<'_>,
    object: Option<int>,
    replies: Seq<bool>,
) -> bool {
    &&& delivery.held()
    &&& replies.len() > 0
    &&& replies[0]
    &&& delivery.stage() == stage_after(delivery.call().args, true, replies)
    &&& exchanges(env) == exchanges_after(delivery.call(), object, true, replies)
}

/// Is the string at each place of `strings` that of the argument there, where that is a text?
spec fn strings_fit(strings: Seq<Option<JObject<'_>>>, args: Seq<JavaArgView>) -> bool {
    forall|j: int|
        0 <= j < strings.len() && args[j] is Text ==> (#[trigger] strings[j] matches Some(object)
            && args[j] == JavaArgView::Text(java_text(object)))
}

/// Makes the Java strings of a call. Where one is refused, the delivery is over.
fn make_strings<'local>(
    env: &mut JNIEnv<'local>,
    delivery: &mut Delivery,
    Ghost(object): Ghost<Option<int>>,
    Ghost(replies): Ghost<Seq<bool>>,
) -> (r: (Option<Vec<Option<JObject<'local>>>>, Ghost<Seq<bool>>))
    requires
        under_way(*old(delivery), *old(env), object, replies),
        old(delivery).stage() == stage_from(old(delivery).call().args, 0),
    ensures
        final(delivery).call() == old(delivery).call(),
        machine(*final(env)) == machine(*old(env)),
        under_way(*final(delivery), *final(env), object, r.1@),
        match r.0 {
            Some(strings) => {
                &&& final(delivery).stage() == Stage::Invoke
                &&& strings@.len() == final(delivery).call().args.len()
                &&& strings_fit(strings@, final(delivery).call().args)
            },
            None => {
                &&& final(delivery).stage() is Done
                &&& !(stage_after(final(delivery).call().args, true, r.1@.drop_last()) is Done)
            },
        },
{
    let ghost call = delivery.call();
    let ghost mut replies = replies;
    let n: usize = delivery.java_call().args.len();
    let mut strings: Vec<Option<JObject<'local>>> = Vec::new();
    while strings.len() < n
        invariant
            strings@.len() <= n,
            n == call.args.len(),
            call == old(delivery).call(),
            delivery.call() == call,
            machine(*env) == machine(*old(env)),
            under_way(*delivery, *env, object, replies),
            delivery.stage() == stage_from(call.args, strings@.len() as int),
            strings_fit(strings@, call.args),
        decreases n - strings@.len(),
    {
        let i: usize = strings.len();
        let made = match &delivery.java_call().args[i] {
            JavaArg::Text(text) => match new_string(env, text.as_str()) {
                Ok(string) => Some(string),
                Err(_) => {
                    delivery.step(false);
                    proof {
                        one_more_exchange(call, object, true, replies, false);
                        replies = replies.push(false);
                    }
                    return (None, Ghost(replies));
                },
            },
            _ => None,
        };
        if made.is_some() {
            delivery.step(true);
            proof {
                one_more_exchange(call, object, true, replies, true);
                replies = replies.push(true);
            }
        }
        strings.push(made);
    }
    (Some(strings), Ghost(replies))
}

/// Puts the arguments of a call together.
fn argument_values<'object, 'local>(
    call: &JavaCall,
    strings: &'object Vec<Option<JObject<'local>>>,
) -> (r: Vec<JValueGen<&'object JObject<'local>>>)
    requires
        strings@.len() == call@.args.len(),
        strings_fit(strings@, call@.args),
    ensures
        r@.len() == call@.args.len(),
        forall|i: int| 0 <= i < r@.len() ==> java_value(#[trigger] r@[i]) == call@.args[i],
{
    let mut values: Vec<JValueGen<&'object JObject<'local>>> = Vec::new();
    while values.len() < call.args.len()
        invariant
            values@.len() <= call@.args.len(),
            strings@.len() == call@.args.len(),
            strings_fit(strings@, call@.args),
            forall|j: int|
                0 <= j < values@.len() ==> java_value(#[trigger] values@[j]) == call@.args[j],
        decreases call@.args.len() - values@.len(),
    {
        let i: usize = values.len();
        let value = match &call.args[i] {
            JavaArg::Bool(value) => bool_value(*value),
            JavaArg::Int(value) => int_value(*value),
            JavaArg::Text(_) => {
                assert(call@.args[i as int] is Text);
                assert(strings@[i as int] is Some);
                text_value(strings[i].as_ref().unwrap())
            },
        };
        values.push(value);
    }
    values
}

/// Carries out a call of an object once the thread is attached.
fn carry_out(
    target: &GlobalRef,
    env: &mut JNIEnv<'_>,
    delivery: &mut Delivery,
    Ghost(replies): Ghost<Seq<bool>>,
) -> (r: Ghost<Seq<bool>>)
    requires
        well_typed(old(delivery).call()),
        under_way(*old(delivery), *old(env), global_object(*target), replies),
        old(delivery).stage() == stage_from(old(delivery).call().args, 0),
    ensures
        final(delivery).call() == old(delivery).call(),
        final(delivery).stage() is Done,
        machine(*final(env)) == machine(*old(env)),
        under_way(*final(delivery), *final(env), global_object(*target), r@),
        !(stage_after(final(delivery).call().args, true, r@.drop_last()) is Done),
{
    let ghost call = delivery.call();
    let ghost object = global_object(*target);
    let (strings, Ghost(replies)) = make_strings(env, delivery, Ghost(object), Ghost(replies));
    let strings = match strings {
        Some(strings) => strings,
        None => return Ghost(replies),
    };
    let values = argument_values(delivery.java_call(), &strings);
    let called = call_method(env, target, delivery.java_call(), &values);
    delivery.step(called.is_ok());
    proof {
        one_more_exchange(call, object, true, replies, called is Ok);
    }
    let ghost replies = replies.push(called is Ok);
    if called.is_ok() {
        return Ghost(replies);
    }
    let cleared = exception_clear(env);
    delivery.step(cleared.is_ok());
    proof {
        one_more_exchange(call, object, true, replies, cleared is Ok);
    }
    Ghost(replies.push(cleared is Ok))
}

impl CallbackManager {
    /// Is there still a callback object?
    pub closed spec fn held(&self) -> bool {
        self.global_ref is Some
    }

    /// Which Java object is called; none where it has been given up.
    pub closed spec fn object(&self) -> Option<int> {
        match self.global_ref {
            Some(global_ref) => global_object(global_ref),
            None => None,
        }
    }

    /// The virtual machine whose object is called.
    pub closed spec fn java_vm(&self) -> jni::JavaVM {
        *self.java_vm
    }

    /// Takes the application's callback object into keeping, beyond the call that passed it. No method
    /// of it is called.
    pub fn new(env: &mut JNIEnv<'_>, callback_obj: JObject<'_>) -> (r: Result<
        CallbackManager,
        CallbackError,
    >)
        ensures
            *final(env) == *old(env),
            java_object(callback_obj) is None ==> r is Err,
            match r {
                Ok(manager) => {
                    &&& manager.held()
                    &&& manager.object() == java_object(callback_obj)
                    &&& manager.java_vm() == machine(*old(env))
                },
                Err(error) => callback_refused(
                    error,
                    machine(*old(env)),
                    java_object(callback_obj),
                ),
            },
    {
        if is_null(&callback_obj) {
            return Err(CallbackError::NoCallback);
        }
        let java_vm = match get_java_vm(env) {
            Ok(java_vm) => java_vm,
            Err(refusal) => return Err(CallbackError::NoJavaVm(refusal)),
        };
        let global_ref = match new_global_ref(env, &callback_obj) {
            Ok(global_ref) => global_ref,
            Err(refusal) => return Err(CallbackError::NoGlobalRef(refusal)),
        };
        if is_null(global_as_object(&global_ref)) {
            return Err(CallbackError::NullGlobalRef(global_ref));
        }
        Ok(CallbackManager { java_vm: Arc::new(java_vm), global_ref: Some(global_ref) })
    }

    /// Attaches this thread to the virtual machine.
    fn attach(&self) -> (r: Result<JNIEnv<'_>, Refusal>)
        ensures
            match r {
                Ok(env) => machine(env) == self.java_vm() && exchanges(env).len() == 0,
                Err(refusal) => refusal.request() == (MachineRequest::Attach {
                    machine: self.java_vm(),
                }),
            },
    {
        attach_current_thread_as_daemon(&self.java_vm)
    }

    /// The callback object, where it has not been given up.
    fn global_ref(&self) -> (r: Option<&GlobalRef>)
        ensures
            r is Some <==> self.held(),
            r matches Some(global_ref) ==> global_object(*global_ref) == self.object(),
    {
        self.global_ref.as_ref()
    }

    /// Carries out a call.
    fn deliver(&self, call: JavaCall) -> (r: Notice)
        requires
            well_typed(call@),
        ensures
            delivered(r, call@, *self),
    {
        let target = self.global_ref();
        let mut delivery = Delivery::start(call, target.is_some());
        let ghost replies: Seq<bool> = Seq::empty();
        let attached = self.attach();
        delivery.step(attached.is_ok());
        proof {
            stage_after_reply(call@.args, self.held(), replies, attached is Ok);
        }
        let mut env = match attached {
            Ok(env) => env,
            Err(refusal) => return Notice { delivery, evidence: Evidence::Refused(refusal) },
        };
        let ghost replies = replies.push(true);
        proof {
            assert(replies.drop_last() =~= Seq::<bool>::empty());
            assert(exchanges(env) =~= exchanges_after(call@, self.object(), self.held(), replies));
        }
        let replies = match target {
            Some(target) => carry_out(target, &mut env, &mut delivery, Ghost(replies)),
            None => Ghost(replies),
        };
        let transcript = Transcript::conclude(env);
        let ghost asked = transcript;
        let notice = Notice { delivery, evidence: Evidence::Asked(transcript) };
        proof {
            carried_out_is_delivered(notice, asked, call@, *self, replies@);
        }
        notice
    }

    /// Tells the application that a connection has been made, for the first time or again.
    pub fn connect_complete(&self, reconnect: bool, server_uri: &str) -> (r: Notice)
        ensures
            delivered(r, connect_complete_call(reconnect, server_uri@), *self),
    {
        proof {
            notifications_are_well_typed(reconnect, 0, server_uri@, server_uri@);
        }
        self.deliver(JavaCall::connect_complete(reconnect, server_uri))
    }

    /// Tells the application that the connection has gone.
    pub fn connection_lost(&self, cause: &str) -> (r: Notice)
        ensures
            delivered(r, connection_lost_call(cause@), *self),
    {
        proof {
            notifications_are_well_typed(false, 0, cause@, cause@);
        }
        self.deliver(JavaCall::connection_lost(cause))
    }

    /// Hands a message to the application.
    pub fn on_msg(&self, topic: &str, message: &str) -> (r: Notice)
        ensures
            delivered(r, on_msg_call(topic@, message@), *self),
    {
        proof {
            notifications_are_well_typed(false, 0, topic@, message@);
        }
        self.deliver(JavaCall::on_msg(topic, message))
    }

    /// Reports an error to the application.
    pub fn on_error(&self, code: i32, message: &str) -> (r: Notice)
        ensures
            delivered(r, on_error_call(code as int, message@), *self),
    {
        proof {
            notifications_are_well_typed(false, code as int, message@, message@);
        }
        self.deliver(JavaCall::on_error(code, message))
    }

    /// Gives the callback object up, so that the virtual machine may reclaim it. Says whether there
    /// was one to give up.
    pub fn release(&mut self) -> (r: bool)
        ensures
            r == old(self).held(),
            !final(self).held(),
            final(self).object() is None,
            final(self).java_vm() == old(self).java_vm(),
    {
        self.global_ref.take().is_some()
    }
}

/// Were all these strings, made one after another?
pub open spec fn only_strings_made(exchanges: Seq<Exchange>) -> bool {
    forall|i: int|
        0 <= i < exchanges.len() ==> (#[trigger] exchanges[i] matches Exchange::MakeString {
            made,
            ..
        } && made)
}

/// What has been asked at each stage of a delivery.
proof fn course_of_delivery(
    call: JavaCallView,
    object: Option<int>,
    held: bool,
    replies: Seq<bool>,
)
    requires
        call.args.len() <= usize::MAX,
        replies.len() > 0,
        replies[0],
        !(stage_after(call.args, held, replies.drop_last()) is Done),
    ensures
        ({
            let asked = exchanges_after(call, object, held, replies);
            let n = asked.len() as int;
            match stage_after(call.args, held, replies) {
                Stage::Attach => false,
                Stage::MakeString(_) | Stage::Invoke => held && only_strings_made(asked),
                Stage::ClearException => held && n > 0 && only_strings_made(asked.take(n - 1))
                    && asked[n - 1] == (Exchange::CallMethod { object, call, returned: false }),
                Stage::Done(Outcome::Delivered) => held && n > 0 && only_strings_made(
                    asked.take(n - 1),
                ) && asked[n - 1] == (Exchange::CallMethod { object, call, returned: true }),
                Stage::Done(Outcome::CallFailed { cleared }) => held && n > 1
                    && only_strings_made(asked.take(n - 2)) && asked[n - 2] == (
                Exchange::CallMethod { object, call, returned: false }) && asked[n - 1] == (
                Exchange::ClearException { cleared }),
                Stage::Done(Outcome::StringRefused(i)) => held && n > 0 && only_strings_made(
                    asked.take(n - 1),
                ) && is_text(call.args, i as int) && asked[n - 1] == (Exchange::MakeString {
                    content: call.args[i as int]->Text_0,
                    made: false,
                }),
                Stage::Done(Outcome::Released) => !held && n == 0,
                Stage::Done(Outcome::NotAttached) => false,
            }
        }),
    decreases replies.len(),
{
    let before = replies.drop_last();
    let asked = exchanges_after(call, object, held, replies);
    let n = asked.len() as int;
    stage_from_is_ahead(call.args, 0);
    if before.len() > 0 {
        course_of_delivery(call, object, held, before);
        stages_are_in_range(call.args, held, before);
        assert(asked.take(n - 1) =~= exchanges_after(call, object, held, before));
        match stage_after(call.args, held, before) {
            Stage::MakeString(i) => {
                stage_from_is_ahead(call.args, i + 1);
                assert forall|j: int| 0 <= j < n && replies.last() implies (
                #[trigger] asked[j] matches Exchange::MakeString { made, .. } && made) by {
                    if j < n - 1 {
                        assert(asked.take(n - 1)[j] == asked[j]);
                    }
                }
            },
            Stage::ClearException => {
                assert(asked.take(n - 1).take(n - 2) =~= asked.take(n - 2));
                assert(asked[n - 2] == asked.take(n - 1)[n - 2]);
            },
            _ => {},
        }
    }
}

/// What is known of the exchanges of a notification, by the way it ended.
proof fn exchanges_of_notice(notice: Notice, call: JavaCallView, manager: CallbackManager)
    requires
        delivered(notice, call, manager),
        call.args.len() <= usize::MAX,
    ensures
        ({
            let asked = notice.evidence.exchanges();
            let n = asked.len() as int;
            let object = manager.object();
            match notice.delivery.stage() {
                Stage::Done(Outcome::Delivered) => manager.held() && n > 0 && only_strings_made(
                    asked.take(n - 1),
                ) && asked[n - 1] == (Exchange::CallMethod { object, call, returned: true }),
                Stage::Done(Outcome::CallFailed { cleared }) => manager.held() && n > 1
                    && only_strings_made(asked.take(n - 2)) && asked[n - 2] == (
                Exchange::CallMethod { object, call, returned: false }) && asked[n - 1] == (
                Exchange::ClearException { cleared }),
                Stage::Done(Outcome::StringRefused(i)) => manager.held() && n > 0
                    && only_strings_made(asked.take(n - 1)) && is_text(call.args, i as int)
                    && asked[n - 1] == (Exchange::MakeString {
                    content: call.args[i as int]->Text_0,
                    made: false,
                }),
                Stage::Done(Outcome::Released) => !manager.held() && n == 0,
                Stage::Done(Outcome::NotAttached) => n == 0,
                _ => false,
            }
        }),
        notice.evidence is Refused <==> notice.delivery.stage() == Stage::Done(
            Outcome::NotAttached,
        ),
{
    match notice.evidence {
        Evidence::Refused(_) => {},
        Evidence::Asked(transcript) => {
            let replies = choose|replies: Seq<bool>| #[trigger]
                carried_out(
                    call,
                    manager.object(),
                    manager.held(),
                    replies,
                    notice.delivery.stage(),
                    transcript.exchanges(),
                );
            course_of_delivery(call, manager.object(), manager.held(), replies);
        },
    }
}

/// Is a method called in this exchange?
pub open spec fn is_call(exchange: Exchange) -> bool {
    exchange is CallMethod
}

/// Is a string refused in this exchange?
pub open spec fn is_refused_string(exchange: Exchange) -> bool {
    exchange matches Exchange::MakeString { made: false, .. }
}

/// The application is called at most once for a notification: exactly where the thread was attached,
/// the callback object has not been given up, and every string that was asked for was made. It is
/// called with the notification's own method, descriptor and arguments, and on the object that
/// was taken into keeping.
pub proof fn called_once_where_possible(notice: Notice, call: JavaCallView, manager: CallbackManager)
    requires
        delivered(notice, call, manager),
        call.args.len() <= usize::MAX,
    ensures
        ({
            let asked = notice.evidence.exchanges();
            &&& (exists|i: int| 0 <= i < asked.len() && is_call(#[trigger] asked[i])) <==> (
            notice.evidence is Asked && manager.held() && forall|i: int|
                0 <= i < asked.len() ==> !is_refused_string(#[trigger] asked[i]))
            &&& forall|i: int, j: int|
                0 <= i < j < asked.len() ==> !(is_call(#[trigger] asked[i]) && is_call(
                    #[trigger] asked[j],
                ))
            &&& forall|i: int|
                0 <= i < asked.len() && is_call(#[trigger] asked[i]) ==> (asked[i] matches
                    Exchange::CallMethod { object, call: made, .. } && object == manager.object()
                    && made == call)
        }),
{
    exchanges_of_notice(notice, call, manager);
    let asked = notice.evidence.exchanges();
    let n = asked.len() as int;
    let strings = match notice.delivery.stage() {
        Stage::Done(Outcome::CallFailed { .. }) => n - 2,
        Stage::Done(Outcome::Delivered) | Stage::Done(Outcome::StringRefused(_)) => n - 1,
        _ => 0,
    };
    assert forall|i: int| 0 <= i < strings implies !is_call(#[trigger] asked[i])
        && !is_refused_string(asked[i]) by {
        assert(asked.take(strings)[i] == asked[i]);
    }
    match notice.delivery.stage() {
        Stage::Done(Outcome::CallFailed { .. }) => {
            assert(is_call(asked[n - 2]));
        },
        Stage::Done(Outcome::Delivered) => {
            assert(is_call(asked[n - 1]));
        },
        Stage::Done(Outcome::StringRefused(_)) => {
            assert(is_refused_string(asked[n - 1]));
        },
        _ => {},
    }
}

/// May an exception be pending after these exchanges, if none was before? A call that failed may
/// leave one, and so may a string that was refused; clearing takes it away.
pub open spec fn may_be_pending(exchanges: Seq<Exchange>) -> bool
    decreases exchanges.len(),
{
    if exchanges.len() == 0 {
        false
    } else {
        match exchanges.last() {
            Exchange::CallMethod { returned: false, .. } => true,
            Exchange::MakeString { made: false, .. } => true,
            Exchange::ClearException { cleared: true } => false,
            _ => may_be_pending(exchanges.drop_last()),
        }
    }
}

/// Strings that were made leave no exception.
proof fn strings_leave_nothing_pending(exchanges: Seq<Exchange>)
    requires
        only_strings_made(exchanges),
    ensures
        !may_be_pending(exchanges),
    decreases exchanges.len(),
{
    if exchanges.len() > 0 {
        assert forall|i: int| 0 <= i < exchanges.drop_last().len() implies (
        #[trigger] exchanges.drop_last()[i] matches Exchange::MakeString { made, .. } && made) by {
            assert(exchanges[i] == exchanges.drop_last()[i]);
        }
        strings_leave_nothing_pending(exchanges.drop_last());
        assert(exchanges[exchanges.len() - 1] == exchanges.last());
    }
}

/// A call that failed leaves no exception for the next one: the clearing is asked for right after
/// it, and where the virtual machine does that, nothing is pending when the notification has ended.
/// Only where no call was made because a string was refused is the clearing not asked for.
pub proof fn failed_call_leaves_no_exception(
    notice: Notice,
    call: JavaCallView,
    manager: CallbackManager,
)
    requires
        delivered(notice, call, manager),
        call.args.len() <= usize::MAX,
    ensures
        ({
            let asked = notice.evidence.exchanges();
            &&& forall|i: int|
                0 <= i < asked.len() && (#[trigger] asked[i] matches Exchange::CallMethod {
                    returned: false,
                    ..
                }) ==> i + 1 < asked.len() && asked[i + 1] is ClearException
            &&& may_be_pending(asked) ==> asked.last() == (Exchange::ClearException {
                cleared: false,
            }) || is_refused_string(asked.last())
        }),
{
    exchanges_of_notice(notice, call, manager);
    let asked = notice.evidence.exchanges();
    let n = asked.len() as int;
    let strings = match notice.delivery.stage() {
        Stage::Done(Outcome::CallFailed { .. }) => n - 2,
        Stage::Done(Outcome::Delivered) | Stage::Done(Outcome::StringRefused(_)) => n - 1,
        _ => 0,
    };
    assert(asked.take(0) =~= Seq::<Exchange>::empty());
    strings_leave_nothing_pending(asked.take(strings));
    assert forall|i: int| 0 <= i < strings implies asked[i] is MakeString by {
        assert(asked.take(strings)[i] == asked[i]);
    }
    match notice.delivery.stage() {
        Stage::Done(Outcome::Delivered) | Stage::Done(Outcome::StringRefused(_)) => {
            assert(asked.drop_last() =~= asked.take(strings));
        },
        _ => {},
    }
}

/// A notification counts as delivered exactly where the call of it was made and returned, and as not
/// attached exactly where attaching was refused.
pub proof fn outcome_is_what_happened(notice: Notice, call: JavaCallView, manager: CallbackManager)
    requires
        delivered(notice, call, manager),
        call.args.len() <= usize::MAX,
    ensures
        ({
            let asked = notice.evidence.exchanges();
            let object = manager.object();
            &&& notice.delivery.stage() == Stage::Done(Outcome::Delivered) <==> asked.contains(
                (Exchange::CallMethod { object, call, returned: true }),
            )
            &&& notice.delivery.stage() is Done && notice.delivery.stage()->Done_0 is CallFailed
                <==> asked.contains((Exchange::CallMethod { object, call, returned: false }))
            &&& notice.delivery.stage() == Stage::Done(Outcome::NotAttached) <==> notice.evidence
                is Refused
        }),
{
    exchanges_of_notice(notice, call, manager);
    let asked = notice.evidence.exchanges();
    let n = asked.len() as int;
    called_once_where_possible(notice, call, manager);
    match notice.delivery.stage() {
        Stage::Done(Outcome::Delivered) => {
            assert(is_call(asked[n - 1]));
            assert(asked.contains(asked[n - 1]));
        },
        Stage::Done(Outcome::CallFailed { .. }) => {
            assert(is_call(asked[n - 2]));
            assert(asked.contains(asked[n - 2]));
        },
        Stage::Done(Outcome::StringRefused(_)) => {
            assert(is_refused_string(asked[n - 1]));
        },
        _ => {},
    }
    let made = Exchange::CallMethod { object: manager.object(), call, returned: true };
    let failed = Exchange::CallMethod { object: manager.object(), call, returned: false };
    assert(is_call(made) && is_call(failed));
}

/// Once the callback object has been given up, nothing is asked of the virtual machine on its
/// account but to attach the thread.
pub proof fn nothing_is_delivered_after_release(
    notice: Notice,
    call: JavaCallView,
    manager: CallbackManager,
)
    requires
        delivered(notice, call, manager),
        call.args.len() <= usize::MAX,
        !manager.held(),
    ensures
        notice.evidence.exchanges().len() == 0,
{
    exchanges_of_notice(notice, call, manager);
}

/// The strings that are made for the first arguments of a call: one for each text among them, in order.
pub open spec fn strings_made(args: Seq<JavaArgView>, count: int) -> Seq<Exchange>
    decreases count,
{
    if count <= 0 {
        Seq::empty()
    } else {
        match args[count - 1] {
            JavaArgView::Text(text) => strings_made(args, count - 1).push(
                Exchange::MakeString { content: text, made: true },
            ),
            _ => strings_made(args, count - 1),
        }
    }
}

/// Arguments that are no texts need no strings.
proof fn no_strings_between(args: Seq<JavaArgView>, from: int, to: int)
    requires
        0 <= from <= to <= args.len(),
        forall|j: int| from <= j < to ==> !(#[trigger] args[j] is Text),
    ensures
        strings_made(args, to) == strings_made(args, from),
    decreases to - from,
{
    if from < to {
        no_strings_between(args, from, to - 1);
        assert(!(args[to - 1] is Text));
    }
}

/// As long as all goes well, what has been asked is for the strings of the arguments so far.
proof fn strings_come_first(call: JavaCallView, object: Option<int>, replies: Seq<bool>)
    requires
        call.args.len() <= usize::MAX,
        replies.len() > 0,
        replies[0],
    ensures
        ({
            let asked = exchanges_after(call, object, true, replies);
            match stage_after(call.args, true, replies) {
                Stage::MakeString(i) => asked == strings_made(call.args, i as int) && is_text(
                    call.args,
                    i as int,
                ),
                Stage::Invoke => asked == strings_made(call.args, call.args.len() as int),
                _ => true,
            }
        }),
    decreases replies.len(),
{
    let args = call.args;
    let before = replies.drop_last();
    let from = if replies.len() == 1 {
        0
    } else {
        match stage_after(args, true, before) {
            Stage::MakeString(i) => i + 1,
            _ => 0,
        }
    };
    if replies.len() == 1 {
        assert(before =~= Seq::<bool>::empty());
    } else {
        strings_come_first(call, object, before);
        stages_are_in_range(args, true, before);
        assert(before[0] == replies[0]);
        attaching_is_not_repeated(args, before);
    }
    strings_are_made_in_order(args, from);
    match stage_from(args, from) {
        Stage::MakeString(i) => {
            no_strings_between(args, from, i as int);
        },
        _ => {
            no_strings_between(args, from, args.len() as int);
        },
    }
}

/// A delivery attaches the thread only at its beginning.
proof fn attaching_is_not_repeated(args: Seq<JavaArgView>, replies: Seq<bool>)
    requires
        args.len() <= usize::MAX,
        replies.len() > 0,
    ensures
        !(stage_after(args, true, replies) is Attach),
{
    stage_from_is_ahead(args, 0);
    match stage_after(args, true, replies.drop_last()) {
        Stage::MakeString(i) => {
            stages_are_in_range(args, true, replies.drop_last());
            stage_from_is_ahead(args, i + 1);
        },
        _ => {},
    }
}

/// What is asked of the virtual machine for a notification, all of it and in order: a string for each
/// text among the arguments; then, if all were made, the call; then, if that failed, the clearing.
/// Where a string is refused, nothing is asked after it.
pub proof fn notification_is_asked_for_in_order(
    notice: Notice,
    call: JavaCallView,
    manager: CallbackManager,
)
    requires
        delivered(notice, call, manager),
        call.args.len() <= usize::MAX,
    ensures
        ({
            let asked = notice.evidence.exchanges();
            let object = manager.object();
            let strings = strings_made(call.args, call.args.len() as int);
            match notice.delivery.stage() {
                Stage::Done(Outcome::Delivered) => asked == strings.push(
                    (Exchange::CallMethod { object, call, returned: true }),
                ),
                Stage::Done(Outcome::CallFailed { cleared }) => asked == strings.push(
                    (Exchange::CallMethod { object, call, returned: false }),
                ).push((Exchange::ClearException { cleared })),
                Stage::Done(Outcome::StringRefused(i)) => i < call.args.len() && (
                call.args[i as int] matches JavaArgView::Text(text) && asked == strings_made(
                    call.args,
                    i as int,
                ).push((Exchange::MakeString { content: text, made: false }))),
                Stage::Done(Outcome::Released) => asked.len() == 0 && !manager.held()
                    && notice.evidence is Asked,
                Stage::Done(Outcome::NotAttached) => asked.len() == 0 && (notice.evidence matches
                    Evidence::Refused(refusal) && refusal.request() == (MachineRequest::Attach {
                    machine: manager.java_vm(),
                })),
                _ => false,
            }
        }),
        notice.evidence matches Evidence::Asked(transcript) ==> transcript.machine()
            == manager.java_vm(),
{
    exchanges_of_notice(notice, call, manager);
    match notice.evidence {
        Evidence::Refused(_) => {},
        Evidence::Asked(transcript) => {
            let replies = choose|replies: Seq<bool>| #[trigger]
                carried_out(
                    call,
                    manager.object(),
                    manager.held(),
                    replies,
                    notice.delivery.stage(),
                    transcript.exchanges(),
                );
            let before = replies.drop_last();
            stage_from_is_ahead(call.args, 0);
            if before.len() > 0 {
                assert(before[0] == replies[0]);
                if !manager.held() {
                    attached_only_once(call.args, before);
                }
                strings_come_first(call, manager.object(), before);
                stages_are_in_range(call.args, true, before);
                match stage_after(call.args, true, before) {
                    Stage::MakeString(i) => {
                        stage_from_is_ahead(call.args, i + 1);
                    },
                    Stage::ClearException => {
                        let earlier = before.drop_last();
                        course_of_delivery(call, manager.object(), true, before);
                        invoke_comes_before_clearing(call.args, before);
                        assert(earlier.len() > 0 ==> earlier[0] == replies[0]);
                        strings_come_first(call, manager.object(), earlier);
                    },
                    _ => {},
                }
            }
        },
    }
}

/// Without a callback object a delivery is over once the thread has been attached.
proof fn attached_only_once(args: Seq<JavaArgView>, replies: Seq<bool>)
    requires
        replies.len() > 0,
        replies[0],
    ensures
        stage_after(args, false, replies) == Stage::Done(Outcome::Released),
    decreases replies.len(),
{
    if replies.len() == 1 {
        assert(replies.drop_last() =~= Seq::<bool>::empty());
    } else {
        attached_only_once(args, replies.drop_last());
    }
}

/// An exception is cleared only right after a call that failed.
proof fn invoke_comes_before_clearing(args: Seq<JavaArgView>, replies: Seq<bool>)
    requires
        args.len() <= usize::MAX,
        replies.len() > 0,
        replies[0],
        stage_after(args, true, replies) is ClearException,
    ensures
        replies.len() > 1,
        stage_after(args, true, replies.drop_last()) is Invoke,
        !replies.last(),
{
    stage_from_is_ahead(args, 0);
    match stage_after(args, true, replies.drop_last()) {
        Stage::MakeString(i) => {
            stages_are_in_range(args, true, replies.drop_last());
            stage_from_is_ahead(args, i + 1);
        },
        _ => {},
    }
}

/// A message that was delivered reached the application as one `onMsg` call on its callback object,
/// with the topic and the content each as a Java string of its own.
pub proof fn delivered_message_was_told(
    notice: Notice,
    topic: Seq<char>,
    message: Seq<char>,
    manager: CallbackManager,
)
    requires
        delivered(notice, on_msg_call(topic, message), manager),
        notice.delivery.stage() == Stage::Done(Outcome::Delivered),
    ensures
        notice.evidence.exchanges() == seq![
            Exchange::MakeString { content: topic, made: true },
            Exchange::MakeString { content: message, made: true },
            Exchange::CallMethod {
                object: manager.object(),
                call: JavaCallView {
                    method: "onMsg"@,
                    signature: "(Ljava/lang/String;Ljava/lang/String;)V"@,
                    args: seq![JavaArgView::Text(topic), JavaArgView::Text(message)],
                },
                returned: true,
            },
        ],
{
    reveal_with_fuel(strings_made, 3);
    notification_is_asked_for_in_order(notice, on_msg_call(topic, message), manager);
}

/// A connection whose telling was delivered reached the application as one `connectComplete` call on
/// its callback object, with the flag and the address.
pub proof fn delivered_connection_was_told(
    notice: Notice,
    reconnect: bool,
    server_uri: Seq<char>,
    manager: CallbackManager,
)
    requires
        delivered(notice, connect_complete_call(reconnect, server_uri), manager),
        notice.delivery.stage() == Stage::Done(Outcome::Delivered),
    ensures
        notice.evidence.exchanges() == seq![
            Exchange::MakeString { content: server_uri, made: true },
            Exchange::CallMethod {
                object: manager.object(),
                call: JavaCallView {
                    method: "connectComplete"@,
                    signature: "(ZLjava/lang/String;)V"@,
                    args: seq![JavaArgView::Bool(reconnect), JavaArgView::Text(server_uri)],
                },
                returned: true,
            },
        ],
{
    reveal_with_fuel(strings_made, 3);
    notification_is_asked_for_in_order(
        notice,
        connect_complete_call(reconnect, server_uri),
        manager,
    );
}

/// A loss whose telling was delivered reached the application as one `connectionLost` call on its
/// callback object, with the cause.
pub proof fn delivered_loss_was_told(notice: Notice, cause: Seq<char>, manager: CallbackManager)
    requires
        delivered(notice, connection_lost_call(cause), manager),
        notice.delivery.stage() == Stage::Done(Outcome::Delivered),
    ensures
        notice.evidence.exchanges() == seq![
            Exchange::MakeString { content: cause, made: true },
            Exchange::CallMethod {
                object: manager.object(),
                call: JavaCallView {
                    method: "connectionLost"@,
                    signature: "(Ljava/lang/String;)V"@,
                    args: seq![JavaArgView::Text(cause)],
                },
                returned: true,
            },
        ],
{
    reveal_with_fuel(strings_made, 3);
    notification_is_asked_for_in_order(notice, connection_lost_call(cause), manager);
}

/// An error whose report was delivered reached the application as one `onError` call on its callback
/// object, with the code and the message.
pub proof fn delivered_error_was_told(
    notice: Notice,
    code: int,
    message: Seq<char>,
    manager: CallbackManager,
)
    requires
        delivered(notice, on_error_call(code, message), manager),
        notice.delivery.stage() == Stage::Done(Outcome::Delivered),
    ensures
        notice.evidence.exchanges() == seq![
            Exchange::MakeString { content: message, made: true },
            Exchange::CallMethod {
                object: manager.object(),
                call: JavaCallView {
                    method: "onError"@,
                    signature: "(ILjava/lang/String;)V"@,
                    args: seq![JavaArgView::Int(code), JavaArgView::Text(message)],
                },
                returned: true,
            },
        ],
{
    reveal_with_fuel(strings_made, 3);
    notification_is_asked_for_in_order(notice, on_error_call(code, message), manager);
}

/// The codes of the reports are three different ones.
pub proof fn codes_are_told_apart()
    ensures
        ERR_INVALID_PARAMS == 1,
        ERR_INIT_FAILED == 2,
        ERR_PUBLISH_FAILED == 3,
{
}

/// No manager is made without a reason: no object was passed; or the virtual machine that the request
/// came through refused a handle on itself; or it refused a reference to the object that was passed,
/// or gave a null one for it.
pub proof fn refused_callback_has_its_reason(
    error: CallbackError,
    java_vm: jni::JavaVM,
    object: Option<int>,
)
    requires
        callback_refused(error, java_vm, object),
    ensures
        error is NoCallback <==> object is None,
        error matches CallbackError::NoJavaVm(refusal) ==> refusal.request() == (
        MachineRequest::GetJavaVm { machine: java_vm }),
        error matches CallbackError::NoGlobalRef(refusal) ==> refusal.request() == (
        MachineRequest::NewGlobalRef { object }),
        error matches CallbackError::NullGlobalRef(global_ref) ==> global_source(global_ref)
            == object && global_object(global_ref) is None,
{
}

} // verus!
