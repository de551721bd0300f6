//! The calls that notify the application, and the course of one such call.
//!
//! Nothing here touches a virtual machine: a [`JavaCall`] says what to call, and a [`Delivery`]
//! says what to do next, given whether the step before succeeded.

use vstd::prelude::*;
use vstd::string::*;

verus! {

/// An argument of a call.
pub enum JavaArg {
    /// A Java `boolean`.
    Bool(bool),
    /// A Java `int`.
    Int(i32),
    /// A `java.lang.String`.
    Text(String),
}

/// The mathematical form of a [`JavaArg`].
pub enum JavaArgView {
    Bool(bool),
    Int(int),
    Text(Seq<char>),
}

impl View for JavaArg {
    type V = JavaArgView;

    open spec fn view(&self) -> JavaArgView {
        match self {
            JavaArg::Bool(b) => JavaArgView::Bool(*b),
            JavaArg::Int(i) => JavaArgView::Int(*i as int),
            JavaArg::Text(s) => JavaArgView::Text(s@),
        }
    }
}

/// A call of a method of the application's callback object.
pub struct JavaCall {
    /// The method's name.
    pub method: &'static str,
    /// The method's JNI descriptor.
    pub signature: &'static str,
    /// The arguments, in order.
    pub args: Vec<JavaArg>,
}

/// The mathematical form of a [`JavaCall`].
#[verifier::ext_equal]
pub struct JavaCallView {
    pub method: Seq<char>,
    pub signature: Seq<char>,
    pub args: Seq<JavaArgView>,
}

impl View for JavaCall {
    type V = JavaCallView;

    open spec fn view(&self) -> JavaCallView {
        JavaCallView {
            method: self.method@,
            signature: self.signature@,
            args: self.args@.map_values(|a: JavaArg| a@),
        }
    }
}

/// The JNI descriptor of an argument's type.
pub open spec fn arg_descriptor(arg: JavaArgView) -> Seq<char> {
    match arg {
        JavaArgView::Bool(_) => "Z"@,
        JavaArgView::Int(_) => "I"@,
        JavaArgView::Text(_) => "Ljava/lang/String;"@,
    }
}

/// The JNI descriptors of a list of arguments, one after another.
pub open spec fn args_descriptor(args: Seq<JavaArgView>) -> Seq<char>
    decreases args.len(),
{
    if args.len() == 0 {
        Seq::empty()
    } else {
        args_descriptor(args.drop_last()) + arg_descriptor(args.last())
    }
}

/// Do the arguments of a call fit its descriptor, and does the method return nothing?
pub open spec fn well_typed(call: JavaCallView) -> bool {
    call.signature == "("@ + args_descriptor(call.args) + ")V"@
}

/// `connectComplete(reconnect, serverURI)`: a connection has been made.
pub open spec fn connect_complete_call(reconnect: bool, server_uri: Seq<char>) -> JavaCallView {
    JavaCallView {
        method: "connectComplete"@,
        signature: "(ZLjava/lang/String;)V"@,
        args: seq![JavaArgView::Bool(reconnect), JavaArgView::Text(server_uri)],
    }
}

/// `connectionLost(cause)`: the connection has gone.
pub open spec fn connection_lost_call(cause: Seq<char>) -> JavaCallView {
    JavaCallView {
        method: "connectionLost"@,
        signature: "(Ljava/lang/String;)V"@,
        args: seq![JavaArgView::Text(cause)],
    }
}

/// `onMsg(topic, message)`: a message has come.
pub open spec fn on_msg_call(topic: Seq<char>, message: Seq<char>) -> JavaCallView {
    JavaCallView {
        method: "onMsg"@,
        signature: "(Ljava/lang/String;Ljava/lang/String;)V"@,
        args: seq![JavaArgView::Text(topic), JavaArgView::Text(message)],
    }
}

/// `onError(code, message)`: something went wrong.
pub open spec fn on_error_call(code: int, message: Seq<char>) -> JavaCallView {
    JavaCallView {
        method: "onError"@,
        signature: "(ILjava/lang/String;)V"@,
        args: seq![JavaArgView::Int(code), JavaArgView::Text(message)],
    }
}

impl JavaCall {
    /// The call that says that a connection has been made.
    pub fn connect_complete(reconnect: bool, server_uri: &str) -> (r: JavaCall)
        ensures
            r@ == connect_complete_call(reconnect, server_uri@),
    {
        let mut args: Vec<JavaArg> = Vec::new();
        args.push(JavaArg::Bool(reconnect));
        args.push(JavaArg::Text(server_uri.to_string()));
        JavaCall { method: "connectComplete", signature: "(ZLjava/lang/String;)V", args }
    }

    /// The call that says that the connection has gone.
    pub fn connection_lost(cause: &str) -> (r: JavaCall)
        ensures
            r@ == connection_lost_call(cause@),
    {
        let mut args: Vec<JavaArg> = Vec::new();
        args.push(JavaArg::Text(cause.to_string()));
        JavaCall { method: "connectionLost", signature: "(Ljava/lang/String;)V", args }
    }

    /// The call that hands over a message.
    pub fn on_msg(topic: &str, message: &str) -> (r: JavaCall)
        ensures
            r@ == on_msg_call(topic@, message@),
    {
        let mut args: Vec<JavaArg> = Vec::new();
        args.push(JavaArg::Text(topic.to_string()));
        args.push(JavaArg::Text(message.to_string()));
        JavaCall { method: "onMsg", signature: "(Ljava/lang/String;Ljava/lang/String;)V", args }
    }

    /// The call that reports an error.
    pub fn on_error(code: i32, message: &str) -> (r: JavaCall)
        ensures
            r@ == on_error_call(code as int, message@),
    {
        let mut args: Vec<JavaArg> = Vec::new();
        args.push(JavaArg::Int(code));
        args.push(JavaArg::Text(message.to_string()));
        JavaCall { method: "onError", signature: "(ILjava/lang/String;)V", args }
    }
}

/// Every notification passes arguments that fit the descriptor it is looked up by.
pub proof fn notifications_are_well_typed(
    reconnect: bool,
    code: int,
    first: Seq<char>,
    second: Seq<char>,
)
    ensures
        well_typed(connect_complete_call(reconnect, first)),
        well_typed(connection_lost_call(first)),
        well_typed(on_msg_call(first, second)),
        well_typed(on_error_call(code, first)),
{
    reveal_strlit("(");
    reveal_strlit(")V");
    reveal_strlit("Z");
    reveal_strlit("I");
    reveal_strlit("Ljava/lang/String;");
    reveal_strlit("(ZLjava/lang/String;)V");
    reveal_strlit("(Ljava/lang/String;)V");
    reveal_strlit("(Ljava/lang/String;Ljava/lang/String;)V");
    reveal_strlit("(ILjava/lang/String;)V");
    reveal_with_fuel(args_descriptor, 3);
    let b = JavaArgView::Bool(reconnect);
    let i = JavaArgView::Int(code);
    let s = JavaArgView::Text(first);
    let t = JavaArgView::Text(second);
    assert(seq![b, s].drop_last() =~= seq![b]);
    assert(seq![i, s].drop_last() =~= seq![i]);
    assert(seq![s, t].drop_last() =~= seq![s]);
    assert(seq![b].drop_last() =~= Seq::<JavaArgView>::empty());
    assert(seq![i].drop_last() =~= Seq::<JavaArgView>::empty());
    assert(seq![s].drop_last() =~= Seq::<JavaArgView>::empty());
    assert(connect_complete_call(reconnect, first).signature =~= "("@ + args_descriptor(seq![b, s])
        + ")V"@);
    assert(connection_lost_call(first).signature =~= "("@ + args_descriptor(seq![s]) + ")V"@);
    assert(on_msg_call(first, second).signature =~= "("@ + args_descriptor(seq![s, t]) + ")V"@);
    assert(on_error_call(code, first).signature =~= "("@ + args_descriptor(seq![i, s]) + ")V"@);
}

/// How a call of the application ended.
#[derive(Clone, Copy, Debug, PartialEq, Eq, Structural)]
pub enum Outcome {
    /// The method ran and returned.
    Delivered,
    /// The thread could not be attached to the virtual machine.
    NotAttached,
    /// The callback object had been given up.
    Released,
    /// The virtual machine made no string for the argument at this place.
    StringRefused(usize),
    /// The method could not be called, or threw; then the pending exception was cleared, or that
    /// failed too.
    CallFailed {
        /// Whether the exception was cleared.
        cleared: bool,
    },
}

/// What a delivery does next.
#[derive(Clone, Copy, Debug, PartialEq, Eq, Structural)]
pub enum Stage {
    /// Attach the thread to the virtual machine.
    Attach,
    /// Make a Java string of the argument at this place.
    MakeString(usize),
    /// Call the method.
    Invoke,
    /// Clear the pending exception.
    ClearException,
    /// Nothing: the delivery has ended.
    Done(Outcome),
}

/// Is the argument at place `i` a text?
pub open spec fn is_text(args: Seq<JavaArgView>, i: int) -> bool {
    0 <= i < args.len() && args[i] is Text
}

/// What comes next when the strings before place `from` have been made: the string for the first
/// text from there on, or the call itself where there is none.
pub open spec fn stage_from(args: Seq<JavaArgView>, from: int) -> Stage
    decreases args.len() - from,
{
    if from >= args.len() {
        Stage::Invoke
    } else if is_text(args, from) {
        Stage::MakeString(from as usize)
    } else {
        stage_from(args, from + 1)
    }
}

/// The stage after `stage`, given whether what that stage asked for succeeded. `held` says whether
/// there still is a callback object.
pub open spec fn next_stage(
    args: Seq<JavaArgView>,
    held: bool,
    stage: Stage,
    succeeded: bool,
) -> Stage {
    match stage {
        Stage::Attach => if !succeeded {
            Stage::Done(Outcome::NotAttached)
        } else if !held {
            Stage::Done(Outcome::Released)
        } else {
            stage_from(args, 0)
        },
        Stage::MakeString(i) => if succeeded {
            stage_from(args, i + 1)
        } else {
            Stage::Done(Outcome::StringRefused(i))
        },
        Stage::Invoke => if succeeded {
            Stage::Done(Outcome::Delivered)
        } else {
            Stage::ClearException
        },
        Stage::ClearException => Stage::Done(Outcome::CallFailed { cleared: succeeded }),
        Stage::Done(outcome) => Stage::Done(outcome),
    }
}

/// The stage that a delivery has reached when its steps have succeeded or not as `replies` say.
pub open spec fn stage_after(args: Seq<JavaArgView>, held: bool, replies: Seq<bool>) -> Stage
    decreases replies.len(),
{
    if replies.len() == 0 {
        Stage::Attach
    } else {
        next_stage(args, held, stage_after(args, held, replies.drop_last()), replies.last())
    }
}

/// One more reply takes the delivery one stage further.
pub(crate) proof fn stage_after_reply(
    args: Seq<JavaArgView>,
    held: bool,
    replies: Seq<bool>,
    reply: bool,
)
    ensures
        stage_after(args, held, replies.push(reply)) == next_stage(
            args,
            held,
            stage_after(args, held, replies),
            reply,
        ),
{
    assert(replies.push(reply).drop_last() =~= replies);
}

/// One call of the application under way.
pub struct Delivery {
    /// The call.
    call: JavaCall,
    /// Whether there is a callback object to call.
    held: bool,
    /// What comes next.
    stage: Stage,
}

impl Delivery {
    /// The call that is made.
    pub closed spec fn call(&self) -> JavaCallView {
        self.call@
    }

    /// Whether there is a callback object to call.
    pub closed spec fn held(&self) -> bool {
        self.held
    }

    /// What comes next.
    pub closed spec fn stage(&self) -> Stage {
        self.stage
    }

    /// Begins a delivery.
    pub fn start(call: JavaCall, held: bool) -> (r: Delivery)
        ensures
            r.call() == call@,
            r.held() == held,
            r.stage() == Stage::Attach,
    {
        Delivery { call, held, stage: Stage::Attach }
    }

    /// The call that is made.
    pub fn java_call(&self) -> (r: &JavaCall)
        ensures
            r@ == self.call(),
    {
        &self.call
    }

    /// What comes next.
    pub fn next(&self) -> (r: Stage)
        ensures
            r == self.stage(),
    {
        self.stage
    }

    /// How the delivery ended, where it has.
    pub fn outcome(&self) -> (r: Option<Outcome>)
        ensures
            r == match self.stage() {
                Stage::Done(outcome) => Some(outcome),
                _ => None,
            },
    {
        match self.stage {
            Stage::Done(outcome) => Some(outcome),
            _ => None,
        }
    }

    /// The first string still to be made from place `from` on, or else the call itself.
    fn seek(&self, from: usize) -> (r: Stage)
        ensures
            r == stage_from(self.call().args, from as int),
    {
        let mut i: usize = from;
        while i < self.call.args.len()
            invariant
                stage_from(self.call().args, from as int) == stage_from(
                    self.call().args,
                    i as int,
                ),
            decreases self.call.args.len() - i,
        {
            if let JavaArg::Text(_) = &self.call.args[i] {
                return Stage::MakeString(i);
            }
            i = i + 1;
        }
        Stage::Invoke
    }

    /// Moves on, given whether what [`Delivery::next`] asked for succeeded.
    pub fn step(&mut self, succeeded: bool)
        ensures
            final(self).call() == old(self).call(),
            final(self).held() == old(self).held(),
            final(self).stage() == next_stage(
                old(self).call().args,
                old(self).held(),
                old(self).stage(),
                succeeded,
            ),
    {
        let stage = match self.stage {
            Stage::Attach => if !succeeded {
                Stage::Done(Outcome::NotAttached)
            } else if !self.held {
                Stage::Done(Outcome::Released)
            } else {
                self.seek(0)
            },
            Stage::MakeString(i) => if !succeeded {
                Stage::Done(Outcome::StringRefused(i))
            } else if i < self.call.args.len() {
                self.seek(i + 1)
            } else {
                Stage::Invoke
            },
            Stage::Invoke => if succeeded {
                Stage::Done(Outcome::Delivered)
            } else {
                Stage::ClearException
            },
            Stage::ClearException => Stage::Done(Outcome::CallFailed { cleared: succeeded }),
            Stage::Done(outcome) => Stage::Done(outcome),
        };
        self.stage = stage;
    }
}

/// How many more steps a delivery can take at most.
pub open spec fn steps_left(args: Seq<JavaArgView>, stage: Stage) -> int {
    match stage {
        Stage::Attach => args.len() as int + 3,
        Stage::MakeString(i) => args.len() - i + 2,
        Stage::Invoke => 2,
        Stage::ClearException => 1,
        Stage::Done(_) => 0,
    }
}

/// Where [`stage_from`] leads.
pub(crate) proof fn stage_from_is_ahead(args: Seq<JavaArgView>, from: int)
    requires
        0 <= from <= args.len() <= usize::MAX,
    ensures
        match stage_from(args, from) {
            Stage::MakeString(i) => from <= i < args.len() && is_text(args, i as int),
            Stage::Invoke => true,
            _ => false,
        },
    decreases args.len() - from,
{
    if from < args.len() && !is_text(args, from) {
        stage_from_is_ahead(args, from + 1);
    }
}

/// What holds of every stage that a delivery reaches.
pub(crate) proof fn stages_are_in_range(args: Seq<JavaArgView>, held: bool, replies: Seq<bool>)
    requires
        args.len() <= usize::MAX,
    ensures
        stage_after(args, held, replies) matches Stage::MakeString(i) ==> is_text(args, i as int),
        stage_after(args, held, replies) matches Stage::Done(Outcome::StringRefused(i)) ==> is_text(
            args,
            i as int,
        ),
        0 <= steps_left(args, stage_after(args, held, replies)),
        replies.len() <= args.len() + 3 ==> steps_left(args, stage_after(args, held, replies))
            <= args.len() + 3 - replies.len(),
        replies.len() >= args.len() + 3 ==> stage_after(args, held, replies) is Done,
    decreases replies.len(),
{
    if replies.len() > 0 {
        let before = replies.drop_last();
        stages_are_in_range(args, held, before);
        stage_from_is_ahead(args, 0);
        match stage_after(args, held, before) {
            Stage::MakeString(i) => {
                stage_from_is_ahead(args, i + 1);
            },
            _ => {},
        }
    }
}

/// Every delivery ends, whatever succeeds and whatever fails: after at most three steps more than
/// the call has arguments nothing is left to do.
pub proof fn delivery_ends(args: Seq<JavaArgView>, held: bool, replies: Seq<bool>)
    requires
        args.len() <= usize::MAX,
        replies.len() >= args.len() + 3,
    ensures
        stage_after(args, held, replies) is Done,
{
    stages_are_in_range(args, held, replies);
}

/// Once the callback object has been given up the application is never called again: no string is
/// made for it and no method is invoked.
pub proof fn released_object_is_never_called(args: Seq<JavaArgView>, replies: Seq<bool>)
    ensures
        ({
            let stage = stage_after(args, false, replies);
            ||| stage == Stage::Attach
            ||| stage == Stage::Done(Outcome::NotAttached)
            ||| stage == Stage::Done(Outcome::Released)
        }),
    decreases replies.len(),
{
    if replies.len() > 0 {
        released_object_is_never_called(args, replies.drop_last());
    }
}

/// A call counts as delivered only where every single step of it succeeded.
pub proof fn delivered_means_all_succeeded(args: Seq<JavaArgView>, held: bool, replies: Seq<bool>)
    requires
        args.len() <= usize::MAX,
        stage_after(args, held, replies) == Stage::Done(Outcome::Delivered),
    ensures
        held,
        exists|n: int|
            0 < n <= replies.len() && stage_after(args, held, replies.take(n - 1)) == Stage::Invoke
                && #[trigger] all_true(replies.take(n)),
    decreases replies.len(),
{
    let before = replies.drop_last();
    let n = replies.len() as int;
    assert(before =~= replies.take(n - 1));
    assert(replies.take(n) =~= replies);
    stage_from_is_ahead(args, 0);
    match stage_after(args, held, before) {
        Stage::MakeString(i) => {
            stages_are_in_range(args, held, before);
            stage_from_is_ahead(args, i + 1);
        },
        Stage::Done(_) => {
            delivered_means_all_succeeded(args, held, before);
            let m = choose|m: int|
                0 < m <= before.len() && stage_after(args, held, before.take(m - 1))
                    == Stage::Invoke && #[trigger] all_true(before.take(m));
            assert(before.take(m) =~= replies.take(m));
            assert(before.take(m - 1) =~= replies.take(m - 1));
            assert(all_true(replies.take(m)));
        },
        Stage::Invoke => {
            invoke_means_all_succeeded(args, held, before);
            assert(all_true(replies.take(n)));
        },
        _ => {},
    }
}

/// Is every element `true`?
pub open spec fn all_true(replies: Seq<bool>) -> bool {
    forall|i: int| 0 <= i < replies.len() ==> replies[i]
}

/// The call itself, and each string for it, is reached only through success.
proof fn invoke_means_all_succeeded(args: Seq<JavaArgView>, held: bool, replies: Seq<bool>)
    requires
        args.len() <= usize::MAX,
        stage_after(args, held, replies) is Invoke || stage_after(args, held, replies)
            is MakeString || stage_after(args, held, replies) is Attach,
    ensures
        all_true(replies),
        !(stage_after(args, held, replies) is Attach) ==> held,
    decreases replies.len(),
{
    if replies.len() > 0 {
        let before = replies.drop_last();
        stage_from_is_ahead(args, 0);
        stages_are_in_range(args, held, before);
        match stage_after(args, held, before) {
            Stage::MakeString(i) => {
                stage_from_is_ahead(args, i + 1);
            },
            _ => {},
        }
        invoke_means_all_succeeded(args, held, before);
        assert forall|i: int| 0 <= i < replies.len() implies replies[i] by {
            if i < before.len() {
                assert(before[i]);
            }
        }
    }
}

/// What is said of an argument is said of its value.
pub proof fn argument_shows_its_value(flag: bool, number: i32, text: String)
    ensures
        JavaArg::Bool(flag)@ == JavaArgView::Bool(flag),
        JavaArg::Int(number)@ == JavaArgView::Int(number as int),
        JavaArg::Text(text)@ == JavaArgView::Text(text@),
{
}

/// What is said of a call is said of its method, its descriptor and its arguments.
pub proof fn call_shows_its_fields(call: JavaCall)
    ensures
        call@.method == call.method@,
        call@.signature == call.signature@,
        call@.args.len() == call.args@.len(),
        forall|i: int| 0 <= i < call.args@.len() ==> #[trigger] call@.args[i] == call.args@[i]@,
{
}

/// A connection is told by `connectComplete`, with the very flag and address that are to be told.
pub proof fn connection_is_told(reconnect: bool, server_uri: Seq<char>)
    ensures
        ({
            let call = connect_complete_call(reconnect, server_uri);
            &&& call.method == "connectComplete"@
            &&& call.signature == "(ZLjava/lang/String;)V"@
            &&& call.args.len() == 2
            &&& call.args[0] == JavaArgView::Bool(reconnect)
            &&& call.args[1] == JavaArgView::Text(server_uri)
        }),
{
}

/// A lost connection is told by `connectionLost`, with the very cause.
pub proof fn loss_is_told(cause: Seq<char>)
    ensures
        ({
            let call = connection_lost_call(cause);
            &&& call.method == "connectionLost"@
            &&& call.signature == "(Ljava/lang/String;)V"@
            &&& call.args.len() == 1
            &&& call.args[0] == JavaArgView::Text(cause)
        }),
{
}

/// A message is handed over by `onMsg`, with the very topic first and the very content after it.
pub proof fn message_is_told(topic: Seq<char>, message: Seq<char>)
    ensures
        ({
            let call = on_msg_call(topic, message);
            &&& call.method == "onMsg"@
            &&& call.signature == "(Ljava/lang/String;Ljava/lang/String;)V"@
            &&& call.args.len() == 2
            &&& call.args[0] == JavaArgView::Text(topic)
            &&& call.args[1] == JavaArgView::Text(message)
        }),
{
}

/// An error is reported by `onError`, with the very code and message.
pub proof fn error_is_told(code: int, message: Seq<char>)
    ensures
        ({
            let call = on_error_call(code, message);
            &&& call.method == "onError"@
            &&& call.signature == "(ILjava/lang/String;)V"@
            &&& call.args.len() == 2
            &&& call.args[0] == JavaArgView::Int(code)
            &&& call.args[1] == JavaArgView::Text(message)
        }),
{
}

/// A delivery begins with attaching the thread. Without that it is over; without a callback object it
/// is over after that.
pub proof fn delivery_begins_with_attaching(args: Seq<JavaArgView>, held: bool)
    ensures
        stage_after(args, held, Seq::empty()) == Stage::Attach,
        next_stage(args, held, Stage::Attach, false) == Stage::Done(Outcome::NotAttached),
        next_stage(args, false, Stage::Attach, true) == Stage::Done(Outcome::Released),
        args.len() == 0 ==> next_stage(args, true, Stage::Attach, true) == Stage::Invoke,
{
}

/// Where the strings before a place have been made, the next one to be made is the first text from
/// there on; and the call comes exactly where no text is left.
pub proof fn strings_are_made_in_order(args: Seq<JavaArgView>, from: int)
    requires
        0 <= from <= args.len() <= usize::MAX,
    ensures
        match stage_from(args, from) {
            Stage::MakeString(i) => from <= i < args.len() && args[i as int] is Text && forall|
                j: int,
            |
                from <= j < i ==> !(#[trigger] args[j] is Text),
            Stage::Invoke => forall|j: int| from <= j < args.len() ==> !(#[trigger] args[j] is Text),
            _ => false,
        },
    decreases args.len() - from,
{
    if from < args.len() && !is_text(args, from) {
        strings_are_made_in_order(args, from + 1);
    }
}

/// After a string has been made comes the next one, or the call; one that is refused ends the delivery.
/// A call that returns ends it too, and one that fails is followed by clearing the exception.
pub proof fn stages_follow_each_other(args: Seq<JavaArgView>, held: bool, i: usize, outcome: Outcome)
    ensures
        next_stage(args, held, Stage::MakeString(i), true) == stage_from(args, i + 1),
        next_stage(args, held, Stage::MakeString(i), false) == Stage::Done(
            Outcome::StringRefused(i),
        ),
        next_stage(args, held, Stage::Invoke, true) == Stage::Done(Outcome::Delivered),
        next_stage(args, held, Stage::Invoke, false) == Stage::ClearException,
        forall|cleared: bool| #[trigger]
            next_stage(args, held, Stage::ClearException, cleared) == Stage::Done(
                Outcome::CallFailed { cleared },
            ),
        forall|reply: bool| #[trigger]
            next_stage(args, held, Stage::Done(outcome), reply) == Stage::Done(outcome),
        next_stage(args, true, Stage::Attach, true) == stage_from(args, 0),
{
}

} // verus!
