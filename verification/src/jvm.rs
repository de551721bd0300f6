//! The virtual machine, as the `jni` crate shows it.
//!
//! The items that name a function of that crate are believed, not proved. What a virtual machine
//! answers is up to it, so most of them promise nothing of the answer; a Java string is immutable,
//! which is what [`java_text`] rests on. What was asked, and whether or what was answered, is kept:
//! as the [`exchanges`] of the environment that it was asked through, and as a [`Refusal`] where
//! there is no environment to keep it. This is bookkeeping of the calls, not a claim about the
//! answers.

use jni::objects::{GlobalRef, JByteArray, JObject, JObjectArray, JString, JValue, JValueGen};
use jni::JNIEnv;
use vstd::prelude::*;

use crate::calls::JavaCall;

verus! {

use crate::calls::{well_typed, JavaArgView, JavaCallView};

/// A handle on the virtual machine that any thread may use.
#[verifier::external_type_specification]
#[verifier::external_body]
pub struct ExJavaVM(jni::JavaVM);

/// What an attached thread talks to the virtual machine through.
#[verifier::external_type_specification]
#[verifier::external_body]
pub struct ExJNIEnv<'local>(JNIEnv<'local>);

/// What a [`JObject`] dereferences to.
#[verifier::external_type_specification]
#[verifier::external_body]
pub struct ExRawObject(jni::sys::_jobject);

/// A reference to a Java object.
#[verifier::external_type_specification]
#[verifier::external_body]
pub struct ExJObject<'local>(JObject<'local>);

/// A reference to a Java array of objects.
#[verifier::external_type_specification]
#[verifier::external_body]
pub struct ExJObjectArray<'local>(JObjectArray<'local>);

/// A reference that keeps a Java object alive across calls and threads.
#[verifier::external_type_specification]
#[verifier::external_body]
pub struct ExGlobalRef(GlobalRef);

/// An argument of a Java method.
#[verifier::external_type_specification]
#[verifier::external_body]
#[verifier::reject_recursive_types(O)]
pub struct ExJValueGen<O>(JValueGen<O>);

/// Why a request to the virtual machine failed.
#[verifier::external_type_specification]
#[verifier::external_body]
pub struct ExError(jni::errors::Error);

/// A reference to a Java `byte[]`. The field is open to the program around the library, which gets
/// the array from the virtual machine; nothing here looks inside.
#[verifier::external_body]
pub struct ByteArray<'local> {
    pub array: JByteArray<'local>,
}

/// Something asked of the virtual machine through an environment, and what came of it. An object is
/// told by [`java_object`].
pub enum Exchange {
    /// The text of a Java string was asked for, and came or not.
    ReadString { string: Option<int>, text: Option<Seq<char>> },
    /// A copy of a Java `byte[]` was asked for, and came or not.
    CopyBytes { array: Option<int>, bytes: Option<Seq<u8>> },
    /// The length of a Java array of objects was asked for, and came or not.
    ArrayLength { array: Option<int>, length: Option<int> },
    /// The element at a place of a Java array of objects was asked for, and came or not.
    ArrayElement { array: Option<int>, index: int, element: Option<Option<int>> },
    /// A Java string was to be made, and was made or not.
    MakeString { content: Seq<char>, made: bool },
    /// A method was called, and returned; or it was not found, or threw.
    CallMethod { object: Option<int>, call: JavaCallView, returned: bool },
    /// The pending exception was to be cleared, and was cleared or not.
    ClearException { cleared: bool },
}

/// Something asked of the virtual machine without an environment, or of the machine itself.
pub enum MachineRequest {
    /// A handle on the machine was asked for.
    GetJavaVm { machine: jni::JavaVM },
    /// A global reference to an object was asked for.
    NewGlobalRef { object: Option<int> },
    /// A thread was to be attached to the machine.
    Attach { machine: jni::JavaVM },
}

/// What was asked through this environment since it was obtained, in order.
pub uninterp spec fn exchanges(env: JNIEnv<'_>) -> Seq<Exchange>;

/// The virtual machine that this environment belongs to.
pub uninterp spec fn machine(env: JNIEnv<'_>) -> jni::JavaVM;

/// Which Java object this reference leads to; none where it is null.
pub uninterp spec fn java_object(object: JObject<'_>) -> Option<int>;

/// Which Java array this reference leads to; none where it is null.
pub uninterp spec fn java_array(array: JObjectArray<'_>) -> Option<int>;

/// Which Java `byte[]` this reference leads to; none where it is null.
pub uninterp spec fn java_bytes(array: ByteArray<'_>) -> Option<int>;

/// Which Java object this global reference leads to; none where it is null.
pub uninterp spec fn global_object(global_ref: GlobalRef) -> Option<int>;

/// Which Java object this global reference was asked for.
pub uninterp spec fn global_source(global_ref: GlobalRef) -> Option<int>;

/// The text that reading the Java string behind this reference gives.
pub uninterp spec fn java_text(object: JObject<'_>) -> Seq<char>;

/// What this argument passes to a Java method.
pub uninterp spec fn java_value(value: JValueGen<&JObject<'_>>) -> JavaArgView;

/// The proof that the virtual machine refused a request. Only the functions here that make the
/// request write one.
pub struct Refusal {
    error: jni::errors::Error,
    request: Ghost<MachineRequest>,
}

impl Refusal {
    /// What was refused.
    pub closed spec fn request(&self) -> MachineRequest {
        self.request@
    }

    /// Why.
    pub closed spec fn cause(&self) -> jni::errors::Error {
        self.error
    }

    /// Why it was refused.
    pub fn error(&self) -> (r: &jni::errors::Error)
        ensures
            *r == self.cause(),
    {
        &self.error
    }
}

/// All that was asked through an environment that has been given up.
pub struct Transcript {
    what: Ghost<(jni::JavaVM, Seq<Exchange>)>,
}

impl Transcript {
    /// The virtual machine that was asked.
    pub closed spec fn machine(&self) -> jni::JavaVM {
        self.what@.0
    }

    /// What was asked of it.
    pub closed spec fn exchanges(&self) -> Seq<Exchange> {
        self.what@.1
    }

    /// Gives an environment up: nothing more can be asked through it.
    pub(crate) fn conclude(env: JNIEnv<'_>) -> (r: Transcript)
        ensures
            r.machine() == machine(env),
            r.exchanges() == exchanges(env),
    {
        Transcript { what: Ghost((machine(env), exchanges(env))) }
    }
}

/// `JObject::is_null`: whether the reference is null.
#[verifier::external_body]
pub(crate) fn is_null(object: &JObject<'_>) -> (r: bool)
    ensures
        r == (java_object(*object) is None),
{
    object.is_null()
}

/// `<JObjectArray as AsRef<JObject>>::as_ref`: the array as an object.
#[verifier::external_body]
pub(crate) fn array_as_object<'call, 'local>(array: &'call JObjectArray<'local>) -> (r:
    &'call JObject<'local>)
    ensures
        java_object(*r) == java_array(*array),
{
    array.as_ref()
}

/// `<JByteArray as AsRef<JObject>>::as_ref`: the array as an object.
#[verifier::external_body]
pub(crate) fn bytes_as_object<'call, 'local>(array: &'call ByteArray<'local>) -> (r:
    &'call JObject<'local>)
    ensures
        java_object(*r) == java_bytes(*array),
{
    array.array.as_ref()
}

/// `JNIEnv::get_java_vm`: a handle on the virtual machine that `env` belongs to.
#[verifier::external_body]
pub(crate) fn get_java_vm(env: &JNIEnv<'_>) -> (r: Result<jni::JavaVM, Refusal>)
    ensures
        match r {
            Ok(java_vm) => java_vm == machine(*env),
            Err(refusal) => refusal.request() == (MachineRequest::GetJavaVm {
                machine: machine(*env),
            }),
        },
{
    env.get_java_vm().map_err(
        |error| Refusal {
            error,
            request: Ghost(MachineRequest::GetJavaVm { machine: machine(*env) }),
        },
    )
}

/// `JNIEnv::new_global_ref`: a global reference to the object behind `object`, or a null one where
/// the virtual machine has no memory for it.
#[verifier::external_body]
pub(crate) fn new_global_ref(env: &JNIEnv<'_>, object: &JObject<'_>) -> (r: Result<
    GlobalRef,
    Refusal,
>)
    ensures
        match r {
            Ok(global_ref) => global_source(global_ref) == java_object(*object) && (global_object(
                global_ref,
            ) is None || global_object(global_ref) == java_object(*object)),
            Err(refusal) => refusal.request() == (MachineRequest::NewGlobalRef {
                object: java_object(*object),
            }),
        },
{
    env.new_global_ref(object).map_err(
        |error| Refusal {
            error,
            request: Ghost(MachineRequest::NewGlobalRef { object: java_object(*object) }),
        },
    )
}

/// `GlobalRef::as_obj`: the global reference as an object.
#[verifier::external_body]
pub(crate) fn global_as_object(global_ref: &GlobalRef) -> (r: &JObject<'static>)
    ensures
        java_object(*r) == global_object(*global_ref),
{
    global_ref.as_obj()
}

/// `JavaVM::attach_current_thread_as_daemon`: attaches this thread to that virtual machine for good;
/// a thread that is attached already stays as it is. Through the environment that comes back
/// nothing has been asked yet.
#[verifier::external_body]
pub(crate) fn attach_current_thread_as_daemon<'vm>(java_vm: &'vm jni::JavaVM) -> (r: Result<
    JNIEnv<'vm>,
    Refusal,
>)
    ensures
        match r {
            Ok(env) => machine(env) == *java_vm && exchanges(env).len() == 0,
            Err(refusal) => refusal.request() == (MachineRequest::Attach { machine: *java_vm }),
        },
{
    java_vm.attach_current_thread_as_daemon().map_err(
        |error| Refusal { error, request: Ghost(MachineRequest::Attach { machine: *java_vm }) },
    )
}

/// `JNIEnv::new_string`: makes a Java string. Where it succeeds, reading that string gives `text`
/// back.
#[verifier::external_body]
pub(crate) fn new_string<'local>(env: &mut JNIEnv<'local>, text: &str) -> (r: Result<
    JObject<'local>,
    jni::errors::Error,
>)
    ensures
        r matches Ok(object) ==> java_text(object) == text@,
        machine(*final(env)) == machine(*old(env)),
        exchanges(*final(env)) == exchanges(*old(env)).push(
            (Exchange::MakeString { content: text@, made: r is Ok }),
        ),
{
    env.new_string(text).map(JObject::from)
}

/// `JNIEnv::get_string`: asks for the text of a Java string.
#[verifier::external_body]
pub(crate) fn get_string(env: &mut JNIEnv<'_>, object: &JObject<'_>) -> (r: Result<
    String,
    jni::errors::Error,
>)
    ensures
        r matches Ok(text) ==> text@ == java_text(*object),
        machine(*final(env)) == machine(*old(env)),
        exchanges(*final(env)) == exchanges(*old(env)).push(
            (Exchange::ReadString {
                string: java_object(*object),
                text: match r {
                    Ok(text) => Some(text@),
                    Err(_) => None,
                },
            }),
        ),
{
    env.get_string(<&JString>::from(object)).map(String::from)
}

/// `JNIEnv::convert_byte_array`: asks for a copy of a Java `byte[]`. A Java array can be changed at
/// any time, so nothing is said of which bytes come.
#[verifier::external_body]
pub(crate) fn convert_byte_array(env: &mut JNIEnv<'_>, array: &ByteArray<'_>) -> (r: Result<
    Vec<u8>,
    jni::errors::Error,
>)
    ensures
        machine(*final(env)) == machine(*old(env)),
        exchanges(*final(env)) == exchanges(*old(env)).push(
            (Exchange::CopyBytes {
                array: java_bytes(*array),
                bytes: match r {
                    Ok(bytes) => Some(bytes@),
                    Err(_) => None,
                },
            }),
        ),
{
    env.convert_byte_array(&array.array)
}

/// `JNIEnv::get_array_length`: asks for the length of a Java array of objects.
#[verifier::external_body]
pub(crate) fn get_array_length(env: &mut JNIEnv<'_>, array: &JObjectArray<'_>) -> (r: Result<
    i32,
    jni::errors::Error,
>)
    ensures
        machine(*final(env)) == machine(*old(env)),
        exchanges(*final(env)) == exchanges(*old(env)).push(
            (Exchange::ArrayLength {
                array: java_array(*array),
                length: match r {
                    Ok(length) => Some(length as int),
                    Err(_) => None,
                },
            }),
        ),
{
    env.get_array_length(array)
}

/// `JNIEnv::get_object_array_element`: asks for a reference to the element at place `index` of a
/// Java array. A Java array can be changed at any time, so nothing is said of which element comes.
#[verifier::external_body]
pub(crate) fn get_object_array_element<'local>(
    env: &mut JNIEnv<'local>,
    array: &JObjectArray<'_>,
    index: i32,
) -> (r: Result<JObject<'local>, jni::errors::Error>)
    ensures
        machine(*final(env)) == machine(*old(env)),
        exchanges(*final(env)) == exchanges(*old(env)).push(
            (Exchange::ArrayElement {
                array: java_array(*array),
                index: index as int,
                element: match r {
                    Ok(element) => Some(java_object(element)),
                    Err(_) => None,
                },
            }),
        ),
{
    env.get_object_array_element(array, index)
}

/// `JValueGen::from(bool)`: a Java `boolean`.
#[verifier::external_body]
pub(crate) fn bool_value<'local, 'object>(value: bool) -> (r: JValueGen<&'object JObject<'local>>)
    ensures
        java_value(r) == JavaArgView::Bool(value),
{
    JValue::from(value)
}

/// `JValueGen::from(jint)`: a Java `int`.
#[verifier::external_body]
pub(crate) fn int_value<'local, 'object>(value: i32) -> (r: JValueGen<&'object JObject<'local>>)
    ensures
        java_value(r) == JavaArgView::Int(value as int),
{
    JValue::from(value)
}

/// `JValueGen::from(&JObject)`: a reference to a Java string.
#[verifier::external_body]
pub(crate) fn text_value<'local, 'object>(text: &'object JObject<'local>) -> (r: JValueGen<
    &'object JObject<'local>,
>)
    ensures
        java_value(r) == JavaArgView::Text(java_text(*text)),
{
    JValue::from(text)
}

/// `JNIEnv::call_method`: calls a method of the object behind `target` by its name and descriptor,
/// with `values` as its arguments. They have to be those of `call`, and to fit its descriptor: a
/// descriptor with a method among its arguments makes the function panic. It succeeds where the
/// method was found, ran and threw nothing.
#[verifier::external_body]
pub(crate) fn call_method(
    env: &mut JNIEnv<'_>,
    target: &GlobalRef,
    call: &JavaCall,
    values: &Vec<JValueGen<&JObject<'_>>>,
) -> (r: Result<(), jni::errors::Error>)
    requires
        well_typed(call@),
        values@.len() == call@.args.len(),
        forall|i: int| 0 <= i < values@.len() ==> java_value(#[trigger] values@[i]) == call@.args[i],
    ensures
        machine(*final(env)) == machine(*old(env)),
        exchanges(*final(env)) == exchanges(*old(env)).push(
            (Exchange::CallMethod {
                object: global_object(*target),
                call: call@,
                returned: r is Ok,
            }),
        ),
{
    env.call_method(target, call.method, call.signature, values.as_slice()).map(|_| ())
}

/// `JNIEnv::exception_clear`: clears the exception that is pending on this thread. It fails only
/// where the environment lacks the function for it.
#[verifier::external_body]
pub(crate) fn exception_clear(env: &mut JNIEnv<'_>) -> (r: Result<(), jni::errors::Error>)
    ensures
        machine(*final(env)) == machine(*old(env)),
        exchanges(*final(env)) == exchanges(*old(env)).push(
            (Exchange::ClearException { cleared: r is Ok }),
        ),
{
    env.exception_clear()
}

} // verus!
