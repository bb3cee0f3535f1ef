//! The trusted boundary into the host runtime.
//!
//! Everything the bridge asks of the host runtime goes through this module:
//! each function here wraps one boundary invocation of the `jni` crate and
//! is the single place its callers share. The wrappers return `Option` or
//! `bool` — absence means the boundary call failed — and the verified
//! adapter code around them turns each failure into the precise bridge
//! error. A wrapper promises nothing the host does not: results that only
//! the host determines (whether a call succeeds, what a comparison says)
//! are left open, and only what is a function of the arguments alone is
//! named.

use jni::objects::{GlobalRef, JClass, JObject, JValue};
use jni::{JNIEnv, JavaVM};
use vstd::prelude::*;

use crate::event::EVENT_COUNT;

verus! {

#[verifier::external_type_specification]
#[verifier::external_body]
pub struct ExJavaVM(JavaVM);

#[verifier::external_type_specification]
#[verifier::external_body]
pub struct ExJNIEnv<'a>(JNIEnv<'a>);

#[verifier::external_type_specification]
#[verifier::external_body]
pub struct ExGlobalRef(GlobalRef);

/// A short-lived host object reference, valid while the current thread's
/// binding into the host runtime is.
#[verifier::external_body]
pub struct HostObject<'a> {
    obj: JObject<'a>,
}

/// The text a host string object holds: a function of the text it was
/// created from alone.
pub uninterp spec fn host_string_text(o: HostObject) -> Seq<char>;

/// What a host candidate object denotes: the (mid, m-line index,
/// description) triple it was constructed from.
pub uninterp spec fn candidate_view(o: HostObject) -> (Seq<char>, int, Seq<char>);

/// The fully qualified name of the host type a cached descriptor resolves.
pub uninterp spec fn class_of(g: GlobalRef) -> Seq<char>;

/// Whether a host object reference is the absent (null) object.
pub uninterp spec fn is_null_object(o: HostObject) -> bool;

/// The ordinal a resolved host enumeration value stands for.
pub uninterp spec fn event_object_ordinal(o: HostObject) -> int;

/// The identity of the host object a short-lived reference points to.
pub uninterp spec fn object_id(o: HostObject) -> int;

/// The identity of the host object a pinned reference points to.
pub uninterp spec fn ref_object_id(g: GlobalRef) -> int;

/// The native media stream a pinned host media-stream object wraps.
pub uninterp spec fn media_stream_native(g: GlobalRef) -> int;

/// An ordered host-side collection of candidate objects, held alive by a
/// long-lived reference so it can be built up and then handed across the
/// boundary.
pub struct CandidateList {
    list: GlobalRef,
}

/// What the host-side collection holds, in order.
pub uninterp spec fn list_model(l: CandidateList) -> Seq<(Seq<char>, int, Seq<char>)>;

/// Relies on `JavaVM::get_env` of the `jni` crate: the binding of the
/// current thread, if the thread is already attached.
#[verifier::external_body]
pub(crate) fn vm_get_env<'a>(vm: &'a JavaVM) -> (r: Option<JNIEnv<'a>>) {
    vm.get_env().ok()
}

/// Relies on `JavaVM::attach_current_thread_as_daemon` of the `jni` crate:
/// binds the current thread into the host runtime as a non-blocking
/// background participant; a no-op on an already attached thread.
#[verifier::external_body]
pub(crate) fn vm_attach_daemon<'a>(vm: &'a JavaVM) -> (r: Option<JNIEnv<'a>>) {
    vm.attach_current_thread_as_daemon().ok()
}

/// Relies on `JNIEnv::get_java_vm` of the `jni` crate: the runtime this
/// binding belongs to.
#[verifier::external_body]
pub(crate) fn env_get_vm(env: &JNIEnv) -> (r: Option<JavaVM>) {
    env.get_java_vm().ok()
}

/// Relies on `GlobalRef::clone` of the `jni` crate: the clone shares the
/// same underlying host reference, so it denotes the same value.
#[verifier::external_body]
pub(crate) fn clone_ref(g: &GlobalRef) -> (r: GlobalRef)
    ensures
        r == *g,
{
    g.clone()
}

/// Relies on `JNIEnv::find_class` and `JNIEnv::new_global_ref` of the `jni`
/// crate: resolves a host type by its fully qualified name and pins the
/// descriptor for later use.
#[verifier::external_body]
pub(crate) fn find_class_ref<'a>(env: &JNIEnv<'a>, name: &str) -> (r: Option<GlobalRef>)
    ensures
        r matches Some(g) ==> class_of(g) == name@,
{
    let cls = env.find_class(name).ok()?;
    env.new_global_ref(cls.into()).ok()
}

/// Relies on `JNIEnv::new_string` of the `jni` crate: builds a host string
/// object holding exactly the given text.
#[verifier::external_body]
pub(crate) fn new_host_string<'a>(env: &JNIEnv<'a>, text: &str) -> (r: Option<HostObject<'a>>)
    ensures
        r matches Some(o) ==> host_string_text(o) == text@,
{
    let s = env.new_string(text).ok()?;
    Some(HostObject { obj: JObject::from(s) })
}

/// Relies on `JNIEnv::new_object` of the `jni` crate: constructs a host
/// candidate object from a mid string, an m-line index and a description
/// string, through the host candidate type's three-argument constructor.
#[verifier::external_body]
pub(crate) fn new_candidate_object<'a>(
    env: &JNIEnv<'a>,
    candidate_class: &GlobalRef,
    mid: HostObject<'a>,
    mline: i32,
    sdp: HostObject<'a>,
) -> (r: Option<HostObject<'a>>)
    ensures
        r matches Some(o) ==> candidate_view(o) == (host_string_text(mid), mline as int, host_string_text(sdp)),
{
    let args = [JValue::Object(mid.obj), JValue::Int(mline), JValue::Object(sdp.obj)];
    let cls = JClass::from(candidate_class.as_obj());
    let obj = env.new_object(cls, "(Ljava/lang/String;ILjava/lang/String;)V", &args).ok()?;
    Some(HostObject { obj })
}

/// Relies on `JNIEnv::new_object` and `JNIEnv::new_global_ref` of the `jni`
/// crate: constructs the host's ordered linked-list collection, which
/// starts empty, and pins it.
#[verifier::external_body]
pub(crate) fn new_candidate_list<'a>(env: &JNIEnv<'a>) -> (r: Option<CandidateList>)
    ensures
        r matches Some(l) ==> list_model(l) == Seq::<(Seq<char>, int, Seq<char>)>::empty(),
{
    let list = env.new_object("java/util/LinkedList", "()V", &[]).ok()?;
    let list = env.new_global_ref(list).ok()?;
    Some(CandidateList { list })
}

/// Relies on `JNIEnv::call_method` of the `jni` crate, invoking the host
/// collection's `add` method: appends one element at the end, keeping the
/// order of insertion.
#[verifier::external_body]
pub(crate) fn candidate_list_add<'a>(
    list: &mut CandidateList,
    env: &JNIEnv<'a>,
    obj: HostObject<'a>,
) -> (r: bool)
    ensures
        r ==> list_model(*final(list)) == list_model(*old(list)).push(candidate_view(obj)),
{
    let args = [JValue::Object(obj.obj)];
    env.call_method(list.list.as_obj(), "add", "(Ljava/lang/Object;)Z", &args).is_ok()
}

/// Relies on `JNIEnv::call_method` of the `jni` crate: invokes a void host
/// method that takes a single object argument. Used for the close, media
/// detach and call-concluded notifications.
#[verifier::external_body]
pub(crate) fn call_void_object_arg(
    env: &JNIEnv,
    mgr: &GlobalRef,
    method: &str,
    sig: &str,
    arg: &GlobalRef,
) -> (r: bool) {
    let args = [JValue::Object(arg.as_obj())];
    env.call_method(mgr.as_obj(), method, sig, &args).is_ok()
}

/// Relies on `JNIEnv::call_method` of the `jni` crate: invokes a void host
/// method taking the remote peer and one further object argument. Used for
/// the event notification.
#[verifier::external_body]
pub(crate) fn call_void_remote_object(
    env: &JNIEnv,
    mgr: &GlobalRef,
    method: &str,
    sig: &str,
    remote: &GlobalRef,
    obj: HostObject,
) -> (r: bool) {
    let args = [JValue::Object(remote.as_obj()), JValue::Object(obj.obj)];
    env.call_method(mgr.as_obj(), method, sig, &args).is_ok()
}

/// Relies on `JNIEnv::call_method` of the `jni` crate, invoking the host's
/// `onConnectMedia`: notifies the host to attach a media stream to a call
/// context.
#[verifier::external_body]
pub(crate) fn call_connect_media(
    env: &JNIEnv,
    mgr: &GlobalRef,
    ctx: &GlobalRef,
    stream: &GlobalRef,
) -> (r: bool) {
    let args = [JValue::Object(ctx.as_obj()), JValue::Object(stream.as_obj())];
    env.call_method(
        mgr.as_obj(),
        "onConnectMedia",
        "(Lorg/signal/ringrtc/CallManager$CallContext;Lorg/webrtc/MediaStream;)V",
        &args,
    ).is_ok()
}

/// Relies on `JNIEnv::call_method` of the `jni` crate, invoking the host's
/// `onStartCall`: notifies the host that a call has begun.
#[verifier::external_body]
pub(crate) fn call_start_call(
    env: &JNIEnv,
    mgr: &GlobalRef,
    remote: &GlobalRef,
    call_id: i64,
    is_outgoing: bool,
) -> (r: bool) {
    let args = [
        JValue::Object(remote.as_obj()),
        JValue::Long(call_id),
        JValue::Bool(is_outgoing as u8),
    ];
    env.call_method(mgr.as_obj(), "onStartCall", "(Lorg/signal/ringrtc/Remote;JZ)V", &args).is_ok()
}

/// Relies on `JNIEnv::call_method` of the `jni` crate: invokes a void host
/// signaling method carrying a session-description string object. Used for
/// the offer and answer notifications, which share one parameter encoding.
#[verifier::external_body]
pub(crate) fn call_signaling_text(
    env: &JNIEnv,
    mgr: &GlobalRef,
    method: &str,
    call_id: i64,
    remote: &GlobalRef,
    device: i32,
    broadcast: bool,
    text: HostObject,
) -> (r: bool) {
    let args = [
        JValue::Long(call_id),
        JValue::Object(remote.as_obj()),
        JValue::Int(device),
        JValue::Bool(broadcast as u8),
        JValue::Object(text.obj),
    ];
    env.call_method(mgr.as_obj(), method, "(JLorg/signal/ringrtc/Remote;IZLjava/lang/String;)V", &args)
        .is_ok()
}

/// Relies on `JNIEnv::call_method` of the `jni` crate: invokes a void host
/// signaling method with no payload beyond the connection identity. Used
/// for the hangup and busy notifications, which share one parameter
/// encoding.
#[verifier::external_body]
pub(crate) fn call_signaling_plain(
    env: &JNIEnv,
    mgr: &GlobalRef,
    method: &str,
    call_id: i64,
    remote: &GlobalRef,
    device: i32,
    broadcast: bool,
) -> (r: bool) {
    let args = [
        JValue::Long(call_id),
        JValue::Object(remote.as_obj()),
        JValue::Int(device),
        JValue::Bool(broadcast as u8),
    ];
    env.call_method(mgr.as_obj(), method, "(JLorg/signal/ringrtc/Remote;IZ)V", &args).is_ok()
}

/// Relies on `JNIEnv::call_method` of the `jni` crate, invoking the host's
/// `onSendIceCandidates` with the constructed ordered collection.
#[verifier::external_body]
pub(crate) fn call_send_ice_candidates(
    env: &JNIEnv,
    mgr: &GlobalRef,
    call_id: i64,
    remote: &GlobalRef,
    device: i32,
    broadcast: bool,
    list: &CandidateList,
) -> (r: bool) {
    let args = [
        JValue::Long(call_id),
        JValue::Object(remote.as_obj()),
        JValue::Int(device),
        JValue::Bool(broadcast as u8),
        JValue::Object(list.list.as_obj()),
    ];
    env.call_method(
        mgr.as_obj(),
        "onSendIceCandidates",
        "(JLorg/signal/ringrtc/Remote;IZLjava/util/List;)V",
        &args,
    ).is_ok()
}

/// Relies on `JNIEnv::call_method` of the `jni` crate, invoking the host's
/// `createConnection` factory: asks the host to materialize a connection
/// object, which may come back absent (null).
#[verifier::external_body]
pub(crate) fn call_create_connection<'a>(
    env: &JNIEnv<'a>,
    mgr: &GlobalRef,
    native_connection: i64,
    call_id: i64,
    device: i32,
    ctx: &GlobalRef,
) -> (r: Option<HostObject<'a>>) {
    let args = [
        JValue::Long(native_connection),
        JValue::Long(call_id),
        JValue::Int(device),
        JValue::Object(ctx.as_obj()),
    ];
    env.call_method(
        mgr.as_obj(),
        "createConnection",
        "(JJILorg/signal/ringrtc/CallManager$CallContext;)Lorg/signal/ringrtc/Connection;",
        &args,
    ).and_then(|v| v.l()).ok().map(|obj| HostObject { obj })
}

/// Relies on `JObject::into_inner` of the `jni` crate: a host reference is
/// absent exactly when it wraps the null object.
#[verifier::external_body]
pub(crate) fn object_is_null(o: &HostObject) -> (r: bool)
    ensures
        r == is_null_object(*o),
{
    o.obj.into_inner().is_null()
}

/// Relies on `JNIEnv::new_global_ref` of the `jni` crate: pins a host
/// object so the reference outlives the current boundary call; the pinned
/// reference refers to the very object that was handed in.
#[verifier::external_body]
pub(crate) fn new_global_ref<'a>(env: &JNIEnv<'a>, o: HostObject<'a>) -> (r: Option<GlobalRef>)
    ensures
        r matches Some(g) ==> ref_object_id(g) == object_id(o),
{
    env.new_global_ref(o.obj).ok()
}

/// Relies on `JNIEnv::call_static_method` of the `jni` crate, invoking the
/// host enumeration's `fromNativeIndex` lookup: the host's enumeration is
/// the single source of truth for its own representation, and a defined
/// ordinal resolves to the host enumeration value standing for exactly
/// that ordinal. Undefined ordinals are left out: the host lookup is owed
/// a value only for the enumeration's own range.
#[verifier::external_body]
pub(crate) fn call_event_lookup<'a>(
    env: &JNIEnv<'a>,
    event_class: &GlobalRef,
    ordinal: i32,
) -> (r: Option<HostObject<'a>>)
    requires
        0 <= ordinal < EVENT_COUNT,
    ensures
        r matches Some(o) ==> event_object_ordinal(o) == ordinal as int,
{
    let args = [JValue::Int(ordinal)];
    let cls = JClass::from(event_class.as_obj());
    env.call_static_method(
        cls,
        "fromNativeIndex",
        "(I)Lorg/signal/ringrtc/CallManager$CallEvent;",
        &args,
    ).and_then(|v| v.l()).ok().map(|obj| HostObject { obj })
}

/// Relies on `JNIEnv::call_method` of the `jni` crate, invoking the host's
/// `compareRemotes` entry point: the host alone decides whether two remote
/// peer references denote the same participant.
#[verifier::external_body]
pub(crate) fn call_compare_remotes(
    env: &JNIEnv,
    mgr: &GlobalRef,
    remote1: &GlobalRef,
    remote2: &GlobalRef,
) -> (r: Option<bool>) {
    let args = [JValue::Object(remote1.as_obj()), JValue::Object(remote2.as_obj())];
    env.call_method(
        mgr.as_obj(),
        "compareRemotes",
        "(Lorg/signal/ringrtc/Remote;Lorg/signal/ringrtc/Remote;)Z",
        &args,
    ).and_then(|v| v.z()).ok()
}

/// Relies on `JNIEnv::new_object` and `JNIEnv::new_global_ref` of the `jni`
/// crate: materializes the host media-stream object over exactly the given
/// native stream, through the host media-stream type's single-argument
/// constructor, and pins it for exposure to the host object model.
#[verifier::external_body]
pub(crate) fn wrap_media_stream<'a>(env: &JNIEnv<'a>, native_stream: i64) -> (r: Option<GlobalRef>)
    ensures
        r matches Some(g) ==> media_stream_native(g) == native_stream as int,
{
    let args = [JValue::Long(native_stream)];
    let obj = env.new_object("org/webrtc/MediaStream", "(J)V", &args).ok()?;
    env.new_global_ref(obj).ok()
}

} // verus!
