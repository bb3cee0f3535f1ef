//! The platform adapter: the façade the native call engine drives.
//!
//! Every operation marshals its arguments into boundary form — identifiers
//! as fixed-width integers, directions as booleans, events as ordinals,
//! strings as host string objects, candidate sequences as ordered host
//! collections — makes sure the calling thread is bound into the host
//! runtime, performs one blocking boundary call, and reports any failure
//! as a precise bridge error. The adapter performs no call or connection
//! state-machine logic of its own: it is purely a translation and lifetime
//! layer.

use jni::objects::GlobalRef;
use jni::{JNIEnv, JavaVM};
use vstd::pervasive::unreached;
use vstd::prelude::*;

use crate::cache::ClassCache;
use crate::candidates::{build_candidate_list, IceCandidate};
use crate::error::BridgeError;
use crate::event::{ApplicationEvent, CallDirection};
use crate::ids::{call_id_to_jlong, device_id_to_jint, raw_handle_to_jlong, CallId, ConnectionId, DeviceId};
use crate::jvm::{
    call_compare_remotes, call_connect_media, call_create_connection, call_event_lookup,
    call_send_ice_candidates, call_signaling_plain, call_signaling_text, call_start_call,
    call_void_object_arg, call_void_remote_object, clone_ref, env_get_vm, is_null_object,
    new_global_ref, new_host_string, object_id, object_is_null, ref_object_id, vm_attach_daemon,
    vm_get_env, wrap_media_stream, HostObject,
};
use crate::lifecycle::Handle;

verus! {

/// A remote participant as the host hands it to the native engine: an
/// opaque host object reference the native side can never interpret or
/// compare itself — identity questions go back to the host through
/// `compare_remotes`.
pub type AndroidGlobalRef = GlobalRef;

/// A native media stream, handed over by the native engine as an opaque
/// address-sized token.
#[derive(Clone, Copy, Debug, PartialEq, Eq, Structural)]
pub struct MediaStream {
    pub native_stream: u64,
}

/// A native media stream prepared for exposure to the host object model;
/// its lifetime is owned by the connection that created it.
#[derive(Clone, Copy, Debug, PartialEq, Eq, Structural)]
pub struct AndroidMediaStream {
    pub native_stream: u64,
}

/// The per-call context resource: the bridge binding it was created
/// through, and the host's per-call context object.
struct JavaCallContext {
    platform: AndroidPlatform,
    jni_call_context: GlobalRef,
}

/// A reference-counted wrapper owning exactly one host per-call context
/// object. The host is notified through `closeCall` exactly once, when the
/// last owner releases, whichever thread that is.
pub struct AndroidCallContext {
    inner: Handle<JavaCallContext>,
}

/// The per-connection resource: the bridge binding it was created through,
/// and the host's per-connection object.
struct JavaConnection {
    platform: AndroidPlatform,
    jni_connection: GlobalRef,
}

/// A reference-counted wrapper owning exactly one host per-connection
/// object. The host is notified through `closeConnection` exactly once,
/// when the last owner releases, whichever thread that is.
pub struct AndroidConnection {
    inner: Handle<JavaConnection>,
}

/// The platform adapter: one process-wide binding into the host runtime,
/// the host call manager it talks to, and the descriptor cache populated
/// at construction.
pub struct AndroidPlatform {
    jvm: JavaVM,
    jni_call_manager: GlobalRef,
    class_cache: ClassCache,
}

impl AndroidPlatform {
    /// The host call manager this adapter forwards to.
    pub closed spec fn spec_call_manager(self) -> GlobalRef {
        self.jni_call_manager
    }

    /// The descriptor cache's contents: pairs of fully qualified type name
    /// and pinned descriptor, in the order they were resolved.
    pub closed spec fn spec_descriptors(self) -> Seq<(Seq<char>, GlobalRef)> {
        self.class_cache.entries_model()
    }

    /// The adapter is usable: its descriptor cache is sound and holds the
    /// descriptors resolved at construction — the host event enumeration
    /// and the host candidate type.
    pub closed spec fn wf(self) -> bool {
        &&& self.class_cache.wf()
        &&& self.class_cache.has_class("org/signal/ringrtc/CallManager$CallEvent"@)
        &&& self.class_cache.has_class("org/webrtc/IceCandidate"@)
    }

    /// Construct the adapter over an attached thread's binding and the
    /// host call manager, resolving every descriptor needed later. Fails
    /// fast with a resolution error naming the missing type, or with an
    /// attachment error if the runtime cannot be read back from the
    /// binding.
    pub fn new(env: &JNIEnv, jni_call_manager: GlobalRef) -> (r: Result<AndroidPlatform, BridgeError>)
        ensures
            r matches Ok(p) ==> p.wf() && p.spec_call_manager() == jni_call_manager,
            r matches Ok(p) ==> p.spec_descriptors().len() == 2 && p.spec_descriptors()[0].0
                == "org/signal/ringrtc/CallManager$CallEvent"@ && p.spec_descriptors()[1].0
                == "org/webrtc/IceCandidate"@,
            r matches Err(e) ==> e == BridgeError::RuntimeAttachFailed || (
            e matches BridgeError::ClassNotFound(n) && (n@
                == "org/signal/ringrtc/CallManager$CallEvent"@ || n@
                == "org/webrtc/IceCandidate"@)),
    {
        proof {
            reveal_strlit("org/signal/ringrtc/CallManager$CallEvent");
            reveal_strlit("org/webrtc/IceCandidate");
        }
        let mut class_cache = ClassCache::new();
        let event_class = String::from_str("org/signal/ringrtc/CallManager$CallEvent");
        match class_cache.add_class(env, &event_class) {
            Ok(_) => {},
            Err(e) => {
                return Err(e);
            },
        }
        let candidate_class = String::from_str("org/webrtc/IceCandidate");
        proof {
            assert(("org/signal/ringrtc/CallManager$CallEvent"@).len() != (
            "org/webrtc/IceCandidate"@).len());
            assert(class_cache.entries_model().len() == 1);
            assert(class_cache.entries_model()[0].0 == event_class@);
            assert(!class_cache.has_class(candidate_class@));
        }
        match class_cache.add_class(env, &candidate_class) {
            Ok(_) => {},
            Err(e) => {
                return Err(e);
            },
        }
        let jvm = match env_get_vm(env) {
            Some(v) => v,
            None => {
                return Err(BridgeError::RuntimeAttachFailed);
            },
        };
        Ok(AndroidPlatform { jvm, jni_call_manager, class_cache })
    }

    /// Bind the calling thread into the host runtime: reuse the thread's
    /// existing binding, or attach it as a non-blocking background
    /// participant. This is done on every boundary call, so any native
    /// thread may drive the adapter.
    fn java_env<'a>(&'a self) -> (r: Result<JNIEnv<'a>, BridgeError>)
        ensures
            r matches Err(e) ==> e == BridgeError::RuntimeAttachFailed,
    {
        match vm_get_env(&self.jvm) {
            Some(env) => Ok(env),
            None => match vm_attach_daemon(&self.jvm) {
                Some(env) => Ok(env),
                None => Err(BridgeError::RuntimeAttachFailed),
            },
        }
    }

    /// A second adapter handle over the same runtime, call manager and
    /// descriptors — a new binding, not a duplicate of host state — for an
    /// owner that needs its own handle into the runtime.
    pub fn try_clone(&self) -> (r: Result<AndroidPlatform, BridgeError>)
        requires
            self.wf(),
        ensures
            r matches Ok(p) ==> p.wf() && p.spec_call_manager() == self.spec_call_manager()
                && p.spec_descriptors() == self.spec_descriptors(),
            r matches Err(e) ==> e == BridgeError::RuntimeAttachFailed,
    {
        let env = match self.java_env() {
            Ok(env) => env,
            Err(e) => {
                return Err(e);
            },
        };
        let jvm = match env_get_vm(&env) {
            Some(v) => v,
            None => {
                return Err(BridgeError::RuntimeAttachFailed);
            },
        };
        let jni_call_manager = clone_ref(&self.jni_call_manager);
        let class_cache = self.class_cache.duplicate();
        Ok(AndroidPlatform { jvm, jni_call_manager, class_cache })
    }

    /// Ask the host to materialize a connection object for the given call
    /// and remote device, and wrap it. An absent host object is the
    /// distinct null-result error, and no connection handle is constructed
    /// from it.
    pub fn create_connection(
        &self,
        call_id: CallId,
        remote_device: DeviceId,
        native_connection: u64,
        call_context: &AndroidCallContext,
    ) -> (r: Result<AndroidConnection, BridgeError>)
        requires
            self.wf(),
        ensures
            r matches Ok(c) ==> c.wf() && c.spec_platform().spec_call_manager()
                == self.spec_call_manager(),
            r matches Err(e) ==> e == BridgeError::RuntimeAttachFailed || e
                == BridgeError::NullConnectionObject || e == BridgeError::GlobalRefFailed || (
            e matches BridgeError::MethodCallFailed(m) && m@ == "createConnection"@),
    {
        let env = match self.java_env() {
            Ok(env) => env,
            Err(e) => {
                return Err(e);
            },
        };
        let jni_call_context = call_context.to_jni();
        let obj = match call_create_connection(
            &env,
            &self.jni_call_manager,
            raw_handle_to_jlong(native_connection),
            call_id_to_jlong(call_id),
            device_id_to_jint(remote_device),
            &jni_call_context,
        ) {
            Some(o) => o,
            None => {
                return Err(BridgeError::MethodCallFailed(String::from_str("createConnection")));
            },
        };
        let jni_connection = match admit_connection_object(&env, obj) {
            Ok(g) => g,
            Err(e) => {
                return Err(e);
            },
        };
        let platform = match self.try_clone() {
            Ok(p) => p,
            Err(e) => {
                return Err(e);
            },
        };
        Ok(AndroidConnection::new(platform, jni_connection))
    }

    /// Notify the host that a call has begun, passing the call id as a
    /// fixed-width integer and the direction as a boolean that is true for
    /// an outgoing call.
    pub fn on_start_call(
        &self,
        remote_peer: &AndroidGlobalRef,
        call_id: CallId,
        direction: CallDirection,
    ) -> (r: Result<(), BridgeError>)
        ensures
            r matches Err(e) ==> e == BridgeError::RuntimeAttachFailed || (
            e matches BridgeError::MethodCallFailed(m) && m@ == "onStartCall"@),
    {
        let env = match self.java_env() {
            Ok(env) => env,
            Err(e) => {
                return Err(e);
            },
        };
        let ok = call_start_call(
            &env,
            &self.jni_call_manager,
            remote_peer,
            call_id_to_jlong(call_id),
            direction.is_outgoing(),
        );
        if ok {
            Ok(())
        } else {
            Err(BridgeError::MethodCallFailed(String::from_str("onStartCall")))
        }
    }

    /// Notify the host of an application event. The native event crosses
    /// as its ordinal and is resolved to the host's own enumeration value
    /// by the host-side lookup; a failed lookup is the distinct resolution
    /// error naming the target type and the lookup method.
    pub fn on_event(&self, remote_peer: &AndroidGlobalRef, event: ApplicationEvent) -> (r: Result<
        (),
        BridgeError,
    >)
        requires
            self.wf(),
        ensures
            r matches Err(e) ==> e == BridgeError::RuntimeAttachFailed || (
            e matches BridgeError::StaticMethodFailed(c, m, _) && c@
                == "org/signal/ringrtc/CallManager$CallEvent"@ && m@ == "fromNativeIndex"@) || (
            e matches BridgeError::MethodCallFailed(m) && m@ == "onEvent"@),
    {
        let env = match self.java_env() {
            Ok(env) => env,
            Err(e) => {
                return Err(e);
            },
        };
        let class_name = String::from_str("org/signal/ringrtc/CallManager$CallEvent");
        let class_ref = match self.class_cache.get_class(&class_name) {
            Ok(g) => g,
            Err(_) => unreached(),
        };
        let jni_enum = match call_event_lookup(&env, class_ref, event.ordinal()) {
            Some(o) => o,
            None => {
                return Err(BridgeError::StaticMethodFailed(
                    class_name,
                    String::from_str("fromNativeIndex"),
                    String::from_str("(I)Lorg/signal/ringrtc/CallManager$CallEvent;"),
                ));
            },
        };
        let ok = call_void_remote_object(
            &env,
            &self.jni_call_manager,
            "onEvent",
            "(Lorg/signal/ringrtc/Remote;Lorg/signal/ringrtc/CallManager$CallEvent;)V",
            remote_peer,
            jni_enum,
        );
        if ok {
            Ok(())
        } else {
            Err(BridgeError::MethodCallFailed(String::from_str("onEvent")))
        }
    }

    /// Notify the host to transmit a session-description offer, marshaling
    /// the description into a host string.
    pub fn on_send_offer(
        &self,
        remote_peer: &AndroidGlobalRef,
        connection_id: ConnectionId,
        broadcast: bool,
        description: &str,
    ) -> (r: Result<(), BridgeError>)
        ensures
            r matches Err(e) ==> e == BridgeError::RuntimeAttachFailed || e
                == BridgeError::StringMarshalFailed || (e matches BridgeError::MethodCallFailed(m)
                && m@ == "onSendOffer"@),
    {
        let env = match self.java_env() {
            Ok(env) => env,
            Err(e) => {
                return Err(e);
            },
        };
        let text = match new_host_string(&env, description) {
            Some(o) => o,
            None => {
                return Err(BridgeError::StringMarshalFailed);
            },
        };
        let ok = call_signaling_text(
            &env,
            &self.jni_call_manager,
            "onSendOffer",
            call_id_to_jlong(connection_id.call_id()),
            remote_peer,
            device_id_to_jint(connection_id.remote_device()),
            broadcast,
            text,
        );
        if ok {
            Ok(())
        } else {
            Err(BridgeError::MethodCallFailed(String::from_str("onSendOffer")))
        }
    }

    /// Notify the host to transmit a session-description answer,
    /// marshaling the description into a host string.
    pub fn on_send_answer(
        &self,
        remote_peer: &AndroidGlobalRef,
        connection_id: ConnectionId,
        broadcast: bool,
        description: &str,
    ) -> (r: Result<(), BridgeError>)
        ensures
            r matches Err(e) ==> e == BridgeError::RuntimeAttachFailed || e
                == BridgeError::StringMarshalFailed || (e matches BridgeError::MethodCallFailed(m)
                && m@ == "onSendAnswer"@),
    {
        let env = match self.java_env() {
            Ok(env) => env,
            Err(e) => {
                return Err(e);
            },
        };
        let text = match new_host_string(&env, description) {
            Some(o) => o,
            None => {
                return Err(BridgeError::StringMarshalFailed);
            },
        };
        let ok = call_signaling_text(
            &env,
            &self.jni_call_manager,
            "onSendAnswer",
            call_id_to_jlong(connection_id.call_id()),
            remote_peer,
            device_id_to_jint(connection_id.remote_device()),
            broadcast,
            text,
        );
        if ok {
            Ok(())
        } else {
            Err(BridgeError::MethodCallFailed(String::from_str("onSendAnswer")))
        }
    }

    /// Build the host-side ordered candidate collection — one element per
    /// candidate, in input order — and notify the host to transmit it.
    pub fn on_send_ice_candidates(
        &self,
        remote_peer: &AndroidGlobalRef,
        connection_id: ConnectionId,
        broadcast: bool,
        ice_candidates: &Vec<IceCandidate>,
    ) -> (r: Result<(), BridgeError>)
        requires
            self.wf(),
        ensures
            r matches Err(e) ==> e == BridgeError::RuntimeAttachFailed || e
                == BridgeError::StringMarshalFailed || e == BridgeError::ListBuildFailed || (
            e matches BridgeError::MethodCallFailed(m) && m@ == "onSendIceCandidates"@),
    {
        let env = match self.java_env() {
            Ok(env) => env,
            Err(e) => {
                return Err(e);
            },
        };
        let class_name = String::from_str("org/webrtc/IceCandidate");
        let candidate_class = match self.class_cache.get_class(&class_name) {
            Ok(g) => g,
            Err(_) => unreached(),
        };
        let list = match build_candidate_list(&env, candidate_class, ice_candidates) {
            Ok(l) => l,
            Err(e) => {
                return Err(e);
            },
        };
        let ok = call_send_ice_candidates(
            &env,
            &self.jni_call_manager,
            call_id_to_jlong(connection_id.call_id()),
            remote_peer,
            device_id_to_jint(connection_id.remote_device()),
            broadcast,
            &list,
        );
        if ok {
            Ok(())
        } else {
            Err(BridgeError::MethodCallFailed(String::from_str("onSendIceCandidates")))
        }
    }

    /// Notify the host of call termination signaling.
    pub fn on_send_hangup(
        &self,
        remote_peer: &AndroidGlobalRef,
        connection_id: ConnectionId,
        broadcast: bool,
    ) -> (r: Result<(), BridgeError>)
        ensures
            r matches Err(e) ==> e == BridgeError::RuntimeAttachFailed || (
            e matches BridgeError::MethodCallFailed(m) && m@ == "onSendHangup"@),
    {
        let env = match self.java_env() {
            Ok(env) => env,
            Err(e) => {
                return Err(e);
            },
        };
        let ok = call_signaling_plain(
            &env,
            &self.jni_call_manager,
            "onSendHangup",
            call_id_to_jlong(connection_id.call_id()),
            remote_peer,
            device_id_to_jint(connection_id.remote_device()),
            broadcast,
        );
        if ok {
            Ok(())
        } else {
            Err(BridgeError::MethodCallFailed(String::from_str("onSendHangup")))
        }
    }

    /// Notify the host of busy signaling.
    pub fn on_send_busy(
        &self,
        remote_peer: &AndroidGlobalRef,
        connection_id: ConnectionId,
        broadcast: bool,
    ) -> (r: Result<(), BridgeError>)
        ensures
            r matches Err(e) ==> e == BridgeError::RuntimeAttachFailed || (
            e matches BridgeError::MethodCallFailed(m) && m@ == "onSendBusy"@),
    {
        let env = match self.java_env() {
            Ok(env) => env,
            Err(e) => {
                return Err(e);
            },
        };
        let ok = call_signaling_plain(
            &env,
            &self.jni_call_manager,
            "onSendBusy",
            call_id_to_jlong(connection_id.call_id()),
            remote_peer,
            device_id_to_jint(connection_id.remote_device()),
            broadcast,
        );
        if ok {
            Ok(())
        } else {
            Err(BridgeError::MethodCallFailed(String::from_str("onSendBusy")))
        }
    }

    /// Wrap a native media stream for exposure to the host object model.
    pub fn create_media_stream(&self, stream: MediaStream) -> (r: Result<
        AndroidMediaStream,
        BridgeError,
    >)
        ensures
            r is Ok,
            r matches Ok(m) ==> m.native_stream == stream.native_stream,
    {
        Ok(AndroidMediaStream { native_stream: stream.native_stream })
    }

    /// Notify the host to attach a media stream to a call context,
    /// materializing the host media-stream object over the native stream.
    pub fn on_connect_media(
        &self,
        _remote_peer: &AndroidGlobalRef,
        app_call_context: &AndroidCallContext,
        media_stream: &AndroidMediaStream,
    ) -> (r: Result<(), BridgeError>)
        ensures
            r matches Err(e) ==> e == BridgeError::RuntimeAttachFailed || e
                == BridgeError::MediaStreamWrapFailed || (
            e matches BridgeError::MethodCallFailed(m) && m@ == "onConnectMedia"@),
    {
        let env = match self.java_env() {
            Ok(env) => env,
            Err(e) => {
                return Err(e);
            },
        };
        let jni_call_context = app_call_context.to_jni();
        let jni_media_stream = match wrap_media_stream(
            &env,
            raw_handle_to_jlong(media_stream.native_stream),
        ) {
            Some(g) => g,
            None => {
                return Err(BridgeError::MediaStreamWrapFailed);
            },
        };
        let ok = call_connect_media(&env, &self.jni_call_manager, &jni_call_context, &jni_media_stream);
        if ok {
            Ok(())
        } else {
            Err(BridgeError::MethodCallFailed(String::from_str("onConnectMedia")))
        }
    }

    /// Notify the host to detach media from a call context.
    pub fn on_close_media(&self, app_call_context: &AndroidCallContext) -> (r: Result<
        (),
        BridgeError,
    >)
        ensures
            r matches Err(e) ==> e == BridgeError::RuntimeAttachFailed || (
            e matches BridgeError::MethodCallFailed(m) && m@ == "onCloseMedia"@),
    {
        let env = match self.java_env() {
            Ok(env) => env,
            Err(e) => {
                return Err(e);
            },
        };
        let jni_call_context = app_call_context.to_jni();
        let ok = call_void_object_arg(
            &env,
            &self.jni_call_manager,
            "onCloseMedia",
            "(Lorg/signal/ringrtc/CallManager$CallContext;)V",
            &jni_call_context,
        );
        if ok {
            Ok(())
        } else {
            Err(BridgeError::MethodCallFailed(String::from_str("onCloseMedia")))
        }
    }

    /// Ask the host whether two remote peer references denote the same
    /// participant. The native side has no way to interpret host object
    /// identity, so every identity question between two remote peer
    /// handles must go through this delegated comparison.
    pub fn compare_remotes(
        &self,
        remote_peer1: &AndroidGlobalRef,
        remote_peer2: &AndroidGlobalRef,
    ) -> (r: Result<bool, BridgeError>)
        ensures
            r matches Err(e) ==> e == BridgeError::RuntimeAttachFailed || (
            e matches BridgeError::MethodCallFailed(m) && m@ == "compareRemotes"@),
    {
        let env = match self.java_env() {
            Ok(env) => env,
            Err(e) => {
                return Err(e);
            },
        };
        match call_compare_remotes(&env, &self.jni_call_manager, remote_peer1, remote_peer2) {
            Some(b) => Ok(b),
            None => Err(BridgeError::MethodCallFailed(String::from_str("compareRemotes"))),
        }
    }

    /// Final notification that a call's lifecycle is over.
    pub fn on_call_concluded(&self, remote_peer: &AndroidGlobalRef) -> (r: Result<(), BridgeError>)
        ensures
            r matches Err(e) ==> e == BridgeError::RuntimeAttachFailed || (
            e matches BridgeError::MethodCallFailed(m) && m@ == "onCallConcluded"@),
    {
        let env = match self.java_env() {
            Ok(env) => env,
            Err(e) => {
                return Err(e);
            },
        };
        let ok = call_void_object_arg(
            &env,
            &self.jni_call_manager,
            "onCallConcluded",
            "(Lorg/signal/ringrtc/Remote;)V",
            remote_peer,
        );
        if ok {
            Ok(())
        } else {
            Err(BridgeError::MethodCallFailed(String::from_str("onCallConcluded")))
        }
    }
}

/// Admit a host connection object into the bridge: the absent (null)
/// object is rejected with the distinct null-result error — no connection
/// handle is ever constructed from it — and a concrete object is pinned
/// for the connection's lifetime; the pinned reference refers to the very
/// object the host factory returned.
pub fn admit_connection_object<'a>(env: &JNIEnv<'a>, obj: HostObject<'a>) -> (r: Result<
    GlobalRef,
    BridgeError,
>)
    ensures
        is_null_object(obj) <==> r == Err::<GlobalRef, BridgeError>(
            BridgeError::NullConnectionObject,
        ),
        r matches Ok(g) ==> ref_object_id(g) == object_id(obj),
        r matches Err(e) ==> e == BridgeError::NullConnectionObject || e
            == BridgeError::GlobalRefFailed,
{
    if object_is_null(&obj) {
        return Err(BridgeError::NullConnectionObject);
    }
    match new_global_ref(env, obj) {
        Some(g) => Ok(g),
        None => Err(BridgeError::GlobalRefFailed),
    }
}

impl AndroidCallContext {
    /// The adapter binding this wrapper carries.
    pub closed spec fn spec_platform(self) -> AndroidPlatform {
        self.inner.resource().platform
    }

    /// The host per-call context object this wrapper owns.
    pub closed spec fn spec_context(self) -> GlobalRef {
        self.inner.resource().jni_call_context
    }

    /// The wrapper's adapter binding is usable.
    pub open spec fn wf(self) -> bool {
        self.spec_platform().wf()
    }

    /// Wrap a host per-call context object, binding the adapter into the
    /// wrapper so release can re-enter the runtime from any thread.
    pub fn new(platform: AndroidPlatform, jni_call_context: GlobalRef) -> (r: AndroidCallContext)
        ensures
            r.spec_platform() == platform,
            r.spec_context() == jni_call_context,
    {
        AndroidCallContext { inner: Handle::new(JavaCallContext { platform, jni_call_context }) }
    }

    /// The held host object reference, shared for a boundary call.
    pub fn to_jni(&self) -> (r: GlobalRef)
        ensures
            r == self.spec_context(),
    {
        clone_ref(&self.inner.get().jni_call_context)
    }

    /// A further owner of the same host context object.
    pub fn retain(&self) -> (r: AndroidCallContext)
        ensures
            r.spec_platform() == self.spec_platform(),
            r.spec_context() == self.spec_context(),
    {
        AndroidCallContext { inner: self.inner.retain() }
    }

    /// Give this owner up. Exactly one release over all owners — the last
    /// — re-enters the host runtime and sends the `closeCall` notification;
    /// if the thread cannot be bound at that point, the notification is
    /// skipped rather than failing out of a release path. Returns whether
    /// this release was the final one.
    pub fn release(self) -> (last: bool) {
        match self.inner.release() {
            Some(ctx) => {
                match ctx.platform.java_env() {
                    Ok(env) => {
                        let _ = call_void_object_arg(
                            &env,
                            &ctx.platform.jni_call_manager,
                            "closeCall",
                            "(Lorg/signal/ringrtc/CallManager$CallContext;)V",
                            &ctx.jni_call_context,
                        );
                    },
                    Err(_) => {},
                }
                true
            },
            None => false,
        }
    }
}

impl AndroidConnection {
    /// The adapter binding this wrapper carries.
    pub closed spec fn spec_platform(self) -> AndroidPlatform {
        self.inner.resource().platform
    }

    /// The host per-connection object this wrapper owns.
    pub closed spec fn spec_connection(self) -> GlobalRef {
        self.inner.resource().jni_connection
    }

    /// The wrapper's adapter binding is usable.
    pub open spec fn wf(self) -> bool {
        self.spec_platform().wf()
    }

    /// Wrap a host per-connection object.
    fn new(platform: AndroidPlatform, jni_connection: GlobalRef) -> (r: AndroidConnection)
        ensures
            r.spec_platform() == platform,
            r.spec_connection() == jni_connection,
    {
        AndroidConnection { inner: Handle::new(JavaConnection { platform, jni_connection }) }
    }

    /// The held host object reference, shared for a boundary call.
    pub fn to_jni(&self) -> (r: GlobalRef)
        ensures
            r == self.spec_connection(),
    {
        clone_ref(&self.inner.get().jni_connection)
    }

    /// A further owner of the same host connection object.
    pub fn retain(&self) -> (r: AndroidConnection)
        ensures
            r.spec_platform() == self.spec_platform(),
            r.spec_connection() == self.spec_connection(),
    {
        AndroidConnection { inner: self.inner.retain() }
    }

    /// Give this owner up. Exactly one release over all owners — the last
    /// — re-enters the host runtime and sends the `closeConnection`
    /// notification; if the thread cannot be bound at that point, the
    /// notification is skipped rather than failing out of a release path.
    /// Returns whether this release was the final one.
    pub fn release(self) -> (last: bool) {
        match self.inner.release() {
            Some(conn) => {
                match conn.platform.java_env() {
                    Ok(env) => {
                        let _ = call_void_object_arg(
                            &env,
                            &conn.platform.jni_call_manager,
                            "closeConnection",
                            "(Lorg/signal/ringrtc/Connection;)V",
                            &conn.jni_connection,
                        );
                    },
                    Err(_) => {},
                }
                true
            },
            None => false,
        }
    }
}

} // verus!
