//! ICE candidates and the ordered host collection built from them.
//!
//! The native engine hands candidates over as plain values; the bridge
//! builds a host-side ordered collection with exactly one element per
//! candidate, in input order, and hands that collection across the
//! boundary.

use jni::objects::GlobalRef;
use jni::JNIEnv;
use vstd::prelude::*;

use crate::error::BridgeError;
use crate::jvm::{
    candidate_list_add, candidate_view, list_model, new_candidate_list, new_candidate_object,
    new_host_string, CandidateList,
};

verus! {

/// One ICE candidate as the native engine hands it over: a mid string, an
/// m-line index, and the candidate description.
#[derive(Clone, Debug, PartialEq, Eq)]
pub struct IceCandidate {
    pub sdp_mid: String,
    pub sdp_mline_index: i32,
    pub sdp: String,
}

impl IceCandidate {
    pub fn new(sdp_mid: String, sdp_mline_index: i32, sdp: String) -> (r: IceCandidate)
        ensures
            r.sdp_mid@ == sdp_mid@,
            r.sdp_mline_index == sdp_mline_index,
            r.sdp@ == sdp@,
    {
        IceCandidate { sdp_mid, sdp_mline_index, sdp }
    }
}

/// The triple a candidate crosses the boundary as.
pub open spec fn candidate_model(c: IceCandidate) -> (Seq<char>, int, Seq<char>) {
    (c.sdp_mid@, c.sdp_mline_index as int, c.sdp@)
}

/// Build the host-side ordered collection for a candidate sequence: one
/// element per input candidate, in input order — for any input length, the
/// collection holds exactly as many elements as were handed in, in the
/// order they were handed in.
pub fn build_candidate_list<'a>(
    env: &JNIEnv<'a>,
    candidate_class: &GlobalRef,
    candidates: &Vec<IceCandidate>,
) -> (r: Result<CandidateList, BridgeError>)
    ensures
        r matches Ok(l) ==> list_model(l) == candidates@.map_values(
            |c: IceCandidate| candidate_model(c),
        ),
        r matches Ok(l) ==> list_model(l).len() == candidates@.len(),
        r matches Err(e) ==> e == BridgeError::ListBuildFailed || e
            == BridgeError::StringMarshalFailed,
{
    let mut list = match new_candidate_list(env) {
        Some(l) => l,
        None => {
            return Err(BridgeError::ListBuildFailed);
        },
    };
    let n: usize = candidates.len();
    let mut i: usize = 0;
    while i < n
        invariant
            i <= n,
            n == candidates@.len(),
            list_model(list) =~= candidates@.subrange(0, i as int).map_values(
                |c: IceCandidate| candidate_model(c),
            ),
        decreases n - i,
    {
        let c = &candidates[i];
        let mid = match new_host_string(env, c.sdp_mid.as_str()) {
            Some(o) => o,
            None => {
                return Err(BridgeError::StringMarshalFailed);
            },
        };
        let sdp = match new_host_string(env, c.sdp.as_str()) {
            Some(o) => o,
            None => {
                return Err(BridgeError::StringMarshalFailed);
            },
        };
        let obj = match new_candidate_object(env, candidate_class, mid, c.sdp_mline_index, sdp) {
            Some(o) => o,
            None => {
                return Err(BridgeError::ListBuildFailed);
            },
        };
        let ghost prev_model = list_model(list);
        let added = candidate_list_add(&mut list, env, obj);
        if !added {
            return Err(BridgeError::ListBuildFailed);
        }
        proof {
            let ghost k = i as int;
            assert(candidate_view(obj) == candidate_model(candidates@[k]));
            let ghost mapped = candidates@.subrange(0, k + 1).map_values(
                |c: IceCandidate| candidate_model(c),
            );
            assert forall|j: int| 0 <= j < k + 1 implies #[trigger] mapped[j] == list_model(list)[j]
                by {
                if j < k {
                    assert(candidates@.subrange(0, k)[j] == candidates@[j]);
                    assert(prev_model[j] == candidates@.subrange(0, k).map_values(
                        |c: IceCandidate| candidate_model(c),
                    )[j]);
                }
                assert(candidates@.subrange(0, k + 1)[j] == candidates@[j]);
            }
            assert(list_model(list) =~= mapped);
        }
        i += 1;
    }
    proof {
        assert(candidates@.subrange(0, n as int) =~= candidates@);
    }
    Ok(list)
}

} // verus!
