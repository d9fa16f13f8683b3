//! Properties that hold across the operations of the library.
use vstd::prelude::*;
use crate::event::{
    invocable, register_actions, Registration, register_next, request_name, revoke_all, teardown_actions,
    Action, EventState,
};
use crate::name::{name_valid, wide_name_spec};
use crate::outcome::{
    creation_spec, open_error_spec, win32_hresult, Creation, OpenError, ERROR_ACCESS_DENIED, ERROR_ALREADY_EXISTS,
    ERROR_FILE_NOT_FOUND,
};

verus! {

/// Whether the subscription `r` is revoked in `actions` before index `i`.
pub open spec fn revoked_before(actions: Seq<Action>, r: Registration, i: int) -> bool {
    exists|j: int| 0 <= j < i && actions[j] == Action::RevokeWait(r.wait)
}

/// The release at index `i` of `actions` frees storage that cannot be invoked
/// in `next`, is freed there once, and, where it was the subscription of `s`,
/// after that subscription was revoked.
pub open spec fn release_ok(s: EventState, actions: Seq<Action>, next: EventState, i: int) -> bool {
    let c = actions[i]->ReleaseCallback_0;
    &&& !invocable(next, c)
    &&& match s.registration {
        Some(r) => r.callback == c ==> revoked_before(actions, r, i),
        None => true,
    }
    &&& forall|k: int| 0 <= k < actions.len() && k != i ==> actions[k] != Action::ReleaseCallback(c)
}

/// Every storage that `actions` releases is released safely (see `release_ok`).
pub open spec fn releases_safely(s: EventState, actions: Seq<Action>, next: EventState) -> bool {
    forall|i: int|
        0 <= i < actions.len() && (#[trigger] actions[i]) is ReleaseCallback ==> release_ok(
            s,
            actions,
            next,
            i,
        )
}

/// Revoking before releasing: whether a subscription is superseded by a new
/// one, withdrawn, or closed with its object, its callback storage is freed
/// once, only after the system has confirmed that no invocation of it runs or
/// will start, and nothing may invoke it afterwards.
pub proof fn lemma_release_after_revoke(s: EventState, callback: u64, wait: Option<isize>)
    ensures
        releases_safely(s, register_actions(s, callback, wait), register_next(s, callback, wait)),
        releases_safely(s, revoke_all(s), EventState { handle: s.handle, registration: None }),
        releases_safely(s, teardown_actions(s), EventState { handle: s.handle, registration: None }),
{
    let idle = EventState { handle: s.handle, registration: None };
    let a = register_actions(s, callback, wait);
    let n = register_next(s, callback, wait);
    assert forall|i: int| 0 <= i < a.len() && (#[trigger] a[i]) is ReleaseCallback implies release_ok(
        s,
        a,
        n,
        i,
    ) by {
        if let Some(r) = s.registration {
            if wait is Some && r.callback != callback {
                assert(a[0] == Action::RevokeWait(r.wait));
            }
        }
    }
    let t = teardown_actions(s);
    assert forall|i: int| 0 <= i < t.len() && (#[trigger] t[i]) is ReleaseCallback implies release_ok(
        s,
        t,
        idle,
        i,
    ) by {
        if let Some(r) = s.registration {
            assert(t[0] == Action::RevokeWait(r.wait));
        }
    }
    let u = revoke_all(s);
    assert forall|i: int| 0 <= i < u.len() && (#[trigger] u[i]) is ReleaseCallback implies release_ok(
        s,
        u,
        idle,
        i,
    ) by {
        if let Some(r) = s.registration {
            assert(u[0] == Action::RevokeWait(r.wait));
        }
    }
}

/// Closing last: the handle is closed once, as the final request, after the
/// subscription has been revoked.
pub proof fn lemma_close_last(s: EventState)
    ensures
        teardown_actions(s).last() == Action::CloseHandle(s.handle),
        forall|k: int|
            0 <= k < teardown_actions(s).len() - 1 ==> !(#[trigger] teardown_actions(s)[k] is CloseHandle),
        s.registration matches Some(r) ==> teardown_actions(s)[0] == Action::RevokeWait(r.wait),
{
}

/// Opening after creating: every name that a create request accepts, an open
/// request accepts too, and both carry the same wide name, so that both
/// handles refer to one object.
pub proof fn lemma_open_names_created_object(name: Seq<char>)
    ensures
        request_name(name) is Some <==> name_valid(name),
        name_valid(name) ==> request_name(name) == Some(wide_name_spec(name)),
{
}

/// A missing object and a guarded one: an open refused because no object has
/// the name reports `NotFound`, one refused for want of access reports
/// `PermissionDenied`, and the two are told apart.
pub proof fn lemma_open_refusals_classified()
    ensures
        win32_hresult(ERROR_FILE_NOT_FOUND) == 0x8007_0002u32 as i32,
        win32_hresult(ERROR_ACCESS_DENIED) == 0x8007_0005u32 as i32,
        open_error_spec(win32_hresult(ERROR_FILE_NOT_FOUND)) == OpenError::NotFound,
        open_error_spec(win32_hresult(ERROR_ACCESS_DENIED)) == OpenError::PermissionDenied,
{
    assert((2u32 & 0xFFFFu32) | 0x8007_0000u32 == 0x8007_0002u32) by (bit_vector);
    assert((5u32 & 0xFFFFu32) | 0x8007_0000u32 == 0x8007_0005u32) by (bit_vector);
    assert((0x8007_0002u32 as i32) != (0x8007_0005u32 as i32)) by (bit_vector);
}

/// Two creates of one name: where the system reports the object as already
/// there to exactly one of them, exactly one result says so.
pub proof fn lemma_single_join_reported(first: u32, second: u32)
    requires
        (first == ERROR_ALREADY_EXISTS) != (second == ERROR_ALREADY_EXISTS),
    ensures
        (creation_spec(first) == Creation::AlreadyExisted) != (creation_spec(second)
            == Creation::AlreadyExisted),
{
}

} // verus!
