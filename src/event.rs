//! A named synchronisation object and the standing wait subscription attached to
//! it. The operating system is asked by the caller; this module decides what to
//! ask, reads the answers, and orders the teardown of what was handed out.
use vstd::prelude::*;
use crate::name::{name_valid, wide_name, wide_name_spec};
use crate::outcome::{
    creation_of, creation_spec, open_error_of, open_error_spec, Creation, CreationError,
    OpenError,
};

verus! {

/// One standing subscription: the operating system's wait handle, and the
/// callback storage whose address was handed to it as context.
#[derive(Debug, Clone, Copy, PartialEq, Eq, Structural)]
pub struct Registration {
    pub wait: isize,
    pub callback: u64,
}

/// A request to the operating system, in the order in which it must be made.
#[derive(Debug, Clone, Copy, PartialEq, Eq, Structural)]
pub enum Action {
    /// Revoke the subscription and block until no invocation is running or pending.
    RevokeWait(isize),
    /// Drop the reference to the callback storage that was handed to the system.
    ReleaseCallback(u64),
    /// Close the object's handle.
    CloseHandle(isize),
}

/// What an event object is: its handle and its subscription, if any.
pub struct EventState {
    pub handle: isize,
    pub registration: Option<Registration>,
}

/// Whether the system may still invoke the callback stored under `callback`.
pub open spec fn invocable(s: EventState, callback: u64) -> bool {
    s.registration matches Some(r) && r.callback == callback
}

/// Revoking a subscription, then releasing its callback.
pub open spec fn revoke(r: Registration) -> Seq<Action> {
    seq![Action::RevokeWait(r.wait), Action::ReleaseCallback(r.callback)]
}

/// What withdrawing the subscription of `s` takes.
pub open spec fn revoke_all(s: EventState) -> Seq<Action> {
    match s.registration {
        Some(r) => revoke(r),
        None => seq![],
    }
}

/// Whether a registration of `callback`, which the system answered with `wait`,
/// becomes the object's subscription.
pub open spec fn register_accepted(s: EventState, callback: u64, wait: Option<isize>) -> bool {
    wait is Some && !invocable(s, callback)
}

/// The object after a registration of `callback` that the system answered with `wait`.
pub open spec fn register_next(s: EventState, callback: u64, wait: Option<isize>) -> EventState {
    if register_accepted(s, callback, wait) {
        EventState {
            handle: s.handle,
            registration: Some(Registration { wait: wait->0, callback }),
        }
    } else {
        s
    }
}

/// What must follow a registration of `callback` that the system answered with
/// `wait`: a superseded subscription is revoked before its storage goes; a
/// subscription made with storage already in use is withdrawn again; storage
/// that the system refused is released at once.
pub open spec fn register_actions(s: EventState, callback: u64, wait: Option<isize>) -> Seq<Action> {
    match wait {
        Some(w) => if invocable(s, callback) {
            seq![Action::RevokeWait(w)]
        } else {
            revoke_all(s)
        },
        None => if invocable(s, callback) {
            seq![]
        } else {
            seq![Action::ReleaseCallback(callback)]
        },
    }
}

/// What closing the object takes: the subscription first, the handle last.
pub open spec fn teardown_actions(s: EventState) -> Seq<Action> {
    revoke_all(s).push(Action::CloseHandle(s.handle))
}

/// The name that a create or open request carries, where the name can be sent.
pub open spec fn request_name(name: Seq<char>) -> Option<Seq<u16>> {
    if name_valid(name) {
        Some(wide_name_spec(name))
    } else {
        None
    }
}

/// The parameters of a create request.
pub struct EventRequest {
    /// Zero-terminated UTF-16 name.
    pub name: Vec<u16>,
    /// Whether the object stays signalled until reset by hand.
    pub manual_reset: bool,
    /// Whether the object starts signalled.
    pub initially_signaled: bool,
}

/// Builds the create request for `name`: an object that resets itself once a
/// waiter has seen a signal, and that starts unsignalled.
pub fn create_request(name: &str) -> (r: Result<EventRequest, CreationError>)
    ensures
        r is Ok <==> request_name(name@) is Some,
        r matches Ok(q) ==> q.name@ == request_name(name@)->0 && !q.manual_reset
            && !q.initially_signaled,
        r matches Err(e) ==> e == CreationError::InvalidName,
{
    match wide_name(name) {
        Some(w) => Ok(EventRequest { name: w, manual_reset: false, initially_signaled: false }),
        None => Err(CreationError::InvalidName),
    }
}

/// Builds the zero-terminated name that an open request for `name` carries.
pub fn open_request(name: &str) -> (r: Result<Vec<u16>, OpenError>)
    ensures
        r is Ok <==> request_name(name@) is Some,
        r matches Ok(w) ==> w@ == request_name(name@)->0,
        r matches Err(e) ==> e == OpenError::InvalidName,
{
    match wide_name(name) {
        Some(w) => Ok(w),
        None => Err(OpenError::InvalidName),
    }
}

/// The wait time that stands for "never time out".
pub const INFINITE: u32 = 0xFFFF_FFFF;

/// The parameters of a subscription request.
pub struct WaitRequest {
    /// Milliseconds before the wait gives up.
    pub timeout: u32,
    /// Whether the subscription ends after its first invocation.
    pub execute_once: bool,
}

/// Builds the subscription request: it waits without end and stays after each invocation.
pub fn wait_request() -> (r: WaitRequest)
    ensures
        r.timeout == INFINITE,
        !r.execute_once,
{
    WaitRequest { timeout: INFINITE, execute_once: false }
}

/// What one step of the registration discipline hands back: whether the new
/// callback is now the subscription, and the requests to make, in order.
pub struct Step {
    pub registered: bool,
    pub actions: Vec<Action>,
}

/// A handle to a named synchronisation object, with at most one subscription.
pub struct CrossProcessAsyncEvent {
    handle: isize,
    registration: Option<Registration>,
}

impl View for CrossProcessAsyncEvent {
    type V = EventState;

    closed spec fn view(&self) -> EventState {
        EventState { handle: self.handle, registration: self.registration }
    }
}

impl CrossProcessAsyncEvent {
    /// The object that a create request gave, with the way it came about read
    /// from the last-error value the request left; or the system's refusal,
    /// given as its HRESULT.
    pub fn try_create(answer: Result<isize, i32>, last_error: u32) -> (r: Result<
        (Self, Creation),
        CreationError,
    >)
        ensures
            r is Ok <==> answer is Ok,
            r matches Ok(p) ==> p.0@ == (EventState { handle: answer->Ok_0, registration: None })
                && p.1 == creation_spec(last_error),
            answer matches Err(code) ==> r == Err::<(Self, Creation), CreationError>(
                CreationError::Os(code),
            ),
    {
        match answer {
            Ok(handle) => Ok((CrossProcessAsyncEvent { handle, registration: None }, creation_of(last_error))),
            Err(code) => Err(CreationError::Os(code)),
        }
    }

    /// The object that an open request gave, or the system's refusal, given as
    /// its HRESULT and classified.
    pub fn try_open(answer: Result<isize, i32>) -> (r: Result<Self, OpenError>)
        ensures
            r is Ok <==> answer is Ok,
            r matches Ok(ev) ==> ev@ == (EventState { handle: answer->Ok_0, registration: None }),
            answer matches Err(code) ==> r == Err::<Self, OpenError>(open_error_spec(code)),
    {
        match answer {
            Ok(handle) => Ok(CrossProcessAsyncEvent { handle, registration: None }),
            Err(code) => Err(open_error_of(code)),
        }
    }

    /// The object's handle.
    pub fn handle(&self) -> (r: isize)
        ensures
            r == self@.handle,
    {
        self.handle
    }

    /// The object's subscription, if any.
    pub fn registration(&self) -> (r: Option<Registration>)
        ensures
            r == self@.registration,
    {
        self.registration
    }

    /// Records the system's answer to a subscription request for the storage
    /// `callback` (`None`: refused) and says what must follow.
    pub fn register_callback(&mut self, callback: u64, wait: Option<isize>) -> (r: Step)
        ensures
            final(self)@ == register_next(old(self)@, callback, wait),
            r.registered == register_accepted(old(self)@, callback, wait),
            r.actions@ == register_actions(old(self)@, callback, wait),
    {
        let in_use = match self.registration {
            Some(reg) => reg.callback == callback,
            None => false,
        };
        match wait {
            Some(w) => {
                if in_use {
                    Step { registered: false, actions: vec![Action::RevokeWait(w)] }
                } else {
                    let actions = self.unregister();
                    self.registration = Some(Registration { wait: w, callback });
                    Step { registered: true, actions }
                }
            },
            None => {
                if in_use {
                    Step { registered: false, actions: Vec::new() }
                } else {
                    Step { registered: false, actions: vec![Action::ReleaseCallback(callback)] }
                }
            },
        }
    }

    /// Withdraws the subscription, if any, and says what that takes.
    pub fn unregister(&mut self) -> (r: Vec<Action>)
        ensures
            final(self)@ == (EventState { handle: old(self)@.handle, registration: None }),
            r@ == revoke_all(old(self)@),
    {
        match self.registration {
            Some(reg) => {
                self.registration = None;
                let r = vec![Action::RevokeWait(reg.wait), Action::ReleaseCallback(reg.callback)];
                assert(r@ =~= revoke(reg));
                r
            },
            None => {
                let r: Vec<Action> = Vec::new();
                assert(r@ =~= seq![]);
                r
            },
        }
    }

    /// Gives up the object and says what closing it takes, in order.
    pub fn teardown(self) -> (r: Vec<Action>)
        ensures
            r@ == teardown_actions(self@),
    {
        let mut s = self;
        let mut r = s.unregister();
        r.push(Action::CloseHandle(s.handle));
        r
    }
}

} // verus!
