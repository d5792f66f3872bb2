//! The client wrapper: one live handle and its lifecycle.
//!
//! Each operation is split around its boundary call. A `*_request` or
//! `config_bytes` step marshals the inputs; the step named after the
//! operation takes what the call returned (the primary result, the returned
//! string and the error slot, each string as its bytes) and decides the
//! outcome, and which returned strings the caller must release.
use vstd::prelude::*;
use vstd::utf8::*;
use crate::boundary::{
    check_error, has_terminator, lossy_text, marshal_text, parse_payload, slot_error_kind,
    take_string, boundary_text,
};
use crate::error::{ErrorKind, GomaxError};
use crate::json::json_accepts;

verus! {

/// The outcome of a boundary call, with the releases it obliges the caller
/// to make: each flag asks for exactly one release of that string.
#[derive(Debug)]
pub struct Completion<T> {
    pub result: Result<T, GomaxError>,
    /// Release the string that the error slot pointed to.
    pub release_error: bool,
    /// Release the string that the call returned.
    pub release_value: bool,
}

/// The outcome of the creation call. Where the exporting side reported an
/// error yet allocated an instance, that instance is to be closed.
#[derive(Debug)]
pub struct Creation {
    pub result: Result<Client, GomaxError>,
    /// Release the string that the error slot pointed to.
    pub release_error: bool,
    /// Close the handle that the call returned.
    pub close_handle: bool,
}

/// The marshalled arguments of a send call.
#[derive(Debug)]
pub struct SendCall {
    pub handle: usize,
    pub chat_id: i64,
    /// The text's bytes, without its terminator.
    pub text: Vec<u8>,
    pub notify: i32,
}

/// One step of tearing a client down, in the order in which they are made.
#[derive(Debug, Clone, Copy, PartialEq, Eq, Structural)]
pub enum TeardownStep {
    /// Close the handle: no further calls or trampoline firings follow.
    Close(usize),
    /// Release the container that holds the subscribed handler.
    ReleaseSubscription,
}

/// The abstract state of a client.
pub struct ClientView {
    pub handle: usize,
    pub started: bool,
    pub subscribed: bool,
}

/// A live client: a handle from a successful creation, whether it has been
/// started, and whether a handler is registered for inbound messages.
#[derive(Debug)]
pub struct Client {
    handle: usize,
    started: bool,
    subscribed: bool,
}

impl View for Client {
    type V = ClientView;

    closed spec fn view(&self) -> ClientView {
        ClientView { handle: self.handle, started: self.started, subscribed: self.subscribed }
    }
}

/// The steps that tear down a client in a given state: close first, then
/// release the subscription container if there is one.
pub open spec fn teardown_steps(v: ClientView) -> Seq<TeardownStep> {
    if v.subscribed {
        seq![TeardownStep::Close(v.handle), TeardownStep::ReleaseSubscription]
    } else {
        seq![TeardownStep::Close(v.handle)]
    }
}

/// How many times a step occurs in a sequence of teardown steps.
pub open spec fn occurrences(steps: Seq<TeardownStep>, step: TeardownStep) -> nat
    decreases steps.len(),
{
    if steps.len() == 0 {
        0
    } else {
        occurrences(steps.drop_last(), step) + if steps.last() == step {
            1nat
        } else {
            0nat
        }
    }
}

/// Tearing down a client closes its own handle exactly once and before
/// anything else, closes no other handle, and releases the subscription
/// container exactly once where one was registered and never otherwise.
pub proof fn lemma_teardown_exactly_once(v: ClientView)
    ensures
        teardown_steps(v)[0] == TeardownStep::Close(v.handle),
        occurrences(teardown_steps(v), TeardownStep::Close(v.handle)) == 1,
        forall|h: usize|
            h != v.handle ==> #[trigger] occurrences(teardown_steps(v), TeardownStep::Close(h))
                == 0,
        occurrences(teardown_steps(v), TeardownStep::ReleaseSubscription) == (if v.subscribed {
            1nat
        } else {
            0nat
        }),
{
    let steps = teardown_steps(v);
    reveal_with_fuel(occurrences, 3);
    if v.subscribed {
        assert(steps.drop_last() =~= seq![TeardownStep::Close(v.handle)]);
        assert(steps.drop_last().drop_last() =~= Seq::<TeardownStep>::empty());
    } else {
        assert(steps.drop_last() =~= Seq::<TeardownStep>::empty());
    }
}

/// Whether a returned payload is accepted: its text parses.
pub open spec fn payload_accepted(b: Seq<u8>) -> bool {
    json_accepts(lossy_text(b))
}

/// Whether a returned string is present and its payload accepted.
pub open spec fn accepted_value(value: Option<Vec<u8>>) -> bool {
    value matches Some(b) && payload_accepted(b@)
}

/// Whether a returned string is present and its payload refused.
pub open spec fn refused_value(value: Option<Vec<u8>>) -> bool {
    value matches Some(b) && !payload_accepted(b@)
}

/// Whether `r` failed with an error of the given kind.
pub open spec fn fails_with<T>(r: Result<T, GomaxError>, kind: ErrorKind) -> bool {
    r matches Err(e) && e.kind == kind
}

/// Whether `r` failed with the error that a non-null slot holding `b`
/// yields.
pub open spec fn fails_from_slot<T>(r: Result<T, GomaxError>, b: Seq<u8>, looks_successful: bool) -> bool {
    r matches Err(e) && e.kind == slot_error_kind(looks_successful) && e.message@ == lossy_text(b)
}

/// Takes a returned string that the operation guarantees and parses it.
fn take_payload(value: &Option<Vec<u8>>) -> (r: Result<serde_json::Value, GomaxError>)
    ensures
        r is Ok <==> accepted_value(*value),
        value is None ==> fails_with(r, ErrorKind::ProtocolViolation),
        refused_value(*value) ==> fails_with(r, ErrorKind::MalformedResponse),
{
    match take_string(value) {
        Err(e) => Err(e),
        Ok(s) => parse_payload(s.as_str()),
    }
}

impl Client {
    #[verifier::type_invariant]
    spec fn inv(&self) -> bool {
        self.handle != 0
    }

    /// The handle, passed back verbatim on every call.
    pub fn handle(&self) -> (r: usize)
        ensures
            r == self@.handle,
            r != 0,
    {
        proof {
            use_type_invariant(self);
        }
        self.handle
    }

    pub fn is_started(&self) -> (r: bool)
        ensures
            r == self@.started,
    {
        self.started
    }

    pub fn is_subscribed(&self) -> (r: bool)
        ensures
            r == self@.subscribed,
    {
        self.subscribed
    }

    /// Marshals the configuration for the creation call.
    pub fn config_bytes(config_json: &str) -> (r: Result<Vec<u8>, GomaxError>)
        ensures
            r is Ok <==> !has_terminator(encode_utf8(config_json@)),
            r matches Ok(v) ==> v@ == encode_utf8(config_json@),
            r matches Err(e) ==> e.kind == ErrorKind::ConfigInvalid,
    {
        match marshal_text(config_json) {
            Some(v) => Ok(v),
            None => Err(
                GomaxError::with_text(
                    ErrorKind::ConfigInvalid,
                    "configuration holds an embedded terminator byte",
                ),
            ),
        }
    }

    /// Completes the creation call from the handle it returned and its error
    /// slot. The null handle is a failure even where the slot is null.
    pub fn new(handle: usize, error: Option<Vec<u8>>) -> (r: Creation)
        ensures
            r.release_error == error is Some,
            r.close_handle == (error is Some && handle != 0),
            r.result is Ok <==> (error is None && handle != 0),
            r.result matches Ok(c) ==> c@ == (ClientView {
                handle,
                started: false,
                subscribed: false,
            }),
            error matches Some(b) ==> fails_from_slot(r.result, b@, handle != 0),
            error is None && handle == 0 ==> fails_with(r.result, ErrorKind::ConnectionSetupFailed),
    {
        let release_error = error.is_some();
        match check_error(&error, handle != 0) {
            Err(e) => Creation { result: Err(e), release_error, close_handle: handle != 0 },
            Ok(()) => {
                if handle == 0 {
                    Creation {
                        result: Err(
                            GomaxError::with_text(
                                ErrorKind::ConnectionSetupFailed,
                                "client creation returned the null handle",
                            ),
                        ),
                        release_error,
                        close_handle: false,
                    }
                } else {
                    let c = Client { handle, started: false, subscribed: false };
                    Creation { result: Ok(c), release_error, close_handle: false }
                }
            },
        }
    }

    /// Completes the start call from its primary result and error slot. A
    /// zero result is a failure even where the slot is null.
    pub fn start(&mut self, ok: i32, error: Option<Vec<u8>>) -> (r: Completion<()>)
        ensures
            r.release_error == error is Some,
            !r.release_value,
            r.result is Ok <==> (error is None && ok != 0),
            error matches Some(b) ==> fails_from_slot(r.result, b@, ok != 0),
            error is None && ok == 0 ==> fails_with(r.result, ErrorKind::StartFailed),
            final(self)@ == (ClientView {
                started: old(self)@.started || r.result is Ok,
                ..old(self)@
            }),
    {
        proof {
            use_type_invariant(&*self);
        }
        let release_error = error.is_some();
        let result = match check_error(&error, ok != 0) {
            Err(e) => Err(e),
            Ok(()) => {
                if ok == 0 {
                    Err(GomaxError::with_text(ErrorKind::StartFailed, "start reported failure"))
                } else {
                    Ok(())
                }
            },
        };
        if result.is_ok() {
            self.started = true;
        }
        Completion { result, release_error, release_value: false }
    }

    /// Marshals the arguments of a send call. Text that holds the terminator
    /// byte is refused, and no call is to be made.
    pub fn send_request(&self, chat_id: i64, text: &str, notify: bool) -> (r: Result<
        SendCall,
        GomaxError,
    >)
        ensures
            r is Ok <==> !has_terminator(encode_utf8(text@)),
            r matches Ok(c) ==> c.handle == self@.handle && c.chat_id == chat_id && c.text@
                == encode_utf8(text@) && c.notify == (if notify {
                1i32
            } else {
                0i32
            }),
            r matches Err(e) ==> e.kind == ErrorKind::InvalidInput,
    {
        match marshal_text(text) {
            None => Err(
                GomaxError::with_text(
                    ErrorKind::InvalidInput,
                    "text holds an embedded terminator byte",
                ),
            ),
            Some(bytes) => Ok(
                SendCall {
                    handle: self.handle,
                    chat_id,
                    text: bytes,
                    notify: if notify {
                        1
                    } else {
                        0
                    },
                },
            ),
        }
    }

    /// Completes a send call from the returned string and the error slot.
    /// The response is guaranteed: null is a protocol violation.
    pub fn send_message(&self, value: Option<Vec<u8>>, error: Option<Vec<u8>>) -> (r: Completion<
        serde_json::Value,
    >)
        ensures
            r.release_error == error is Some,
            r.release_value == value is Some,
            r.result is Ok <==> (error is None && accepted_value(value)),
            error matches Some(b) ==> fails_from_slot(r.result, b@, value is Some),
            error is None && value is None ==> fails_with(r.result, ErrorKind::ProtocolViolation),
            error is None && refused_value(value) ==> fails_with(r.result, ErrorKind::MalformedResponse),
    {
        let release_error = error.is_some();
        let release_value = value.is_some();
        let result = match check_error(&error, value.is_some()) {
            Err(e) => Err(e),
            Ok(()) => take_payload(&value),
        };
        Completion { result, release_error, release_value }
    }

    /// Completes a profile call. Null is the valid "no profile" result.
    pub fn profile(&self, value: Option<Vec<u8>>, error: Option<Vec<u8>>) -> (r: Completion<
        Option<serde_json::Value>,
    >)
        ensures
            r.release_error == error is Some,
            r.release_value == value is Some,
            (r.result matches Ok(p) && p is None) <==> (error is None && value is None),
            (r.result matches Ok(p) && p is Some) <==> (error is None && accepted_value(value)),
            error matches Some(b) ==> fails_from_slot(r.result, b@, value is Some),
            error is None && refused_value(value) ==> fails_with(r.result, ErrorKind::MalformedResponse),
    {
        let release_error = error.is_some();
        let release_value = value.is_some();
        let result = match check_error(&error, value.is_some()) {
            Err(e) => Err(e),
            Ok(()) => {
                if value.is_none() {
                    Ok(None)
                } else {
                    match take_payload(&value) {
                        Ok(v) => Ok(Some(v)),
                        Err(e) => Err(e),
                    }
                }
            },
        };
        Completion { result, release_error, release_value }
    }

    /// Completes a chat-list call. The list is guaranteed: null is a
    /// protocol violation, never an empty list.
    pub fn chats(&self, value: Option<Vec<u8>>, error: Option<Vec<u8>>) -> (r: Completion<
        serde_json::Value,
    >)
        ensures
            r.release_error == error is Some,
            r.release_value == value is Some,
            r.result is Ok <==> (error is None && accepted_value(value)),
            error matches Some(b) ==> fails_from_slot(r.result, b@, value is Some),
            error is None && value is None ==> fails_with(r.result, ErrorKind::ProtocolViolation),
            error is None && refused_value(value) ==> fails_with(r.result, ErrorKind::MalformedResponse),
    {
        let release_error = error.is_some();
        let release_value = value.is_some();
        let result = match check_error(&error, value.is_some()) {
            Err(e) => Err(e),
            Ok(()) => take_payload(&value),
        };
        Completion { result, release_error, release_value }
    }

    /// Records a subscription and returns the handle to register the
    /// trampoline with. A second subscription is refused: the exporting side
    /// gives no guarantee that a replaced registration has stopped firing.
    pub fn on_message(&mut self) -> (r: Result<usize, GomaxError>)
        ensures
            r is Ok <==> !old(self)@.subscribed,
            r matches Ok(h) ==> h == old(self)@.handle,
            r matches Err(e) ==> e.kind == ErrorKind::InvalidInput,
            final(self)@ == (ClientView { subscribed: true, ..old(self)@ }),
    {
        proof {
            use_type_invariant(&*self);
        }
        if self.subscribed {
            Err(GomaxError::with_text(ErrorKind::InvalidInput, "a handler is already subscribed"))
        } else {
            self.subscribed = true;
            Ok(self.handle)
        }
    }

    /// Tears the client down, consuming it: the handle is closed exactly
    /// once, and then the subscription container, if any, is released.
    pub fn teardown(self) -> (r: Vec<TeardownStep>)
        ensures
            r@ == teardown_steps(self@),
            self@.handle != 0,
    {
        proof {
            use_type_invariant(&self);
        }
        let mut steps: Vec<TeardownStep> = Vec::new();
        steps.push(TeardownStep::Close(self.handle));
        if self.subscribed {
            steps.push(TeardownStep::ReleaseSubscription);
        }
        steps
    }
}

/// Decides what a trampoline firing delivers: nothing where the payload or
/// the user data is null, else the payload's text.
pub fn on_message_trampoline(message: &Option<Vec<u8>>, has_user_data: bool) -> (r: Option<String>)
    ensures
        r is Some <==> (message is Some && has_user_data),
        r matches Some(s) ==> message matches Some(b) && s@ == lossy_text(b@),
{
    match message {
        Some(b) => {
            if has_user_data {
                Some(boundary_text(b))
            } else {
                None
            }
        },
        None => None,
    }
}

} // verus!
