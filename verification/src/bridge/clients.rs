//! Handles on native clients, and how a client is found or made for one.

use vstd::prelude::*;

verus! {

/// The source of handles.
pub struct SafeHandles {
    next: u64,
}

impl View for SafeHandles {
    type V = u64;

    /// The handle that is given out next.
    closed spec fn view(&self) -> u64 {
        self.next
    }
}

impl SafeHandles {
    /// A source whose first handle is 1.
    pub fn new() -> (handles: SafeHandles)
        ensures
            handles@ == 1,
    {
        SafeHandles { next: 1 }
    }
}

/// Gives out a handle that was not given out before, until all 2^64 of them were.
pub fn generate_safe_handle(handles: &mut SafeHandles) -> (handle: u64)
    ensures
        handle == old(handles)@,
        final(handles)@ == crate::serial::following(old(handles)@),
{
    let handle = handles.next;
    handles.next = handles.next.wrapping_add(1);
    handle
}

/// What is done next to find the client of a handle.
#[derive(Clone, Copy, Debug, PartialEq, Eq, Structural)]
pub enum ClientStep {
    /// Look the handle up among the clients.
    LookUp,
    /// Take the configuration that waits under the handle.
    TakePending,
    /// Connect with that configuration: at once, whatever it says of connecting lazily, and with a
    /// channel for push messages.
    Connect { lazy_connect: bool, push_channel: bool },
    /// Keep the client under the handle.
    Keep,
    /// Register the client with the scopes, under the handle.
    Register,
    /// Forward the push messages of the client from now on.
    ForwardPushes,
    /// The client that is kept under the handle is the one.
    Found,
    /// There is neither a client nor a configuration.
    NotFound,
    /// The client could not connect.
    ConnectFailed,
}

/// What is done after a step that succeeded or did not. A client that exists is used; otherwise a
/// configuration that waits is used up to make one.
pub open spec fn client_step_after(step: ClientStep, succeeded: bool) -> ClientStep {
    match step {
        ClientStep::LookUp => if succeeded {
            ClientStep::Found
        } else {
            ClientStep::TakePending
        },
        ClientStep::TakePending => if succeeded {
            ClientStep::Connect { lazy_connect: false, push_channel: true }
        } else {
            ClientStep::NotFound
        },
        ClientStep::Connect { .. } => if succeeded {
            ClientStep::Keep
        } else {
            ClientStep::ConnectFailed
        },
        ClientStep::Keep => ClientStep::Register,
        ClientStep::Register => ClientStep::ForwardPushes,
        ClientStep::ForwardPushes => ClientStep::Found,
        ClientStep::Found => ClientStep::Found,
        ClientStep::NotFound => ClientStep::NotFound,
        ClientStep::ConnectFailed => ClientStep::ConnectFailed,
    }
}

/// Finds or makes the client of a handle, step by step: says what is done after a step that
/// succeeded or did not.
pub fn ensure_client_for_handle(step: ClientStep, succeeded: bool) -> (next: ClientStep)
    ensures
        next == client_step_after(step, succeeded),
{
    match step {
        ClientStep::LookUp => {
            if succeeded {
                ClientStep::Found
            } else {
                ClientStep::TakePending
            }
        },
        ClientStep::TakePending => {
            if succeeded {
                ClientStep::Connect { lazy_connect: false, push_channel: true }
            } else {
                ClientStep::NotFound
            }
        },
        ClientStep::Connect { .. } => {
            if succeeded {
                ClientStep::Keep
            } else {
                ClientStep::ConnectFailed
            }
        },
        ClientStep::Keep => ClientStep::Register,
        ClientStep::Register => ClientStep::ForwardPushes,
        ClientStep::ForwardPushes => ClientStep::Found,
        ClientStep::Found => ClientStep::Found,
        ClientStep::NotFound => ClientStep::NotFound,
        ClientStep::ConnectFailed => ClientStep::ConnectFailed,
    }
}

/// The message for a handle that has neither a client nor a configuration.
pub const CLIENT_NOT_FOUND: &'static str = "Client not found in handle_table";

/// The message for a client that could not connect.
pub fn connect_failure(error: &str) -> (message: String)
    ensures
        message@ == "Failed to create glide-core client: "@ + error@,
{
    let mut message = "Failed to create glide-core client: ".to_owned();
    message.append(error);
    message
}

/// How many steps can still be taken.
pub open spec fn client_steps_left(step: ClientStep) -> nat {
    match step {
        ClientStep::LookUp => 6,
        ClientStep::TakePending => 5,
        ClientStep::Connect { .. } => 4,
        ClientStep::Keep => 3,
        ClientStep::Register => 2,
        ClientStep::ForwardPushes => 1,
        _ => 0,
    }
}

/// The search for a client ends, and a client is made only where none was found and a
/// configuration was taken. It always connects at once and with a channel for push messages.
pub proof fn law_client_search_ends(step: ClientStep, succeeded: bool)
    ensures
        client_steps_left(step) > 0 ==> client_steps_left(client_step_after(step, succeeded))
            < client_steps_left(step),
        client_step_after(step, succeeded) is Connect ==> step
            == ClientStep::TakePending && succeeded,
        client_step_after(step, succeeded) matches ClientStep::Connect {
            lazy_connect,
            push_channel,
        } ==> !lazy_connect && push_channel,
        client_step_after(step, succeeded) == ClientStep::TakePending ==> step == ClientStep::LookUp
            && !succeeded,
{
}

/// Where the search for a client stands after steps that came out so.
pub open spec fn client_steps(step: ClientStep, results: Seq<bool>) -> ClientStep
    decreases results.len(),
{
    if results.len() == 0 {
        step
    } else {
        client_steps(client_step_after(step, results[0]), results.drop_first())
    }
}

/// What the search for a client comes to: the client that was there, or the one that was made of a
/// configuration and connected; otherwise the caller is told which of the two was missing.
pub proof fn law_client_search_outcome(results: Seq<bool>)
    requires
        results.len() >= 6,
    ensures
        client_steps(ClientStep::LookUp, results) == (if results[0] {
            ClientStep::Found
        } else if !results[1] {
            ClientStep::NotFound
        } else if !results[2] {
            ClientStep::ConnectFailed
        } else {
            ClientStep::Found
        }),
{
    reveal_with_fuel(client_steps, 7);
    let one = results.drop_first();
    let two = one.drop_first();
    let three = two.drop_first();
    let six = three.drop_first().drop_first().drop_first();
    lemma_client_end_stays(ClientStep::Found, one);
    lemma_client_end_stays(ClientStep::NotFound, two);
    lemma_client_end_stays(ClientStep::ConnectFailed, three);
    lemma_client_end_stays(ClientStep::Found, six);
}

proof fn lemma_client_end_stays(end: ClientStep, results: Seq<bool>)
    requires
        client_steps_left(end) == 0,
    ensures
        client_steps(end, results) == end,
    decreases results.len(),
{
    if results.len() > 0 {
        lemma_client_end_stays(end, results.drop_first());
    }
}

/// The steps by which a client is made: it is kept under its handle, registered and forwards its push
/// messages, in this order, once it is connected.
pub proof fn law_client_steps_in_order(connected: bool)
    ensures
        client_steps(ClientStep::LookUp, seq![false]) == ClientStep::TakePending,
        client_steps(ClientStep::LookUp, seq![false, true]) == (ClientStep::Connect {
            lazy_connect: false,
            push_channel: true,
        }),
        client_steps(ClientStep::LookUp, seq![false, true, false]) == ClientStep::ConnectFailed,
        client_steps(ClientStep::LookUp, seq![false, true, true]) == ClientStep::Keep,
        client_steps(ClientStep::LookUp, seq![false, true, true, connected])
            == ClientStep::Register,
        client_steps(ClientStep::LookUp, seq![false, true, true, connected, connected])
            == ClientStep::ForwardPushes,
        client_steps(ClientStep::LookUp, seq![false, true, true, connected, connected, connected])
            == ClientStep::Found,
        client_steps(ClientStep::LookUp, seq![false, false]) == ClientStep::NotFound,
        client_steps(ClientStep::LookUp, seq![true]) == ClientStep::Found,
{
    reveal_with_fuel(client_steps, 7);
}

/// The text for a handle that has neither a client nor a configuration.
pub proof fn law_text_without_a_client()
    ensures
        CLIENT_NOT_FOUND@ == "Client not found in handle_table"@,
{
}

} // verus!
