use vstd::prelude::*;

use crate::msg::{
    build_message, c_text_bytes, has_nul, is_c_text, projectable, projects, Message, NativeMessage,
};

verus! {

/// What the delivery loop sees on one turn: either the channel handed
/// over an engine message, or the producer side closed with nothing
/// pending.
pub enum ChannelEvent {
    /// One engine message was received.
    Item(NativeMessage),
    /// The channel is closed and drained: the sole termination signal.
    Closed,
}

/// What the delivery loop must do next. The loop around the library
/// performs the action and comes back with the next event.
pub enum DeliveryAction {
    /// Invoke the host callback with this record, then free its
    /// buffers before the next event is taken.
    Deliver(Message),
    /// The message's text cannot be exposed as C strings (an interior
    /// null byte); report it on the diagnostic stream and go on.
    Reject,
    /// Exit the loop; the entrypoint may then return to its caller.
    Exit,
}

/// Decide one turn of the delivery loop. Closure of the channel is
/// the only way to exit; every received message is either projected
/// into exactly one record or rejected, never both, never twice.
pub fn delivery_step(event: ChannelEvent) -> (r: DeliveryAction)
    ensures
        match event {
            ChannelEvent::Closed => r is Exit,
            ChannelEvent::Item(n) => {
                &&& projectable(n) ==> (r matches DeliveryAction::Deliver(m) && projects(n, m)
                    && m.wf())
                &&& !projectable(n) ==> r is Reject
            },
        },
{
    match event {
        ChannelEvent::Item(n) => match build_message(&n) {
            Some(m) => DeliveryAction::Deliver(m),
            None => DeliveryAction::Reject,
        },
        ChannelEvent::Closed => DeliveryAction::Exit,
    }
}

/// What the subscription delivery loop sees on one turn: one
/// pre-serialized JSON text, or closure.
pub enum TextEvent {
    /// One pre-serialized message text was received.
    Text(Vec<u8>),
    /// The channel is closed and drained.
    Closed,
}

/// What the subscription delivery loop must do next.
pub enum TextAction {
    /// Invoke the host callback with this null-terminated buffer,
    /// then free it.
    Deliver(Vec<u8>),
    /// The text cannot be exposed as a C string; report and go on.
    Reject,
    /// Exit the loop.
    Exit,
}

/// Decide one turn of the subscription delivery loop, which streams
/// pre-serialized JSON text instead of structured records.
pub fn text_delivery_step(event: TextEvent) -> (r: TextAction)
    ensures
        match event {
            TextEvent::Closed => r is Exit,
            TextEvent::Text(s) => {
                &&& !has_nul(s@) ==> (r matches TextAction::Deliver(t) && t@ == s@.push(0)
                    && is_c_text(t@))
                &&& has_nul(s@) ==> r is Reject
            },
        },
{
    match event {
        TextEvent::Text(s) => match crate::msg::to_c_text(&s) {
            Some(t) => TextAction::Deliver(t),
            None => TextAction::Reject,
        },
        TextEvent::Closed => TextAction::Exit,
    }
}

/// Delivery preserves count and order: when each record of a session
/// projects the engine message at the same position, there are
/// exactly as many records as messages, and reading record `i` back
/// yields byte-for-byte the exchange name and payload of message `i`.
/// Records are never reordered, duplicated, dropped or batched.
pub proof fn lemma_delivery_order(natives: Seq<NativeMessage>, records: Seq<Message>)
    requires
        natives.len() == records.len(),
        forall|i: int| 0 <= i < natives.len() ==> projects(natives[i], #[trigger] records[i]),
    ensures
        forall|i: int|
            0 <= i < natives.len() ==> {
                &&& c_text_bytes((#[trigger] records[i]).exchange@) == natives[i].exchange@
                &&& records[i].market_type == natives[i].market_type
                &&& records[i].msg_type == natives[i].msg_type
                &&& records[i].received_at == natives[i].received_at
                &&& c_text_bytes(records[i].json@) == natives[i].json@
            },
{
    assert forall|i: int|
        0 <= i < natives.len() implies {
        &&& c_text_bytes((#[trigger] records[i]).exchange@) == natives[i].exchange@
        &&& records[i].market_type == natives[i].market_type
        &&& records[i].msg_type == natives[i].msg_type
        &&& records[i].received_at == natives[i].received_at
        &&& c_text_bytes(records[i].json@) == natives[i].json@
    } by {
        crate::msg::lemma_projection_fidelity(natives[i], records[i]);
    }
}

} // verus!
