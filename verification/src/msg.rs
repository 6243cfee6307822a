use vstd::prelude::*;

use crate::market_type::MarketType;
use crate::msg_type::MessageType;

verus! {

/// One engine-emitted event in owned form: the plain fields the bridge
/// reads. The boundary shell receives these over the channel and hands
/// them to the library one at a time.
pub struct NativeMessage {
    /// Exchange name bytes.
    pub exchange: Vec<u8>,
    /// Market type of the instrument the event belongs to.
    pub market_type: MarketType,
    /// Kind of the event.
    pub msg_type: MessageType,
    /// Unix timestamp in milliseconds.
    pub received_at: u64,
    /// The original message payload bytes.
    pub json: Vec<u8>,
}

/// The record handed to the host callback: two null-terminated text
/// buffers plus the scalar fields copied by value. The boundary shell
/// exposes the buffers as raw pointers for the synchronous extent of
/// one callback call and frees them right after it returns.
pub struct Message {
    /// Null-terminated exchange name buffer.
    pub exchange: Vec<u8>,
    /// Market type, copied unchanged.
    pub market_type: MarketType,
    /// Message kind, copied unchanged.
    pub msg_type: MessageType,
    /// Unix timestamp in milliseconds, copied unchanged.
    pub received_at: u64,
    /// Null-terminated payload buffer.
    pub json: Vec<u8>,
}

/// A buffer fit for a C consumer: exactly one null byte, at the end.
pub open spec fn is_c_text(s: Seq<u8>) -> bool {
    &&& s.len() >= 1
    &&& s[s.len() - 1] == 0
    &&& forall|i: int| 0 <= i < s.len() - 1 ==> s[i] != 0
}

/// Whether a byte sequence contains a null byte anywhere.
pub open spec fn has_nul(s: Seq<u8>) -> bool {
    exists|i: int| 0 <= i < s.len() && s[i] == 0
}

/// The text a C consumer reads from a null-terminated buffer: every
/// byte before the terminator.
pub open spec fn c_text_bytes(s: Seq<u8>) -> Seq<u8> {
    s.take(s.len() - 1)
}

impl Message {
    /// Both buffers are valid C strings.
    pub open spec fn wf(self) -> bool {
        is_c_text(self.exchange@) && is_c_text(self.json@)
    }
}

/// How a record relates to the native message it was built from: each
/// text buffer is the original bytes plus a terminator, and the scalar
/// fields are copied unchanged.
pub open spec fn projects(native: NativeMessage, m: Message) -> bool {
    &&& m.exchange@ == native.exchange@.push(0)
    &&& m.market_type == native.market_type
    &&& m.msg_type == native.msg_type
    &&& m.received_at == native.received_at
    &&& m.json@ == native.json@.push(0)
}

/// Whether a native message can be projected into a record: neither
/// text field contains a null byte, so both can be null-terminated.
pub open spec fn projectable(native: NativeMessage) -> bool {
    !has_nul(native.exchange@) && !has_nul(native.json@)
}

/// Copy `src` into a fresh null-terminated buffer, refusing byte
/// strings that already contain a null byte.
pub fn to_c_text(src: &Vec<u8>) -> (r: Option<Vec<u8>>)
    ensures
        match r {
            Some(t) => !has_nul(src@) && t@ == src@.push(0) && is_c_text(t@),
            None => has_nul(src@),
        },
{
    let mut out: Vec<u8> = Vec::new();
    let mut i: usize = 0;
    while i < src.len()
        invariant
            0 <= i <= src@.len(),
            out@ == src@.take(i as int),
            forall|j: int| 0 <= j < i ==> src@[j] != 0,
        decreases src@.len() - i,
    {
        let b = src[i];
        if b == 0 {
            assert(src@[i as int] == 0);
            return None;
        }
        out.push(b);
        assert(out@ =~= src@.take(i + 1));
        i += 1;
    }
    out.push(0);
    assert(src@.take(src@.len() as int) =~= src@);
    Some(out)
}

/// Build the callback record for one native message: allocate the two
/// null-terminated buffers and copy the scalar fields. Returns `None`
/// exactly when a text field contains a null byte and so cannot be
/// exposed as a C string.
pub fn build_message(native: &NativeMessage) -> (r: Option<Message>)
    ensures
        match r {
            Some(m) => projectable(*native) && projects(*native, m) && m.wf(),
            None => !projectable(*native),
        },
{
    let exchange = match to_c_text(&native.exchange) {
        Some(buf) => buf,
        None => {
            return None;
        },
    };
    let json = match to_c_text(&native.json) {
        Some(buf) => buf,
        None => {
            return None;
        },
    };
    Some(Message {
        exchange,
        market_type: native.market_type,
        msg_type: native.msg_type,
        received_at: native.received_at,
        json,
    })
}

/// Round-trip fidelity of projection: reading the record's buffers
/// back as C text yields byte-for-byte the native exchange name and
/// payload, and the scalar fields are unchanged.
pub proof fn lemma_projection_fidelity(native: NativeMessage, m: Message)
    requires
        projects(native, m),
    ensures
        c_text_bytes(m.exchange@) == native.exchange@,
        m.market_type == native.market_type,
        m.msg_type == native.msg_type,
        m.received_at == native.received_at,
        c_text_bytes(m.json@) == native.json@,
{
    assert(c_text_bytes(m.exchange@) =~= native.exchange@);
    assert(c_text_bytes(m.json@) =~= native.json@);
}

} // verus!
