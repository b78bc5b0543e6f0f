//! The two process-wide slots: the last error message and the stored
//! credential pair. Each is a plain value here; whoever shares them between
//! threads guards each one on its own and replaces values whole.

use vstd::prelude::*;
use vstd::utf8::*;
use vstd::string::*;
use crate::text::{decode_text, decoded, handle_view};

verus! {

/// The most recent failure description, if any failure has happened yet.
pub struct ErrorSlot {
    message: Option<String>,
}

impl View for ErrorSlot {
    type V = Option<Seq<char>>;

    closed spec fn view(&self) -> Option<Seq<char>> {
        match self.message {
            None => None,
            Some(m) => Some(m@),
        }
    }
}

/// The bytes of the stored message, empty when there is none.
pub open spec fn message_bytes(slot: Option<Seq<char>>) -> Seq<u8> {
    match slot {
        None => Seq::empty(),
        Some(m) => encode_utf8(m),
    }
}

/// How many message bytes fit in a buffer of `capacity` bytes next to the
/// terminating NUL.
pub open spec fn copied_len(len: nat, capacity: nat) -> nat {
    if capacity == 0 {
        0
    } else if len < capacity {
        len
    } else {
        (capacity - 1) as nat
    }
}

/// The buffer after a copy of `msg`: the first bytes of the message, a NUL,
/// then the rest of the buffer as it was. A buffer of no bytes stays as it is.
pub open spec fn filled_buffer(msg: Seq<u8>, buf: Seq<u8>) -> Seq<u8> {
    if buf.len() == 0 {
        buf
    } else {
        let k = copied_len(msg.len(), buf.len()) as int;
        msg.subrange(0, k) + seq![0u8] + buf.subrange(k + 1, buf.len() as int)
    }
}

impl ErrorSlot {
    /// An empty slot, as at process start.
    pub fn new() -> (r: ErrorSlot)
        ensures
            r@ is None,
    {
        ErrorSlot { message: None }
    }

    /// Replaces the message, whatever was there.
    pub fn record(&mut self, message: String)
        ensures
            final(self)@ == Some(message@),
    {
        self.message = Some(message);
    }

    /// A copy of the stored message.
    pub fn message(&self) -> (r: Option<String>)
        ensures
            match r {
                None => self@ is None,
                Some(m) => self@ == Some(m@),
            },
    {
        match &self.message {
            None => None,
            Some(m) => Some(m.clone()),
        }
    }
}

/// Replaces the message in `slot` with `s`.
pub fn set_err(slot: &mut ErrorSlot, s: String)
    ensures
        final(slot)@ == Some(s@),
{
    slot.record(s);
}

/// The length in bytes of the stored message, 0 when there is none.
pub fn gitffi_last_error_len(slot: &ErrorSlot) -> (r: usize)
    ensures
        r == message_bytes(slot@).len(),
{
    match &slot.message {
        None => 0,
        Some(m) => m.as_str().as_bytes().len(),
    }
}

/// Copies as much of the stored message as fits into `buf`, followed by a
/// NUL, and returns the full length of the message. A caller sees that the
/// copy was cut short when the result is not below the buffer's length.
pub fn gitffi_last_error(slot: &ErrorSlot, buf: &mut [u8]) -> (r: usize)
    ensures
        r == message_bytes(slot@).len(),
        final(buf)@ == filled_buffer(message_bytes(slot@), old(buf)@),
{
    let bytes: &[u8] = match &slot.message {
        None => &[],
        Some(m) => m.as_str().as_bytes(),
    };
    let len = bytes.len();
    let capacity = buf.len();
    if capacity == 0 {
        return len;
    }
    let k: usize = if len < capacity { len } else { capacity - 1 };
    let ghost before = buf@;
    let mut i: usize = 0;
    while i < k
        invariant
            0 <= i <= k,
            k < capacity,
            capacity == buf@.len(),
            len == bytes@.len(),
            k <= len,
            bytes@ == message_bytes(slot@),
            buf@.len() == before.len(),
            forall|j: int| 0 <= j < i ==> buf@[j] == bytes@[j],
            forall|j: int| i <= j < buf@.len() ==> buf@[j] == before[j],
        decreases k - i,
    {
        buf[i] = bytes[i];
        i = i + 1;
    }
    buf[k] = 0;
    assert(buf@ =~= filled_buffer(bytes@, before));
    len
}

/// The stored credentials: an identity and its secret, or nothing.
pub struct CredentialSlot {
    pair: Option<(String, String)>,
}

impl View for CredentialSlot {
    type V = Option<(Seq<char>, Seq<char>)>;

    closed spec fn view(&self) -> Option<(Seq<char>, Seq<char>)> {
        match self.pair {
            None => None,
            Some((u, p)) => Some((u@, p@)),
        }
    }
}

impl CredentialSlot {
    /// An empty slot, as at process start.
    pub fn new() -> (r: CredentialSlot)
        ensures
            r@ is None,
    {
        CredentialSlot { pair: None }
    }

    /// Whether a pair is stored.
    pub fn is_set(&self) -> (r: bool)
        ensures
            r == self@ is Some,
    {
        self.pair.is_some()
    }

    /// A copy of this slot, taken whole.
    pub fn snapshot(&self) -> (r: CredentialSlot)
        ensures
            r@ == self@,
    {
        match &self.pair {
            None => CredentialSlot { pair: None },
            Some((u, p)) => CredentialSlot { pair: Some((u.clone(), p.clone())) },
        }
    }

    /// The stored pair, borrowed.
    pub fn pair(&self) -> (r: Option<(&String, &String)>)
        ensures
            match r {
                None => self@ is None,
                Some((u, p)) => self@ == Some((u@, p@)),
            },
    {
        match &self.pair {
            None => None,
            Some((u, p)) => Some((u, p)),
        }
    }

    /// Stores `identity` and `secret`, replacing any earlier pair.
    pub fn store(&mut self, identity: String, secret: String)
        ensures
            final(self)@ == Some((identity@, secret@)),
    {
        self.pair = Some((identity, secret));
    }
}

/// The result code of storing credentials from two host handles: -1 when
/// either is null, -2 when the identity is not valid UTF-8, -3 when the
/// secret is not, 0 otherwise.
pub open spec fn set_credentials_code(user: Option<Seq<u8>>, pass: Option<Seq<u8>>) -> int {
    if user is None || pass is None {
        -1
    } else if decoded(user) is Err {
        -2
    } else if decoded(pass) is Err {
        -3
    } else {
        0
    }
}

/// Stores the identity and secret behind two host handles. On any failure
/// the slot keeps what it held.
pub fn gitffi_set_credentials(slot: &mut CredentialSlot, user: Option<&[u8]>, pass: Option<&[u8]>) -> (r: i32)
    ensures
        r == set_credentials_code(handle_view(user), handle_view(pass)),
        r == 0 ==> final(slot)@ == Some((
            decoded(handle_view(user))->Ok_0,
            decoded(handle_view(pass))->Ok_0,
        )),
        r != 0 ==> final(slot)@ == old(slot)@,
{
    if user.is_none() || pass.is_none() {
        return -1;
    }
    let u = match decode_text(user) {
        Ok(s) => s,
        Err(_) => return -2,
    };
    let p = match decode_text(pass) {
        Ok(s) => s,
        Err(_) => return -3,
    };
    slot.store(u, p);
    0
}

/// Empties the credential slot; emptying an empty slot changes nothing.
pub fn gitffi_clear_credentials(slot: &mut CredentialSlot)
    ensures
        final(slot)@ is None,
{
    slot.pair = None;
}

} // verus!
