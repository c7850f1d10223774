//! Identifiers: 32-byte names of actors and of messages.

use vstd::prelude::*;

verus! {

broadcast use vstd::array::axiom_spec_array_fill_for_copy_type;

/// Number of bytes in an identifier.
pub const ID_LENGTH: usize = 32;

/// The array of 32 zero bytes.
pub open spec fn zero_bytes() -> [u8; 32] {
    vstd::array::spec_array_fill_for_copy_type::<u8, 32>(0u8)
}

/// Every byte of `zero_bytes` is zero, and an array of zero bytes is it.
pub proof fn lemma_zero_bytes(bytes: [u8; 32])
    ensures
        bytes == zero_bytes() <==> forall|i: int| 0 <= i < 32 ==> bytes[i] == 0,
{
    if forall|i: int| 0 <= i < 32 ==> bytes[i] == 0 {
        assert(bytes =~= zero_bytes());
    }
}

/// Whether two identifiers' byte arrays hold the same bytes.
fn same_bytes(a: &[u8; 32], b: &[u8; 32]) -> (r: bool)
    ensures
        r == (*a == *b),
{
    let mut i: usize = 0;
    while i < ID_LENGTH
        invariant
            i <= ID_LENGTH,
            forall|j: int| 0 <= j < i ==> a[j] == b[j],
        decreases ID_LENGTH - i,
    {
        if a[i] != b[i] {
            return false;
        }
        i = i + 1;
    }
    assert(*a =~= *b);
    true
}

/// Whether every byte of an identifier's array is zero.
fn all_zero(a: &[u8; 32]) -> (r: bool)
    ensures
        r == (*a == zero_bytes()),
{
    let mut i: usize = 0;
    while i < ID_LENGTH
        invariant
            i <= ID_LENGTH,
            forall|j: int| 0 <= j < i ==> a[j] == 0,
        decreases ID_LENGTH - i,
    {
        if a[i] != 0 {
            proof {
                lemma_zero_bytes(*a);
            }
            return false;
        }
        i = i + 1;
    }
    proof {
        lemma_zero_bytes(*a);
    }
    true
}

/// Identity of an actor: a user, the coordinator itself, or the word oracle.
#[derive(Clone, Copy, Debug, Eq, Hash)]
pub struct ActorId {
    pub bytes: [u8; 32],
}

impl ActorId {
    /// The identifier whose bytes are all zero. It names no actor.
    pub open spec fn spec_zero() -> ActorId {
        ActorId { bytes: zero_bytes() }
    }

    /// Whether this is the zero identifier.
    pub open spec fn spec_is_zero(&self) -> bool {
        *self == Self::spec_zero()
    }

    /// The identifier with these bytes.
    pub fn new(bytes: [u8; 32]) -> (r: ActorId)
        ensures
            r.bytes == bytes,
    {
        ActorId { bytes }
    }

    /// The identifier whose bytes are all zero.
    #[verifier::when_used_as_spec(spec_zero)]
    pub fn zero() -> (r: ActorId)
        ensures
            r == Self::spec_zero(),
    {
        ActorId { bytes: [0u8; 32] }
    }

    /// Whether every byte is zero.
    #[verifier::when_used_as_spec(spec_is_zero)]
    pub fn is_zero(&self) -> (r: bool)
        ensures
            r == self.spec_is_zero(),
    {
        all_zero(&self.bytes)
    }

    /// The bytes of the identifier.
    pub fn into_bytes(self) -> (r: [u8; 32])
        ensures
            r == self.bytes,
    {
        self.bytes
    }
}

/// Two actors are the same if their bytes are.
impl PartialEq for ActorId {
    fn eq(&self, other: &Self) -> (r: bool) {
        same_bytes(&self.bytes, &other.bytes)
    }
}

impl vstd::std_specs::cmp::PartialEqSpecImpl for ActorId {
    open spec fn obeys_eq_spec() -> bool {
        true
    }

    open spec fn eq_spec(&self, other: &Self) -> bool {
        *self == *other
    }
}

/// Identity of a message. A call is named by the message that carries it.
#[derive(Clone, Copy, Debug, Eq, Hash)]
pub struct MessageId {
    pub bytes: [u8; 32],
}

impl MessageId {
    /// The identifier whose bytes are all zero. It names no message.
    pub open spec fn spec_zero() -> MessageId {
        MessageId { bytes: zero_bytes() }
    }

    /// Whether this is the zero identifier.
    pub open spec fn spec_is_zero(&self) -> bool {
        *self == Self::spec_zero()
    }

    /// The identifier with these bytes.
    pub fn new(bytes: [u8; 32]) -> (r: MessageId)
        ensures
            r.bytes == bytes,
    {
        MessageId { bytes }
    }

    /// The identifier whose bytes are all zero.
    #[verifier::when_used_as_spec(spec_zero)]
    pub fn zero() -> (r: MessageId)
        ensures
            r == Self::spec_zero(),
    {
        MessageId { bytes: [0u8; 32] }
    }

    /// Whether every byte is zero.
    #[verifier::when_used_as_spec(spec_is_zero)]
    pub fn is_zero(&self) -> (r: bool)
        ensures
            r == self.spec_is_zero(),
    {
        all_zero(&self.bytes)
    }

    /// The bytes of the identifier.
    pub fn into_bytes(self) -> (r: [u8; 32])
        ensures
            r == self.bytes,
    {
        self.bytes
    }
}

/// Two messages are the same if their bytes are.
impl PartialEq for MessageId {
    fn eq(&self, other: &Self) -> (r: bool) {
        same_bytes(&self.bytes, &other.bytes)
    }
}

impl vstd::std_specs::cmp::PartialEqSpecImpl for MessageId {
    open spec fn obeys_eq_spec() -> bool {
        true
    }

    open spec fn eq_spec(&self, other: &Self) -> bool {
        *self == *other
    }
}

} // verus!
