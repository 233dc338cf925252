//! References to actors: unique identifiers, either random or derived from a parent and a name.
use uuid::Uuid;
use vstd::prelude::*;

verus! {

/// The UUID that `Uuid::new_v5` derives from a namespace UUID and a name.
pub uninterp spec fn uuid_v5(namespace: u128, name: Seq<u8>) -> u128;

/// The bits of a UUID that give its version and its variant.
pub open spec fn version_and_variant(id: u128) -> u128 {
    id & 0xF000_C000_0000_0000_0000u128
}

/// `Uuid::new_v4`, read as a `u128`: a random UUID whose version bits say version 4 and whose
/// variant bits say RFC 4122. The other bits come from the operating system's random number
/// generator, so nothing more is claimed of them.
#[verifier::external_body]
fn random_uuid() -> (r: u128)
    ensures
        version_and_variant(r) == 0x4000_8000_0000_0000_0000u128,
{
    Uuid::new_v4().as_u128()
}

/// `Uuid::new_v5` applied to the UUID `namespace` and the bytes `name`, read as a `u128`. The
/// result comes from the SHA-1 hash of the two, so it is claimed only to depend on them alone.
#[verifier::external_body]
fn name_based_uuid(namespace: u128, name: &[u8]) -> (r: u128)
    ensures
        r == uuid_v5(namespace, name@),
{
    Uuid::new_v5(&Uuid::from_u128(namespace), name).as_u128()
}

/// A reference to an actor.
#[derive(Debug, PartialEq, Eq)]
pub struct Reference {
    id: u128,
}

impl Reference {
    /// The identifier of this reference.
    pub closed spec fn spec_id(&self) -> u128 {
        self.id
    }

    /// The identifier of this reference.
    pub fn id(&self) -> (r: u128)
        ensures
            r == self.spec_id(),
    {
        self.id
    }

    /// Creates a new unparented actor reference with a random identifier.
    pub fn new() -> (r: Reference)
        ensures
            version_and_variant(r.spec_id()) == 0x4000_8000_0000_0000_0000u128,
    {
        Reference { id: random_uuid() }
    }

    /// Creates a new parented and named actor reference.
    pub fn new_parented(parent: &Reference, name: &str) -> (r: Reference)
        ensures
            r.spec_id() == uuid_v5(parent.spec_id(), vstd::utf8::encode_utf8(name@)),
    {
        Reference { id: name_based_uuid(parent.id, name.as_bytes()) }
    }
}

/// A parented reference is determined by its parent and its name: two references made by
/// [`Reference::new_parented`] from the same parent and the same name are equal.
pub proof fn lemma_parented_is_deterministic(parent: Reference, name: Seq<char>, a: Reference, b: Reference)
    requires
        a.spec_id() == uuid_v5(parent.spec_id(), vstd::utf8::encode_utf8(name)),
        b.spec_id() == uuid_v5(parent.spec_id(), vstd::utf8::encode_utf8(name)),
    ensures
        a == b,
{
}

} // verus!
