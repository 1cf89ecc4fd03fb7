use vstd::prelude::*;
use vstd::slice::slice_to_vec;
use vstd::string::StringSliceAdditionalSpecFns;

verus! {

/// A 32-byte account key: the address of a record, or the identity of a signer.
#[derive(Clone, Copy, Debug, Eq, Hash)]
pub struct Key {
    pub bytes: [u8; 32],
}

impl View for Key {
    type V = Seq<u8>;

    open spec fn view(&self) -> Seq<u8> {
        self.bytes@
    }
}

impl Key {
    /// The key with the given bytes.
    pub fn new(bytes: [u8; 32]) -> (r: Key)
        ensures
            r.bytes == bytes,
    {
        Key { bytes }
    }

    /// The bytes of the key.
    pub fn to_bytes(&self) -> (r: [u8; 32])
        ensures
            r == self.bytes,
    {
        self.bytes
    }
}

impl PartialEq for Key {
    fn eq(&self, other: &Key) -> (r: bool) {
        let mut i: usize = 0;
        while i < 32
            invariant
                i <= 32,
                forall|j: int| 0 <= j < i ==> self.bytes@[j] == other.bytes@[j],
            decreases 32 - i,
        {
            if self.bytes[i] != other.bytes[i] {
                return false;
            }
            i = i + 1;
        }
        assert(self.bytes =~= other.bytes);
        true
    }
}

impl vstd::std_specs::cmp::PartialEqSpecImpl for Key {
    open spec fn obeys_eq_spec() -> bool {
        true
    }

    open spec fn eq_spec(&self, other: &Key) -> bool {
        *self == *other
    }
}

/// Two keys are equal exactly when their bytes are.
pub proof fn lemma_key_eq(a: Key, b: Key)
    ensures
        (a@ == b@) <==> a == b,
{
    if a@ == b@ {
        assert(a.bytes =~= b.bytes);
    }
}

/// The seeds of a record: the discriminator that names its kind, then `seeds`.
pub open spec fn record_seeds(discriminator: Seq<u8>, seeds: Seq<Seq<u8>>) -> Seq<Seq<u8>> {
    seq![discriminator] + seeds
}

proof fn lemma_bytes_deep_view(v: Vec<u8>)
    ensures
        v.deep_view() == v@,
{
    assert(v.deep_view() =~= v@);
}

/// The seed bytes of a key.
pub fn key_seed(k: &Key) -> (r: Vec<u8>)
    ensures
        r@ == k@,
{
    slice_to_vec(k.bytes.as_slice())
}

/// The full seed list of a record: the discriminator that names its kind,
/// then its ordered seeds. The host derives the record's address and bump
/// from this list and the program key.
pub fn seed_list(discriminator: &str, seeds: &Vec<Vec<u8>>) -> (r: Vec<Vec<u8>>)
    ensures
        r.deep_view() == record_seeds(discriminator.spec_bytes(), seeds.deep_view()),
{
    let mut all: Vec<Vec<u8>> = Vec::new();
    all.push(slice_to_vec(discriminator.as_bytes()));
    let mut i: usize = 0;
    while i < seeds.len()
        invariant
            i <= seeds@.len(),
            all@.len() == i + 1,
            all@[0]@ == discriminator.spec_bytes(),
            forall|j: int| 0 <= j < i ==> #[trigger] all@[j + 1]@ == seeds@[j]@,
        decreases seeds@.len() - i,
    {
        all.push(slice_to_vec(seeds[i].as_slice()));
        i = i + 1;
    }
    assert forall|j: int| 0 <= j < all@.len() implies #[trigger] all.deep_view()[j] == record_seeds(
        discriminator.spec_bytes(),
        seeds.deep_view(),
    )[j] by {
        lemma_bytes_deep_view(all@[j]);
        assert(all.deep_view()[j] == all@[j].deep_view());
        if j > 0 {
            lemma_bytes_deep_view(seeds@[j - 1]);
            assert(all@[(j - 1) + 1]@ == seeds@[j - 1]@);
            assert(seeds.deep_view()[j - 1] == seeds@[j - 1].deep_view());
        }
    }
    assert(all.deep_view() =~= record_seeds(discriminator.spec_bytes(), seeds.deep_view()));
    all
}

/// The seed list of a record determines its kind and its seeds: a record of
/// another kind, or with any seed changed, added, dropped or moved, has
/// another seed list.
pub proof fn lemma_seed_lists_distinct(
    discriminator1: Seq<u8>,
    seeds1: Seq<Seq<u8>>,
    discriminator2: Seq<u8>,
    seeds2: Seq<Seq<u8>>,
)
    ensures
        record_seeds(discriminator1, seeds1) == record_seeds(discriminator2, seeds2) ==> (
        discriminator1 == discriminator2 && seeds1 == seeds2),
{
    if record_seeds(discriminator1, seeds1) == record_seeds(discriminator2, seeds2) {
        assert(record_seeds(discriminator1, seeds1)[0] == discriminator1);
        assert(record_seeds(discriminator2, seeds2)[0] == discriminator2);
        assert(seeds1 =~= record_seeds(discriminator1, seeds1).drop_first());
        assert(seeds2 =~= record_seeds(discriminator2, seeds2).drop_first());
    }
}

} // verus!
