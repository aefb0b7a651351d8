use vstd::prelude::*;

verus! {

/// An opaque caller identity: 32 bytes, compared for equality and, where
/// results are ranked, by the bytes in lexicographic order.
#[derive(Debug, Clone, Copy, Eq, Hash)]
pub struct AccountId {
    pub bytes: [u8; 32],
}

/// `a` comes before `b`: at the first byte where they differ, `a`'s is smaller.
pub open spec fn id_menor(a: AccountId, b: AccountId) -> bool {
    exists|k: int|
        0 <= k < 32 && a.bytes[k] < b.bytes[k] && (forall|j: int|
            0 <= j < k ==> a.bytes[j] == b.bytes[j])
}

impl PartialEq for AccountId {
    fn eq(&self, o: &AccountId) -> (r: bool)
        ensures
            r == (*self == *o),
    {
        let mut i: usize = 0;
        while i < 32
            invariant
                i <= 32,
                forall|j: int| 0 <= j < i ==> self.bytes[j] == o.bytes[j],
            decreases 32 - i,
        {
            if self.bytes[i] != o.bytes[i] {
                return false;
            }
            i = i + 1;
        }
        assert(self.bytes =~= o.bytes);
        true
    }
}

impl vstd::std_specs::cmp::PartialEqSpecImpl for AccountId {
    open spec fn obeys_eq_spec() -> bool {
        true
    }

    open spec fn eq_spec(&self, o: &AccountId) -> bool {
        *self == *o
    }
}

impl From<[u8; 32]> for AccountId {
    fn from(bytes: [u8; 32]) -> (r: AccountId)
        ensures
            r.bytes == bytes,
    {
        AccountId { bytes }
    }
}

impl vstd::std_specs::convert::FromSpecImpl<[u8; 32]> for AccountId {
    open spec fn obeys_from_spec() -> bool {
        true
    }

    open spec fn from_spec(bytes: [u8; 32]) -> AccountId {
        AccountId { bytes }
    }
}

/// How two identities compare in byte order.
pub enum Orden {
    Menor,
    Igual,
    Mayor,
}

/// Compares two identities byte by byte.
pub fn comparar_ids(a: &AccountId, b: &AccountId) -> (r: Orden)
    ensures
        r is Menor <==> id_menor(*a, *b),
        r is Mayor <==> id_menor(*b, *a),
        r is Igual <==> *a == *b,
{
    let mut i: usize = 0;
    while i < 32
        invariant
            i <= 32,
            forall|j: int| 0 <= j < i ==> a.bytes[j] == b.bytes[j],
        decreases 32 - i,
    {
        if a.bytes[i] < b.bytes[i] {
            proof {
                lema_no_menor_si_primero_mayor(*b, *a, i as int);
            }
            return Orden::Menor;
        }
        if a.bytes[i] > b.bytes[i] {
            proof {
                lema_no_menor_si_primero_mayor(*a, *b, i as int);
            }
            return Orden::Mayor;
        }
        i = i + 1;
    }
    assert(a.bytes =~= b.bytes);
    proof {
        lema_menor_irreflexivo(*a);
    }
    Orden::Igual
}

/// Where the bytes agree before `k` and `b`'s is smaller at `k`, `b` comes first,
/// and `a` does not.
proof fn lema_no_menor_si_primero_mayor(a: AccountId, b: AccountId, k: int)
    requires
        0 <= k < 32,
        b.bytes[k] < a.bytes[k],
        forall|j: int| 0 <= j < k ==> a.bytes[j] == b.bytes[j],
    ensures
        id_menor(b, a),
        !id_menor(a, b),
{
    assert(forall|j: int| 0 <= j < k ==> b.bytes[j] == a.bytes[j]);
    if id_menor(a, b) {
        let m = choose|m: int|
            0 <= m < 32 && a.bytes[m] < b.bytes[m] && (forall|j: int|
                0 <= j < m ==> a.bytes[j] == b.bytes[j]);
        if m < k {
            assert(a.bytes[m] == b.bytes[m]);
        } else if m > k {
            assert(a.bytes[k] == b.bytes[k]);
        }
    }
}

/// No identity comes before itself.
pub proof fn lema_menor_irreflexivo(a: AccountId)
    ensures
        !id_menor(a, a),
{
}

/// Byte order is transitive.
pub proof fn lema_menor_transitivo(a: AccountId, b: AccountId, c: AccountId)
    requires
        id_menor(a, b),
        id_menor(b, c),
    ensures
        id_menor(a, c),
{
    let k1 = choose|m: int|
        0 <= m < 32 && a.bytes[m] < b.bytes[m] && (forall|j: int|
            0 <= j < m ==> a.bytes[j] == b.bytes[j]);
    let k2 = choose|m: int|
        0 <= m < 32 && b.bytes[m] < c.bytes[m] && (forall|j: int|
            0 <= j < m ==> b.bytes[j] == c.bytes[j]);
    let k = if k1 < k2 { k1 } else { k2 };
    assert(a.bytes[k] < c.bytes[k]);
    assert(forall|j: int| 0 <= j < k ==> a.bytes[j] == c.bytes[j]);
}

} // verus!
