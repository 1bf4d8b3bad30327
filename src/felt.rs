//! Field elements, hashes and contract addresses held as 32 big-endian bytes.
use vstd::prelude::*;

verus! {

/// `256^n`.
pub open spec fn pow256(n: nat) -> nat
    decreases n,
{
    if n == 0 {
        1
    } else {
        256 * pow256((n - 1) as nat)
    }
}

/// The number that a byte sequence spells in big-endian order.
pub open spec fn be_value(s: Seq<u8>) -> nat
    decreases s.len(),
{
    if s.len() == 0 {
        0
    } else {
        s[0] as nat * pow256((s.len() - 1) as nat) + be_value(s.subrange(1, s.len() as int))
    }
}

/// The prime of the field: `2^251 + 17 * 2^192 + 1`.
pub open spec fn field_modulus() -> nat {
    8 * pow256(31) + 17 * pow256(24) + 1
}

/// The 32 big-endian bytes of the field prime.
pub open spec fn modulus_bytes() -> Seq<u8> {
    Seq::new(32, |i: int| if i == 0 { 8u8 } else if i == 7 { 17u8 } else if i == 31 { 1u8 } else { 0u8 })
}

/// Values of a contract address lie below `2^251`.
pub open spec fn address_bound() -> nat {
    8 * pow256(31)
}

/// A 32-byte sequence holds a field element.
pub open spec fn is_felt(s: Seq<u8>) -> bool {
    s.len() == 32 && be_value(s) < field_modulus()
}

/// A 32-byte sequence holds a contract address.
pub open spec fn is_address(s: Seq<u8>) -> bool {
    s.len() == 32 && be_value(s) < address_bound()
}

pub proof fn lemma_be_value_below_pow(s: Seq<u8>)
    ensures
        be_value(s) < pow256(s.len()),
    decreases s.len(),
{
    if s.len() > 0 {
        let n = (s.len() - 1) as nat;
        let rest = s.subrange(1, s.len() as int);
        lemma_be_value_below_pow(rest);
        let p = pow256(n);
        let d = s[0] as nat;
        assert(d <= 255);
        assert(d * p + p <= 256 * p) by (nonlinear_arith)
            requires
                d <= 255,
        ;
    }
}

pub proof fn lemma_pow256_positive(n: nat)
    ensures
        pow256(n) >= 1,
    decreases n,
{
    if n > 0 {
        lemma_pow256_positive((n - 1) as nat);
    }
}

pub proof fn lemma_pow256_add(a: nat, b: nat)
    ensures
        pow256(a + b) == pow256(a) * pow256(b),
    decreases a,
{
    if a > 0 {
        lemma_pow256_add((a - 1) as nat, b);
        let pa = pow256((a - 1) as nat);
        let pb = pow256(b);
        let ab = (a - 1 + b) as nat;
        assert(ab + 1 == a + b);
        assert(pow256(a) == 256 * pa);
        assert(pow256(a + b) == 256 * pow256(ab));
        assert(pow256(ab) == pa * pb);
        assert(256 * (pa * pb) == (256 * pa) * pb) by (nonlinear_arith);
        assert(pow256(a + b) == pow256(a) * pb);
    } else {
        assert(pow256(a) == 1);
        assert(pow256(a + b) == pow256(b));
    }
}

/// Leading zero bytes add nothing to the value.
pub proof fn lemma_be_value_leading_zeros(s: Seq<u8>, k: int)
    requires
        0 <= k <= s.len(),
        forall|i: int| 0 <= i < k ==> s[i] == 0,
    ensures
        be_value(s) == be_value(s.subrange(k, s.len() as int)),
    decreases k,
{
    if k > 0 {
        let t = s.subrange(1, s.len() as int);
        assert(forall|i: int| 0 <= i < k - 1 ==> t[i] == s[i + 1]);
        lemma_be_value_leading_zeros(t, k - 1);
        assert(s[0] == 0);
        assert(be_value(s) == 0 * pow256((s.len() - 1) as nat) + be_value(t));
        assert(t.subrange(k - 1, t.len() as int) =~= s.subrange(k, s.len() as int));
    } else {
        assert(s.subrange(0, s.len() as int) =~= s);
    }
}

/// The bytes of the field prime spell the prime.
pub proof fn lemma_modulus_bytes()
    ensures
        be_value(modulus_bytes()) == field_modulus(),
{
    let m = modulus_bytes();
    let m1 = m.subrange(1, 32);
    lemma_be_value_leading_zeros(m1, 6);
    let m7 = m1.subrange(6, 31);
    assert(m7 =~= m.subrange(7, 32));
    let m8 = m7.subrange(1, 25);
    lemma_be_value_leading_zeros(m8, 23);
    let m31 = m8.subrange(23, 24);
    assert(m31 =~= seq![1u8]);
    assert(be_value(seq![1u8]) == 1) by {
        assert(seq![1u8].subrange(1, 1) =~= Seq::<u8>::empty());
        assert(be_value(Seq::<u8>::empty()) == 0);
        assert(pow256(0) == 1);
        assert(be_value(seq![1u8]) == 1 * pow256(0) + be_value(seq![1u8].subrange(1, 1)));
    }
}

/// The field prime lies below `2^252` and above the address bound.
pub proof fn lemma_modulus_between()
    ensures
        address_bound() < field_modulus(),
        field_modulus() < 16 * pow256(31),
{
    lemma_pow256_add(7, 24);
    lemma_pow256_positive(6);
    lemma_pow256_positive(24);
    let p7 = pow256(7);
    let p24 = pow256(24);
    assert(p7 >= 256);
    assert(p7 * p24 >= 256 * p24) by (nonlinear_arith)
        requires
            p7 >= 256,
    ;
}

/// Of two byte sequences of one length that agree before `i` and differ at `i`, the one with the
/// smaller byte at `i` has the smaller value.
pub proof fn lemma_be_value_first_difference(a: Seq<u8>, b: Seq<u8>, i: int)
    requires
        a.len() == b.len(),
        0 <= i < a.len(),
        a.subrange(0, i) == b.subrange(0, i),
        a[i] != b[i],
    ensures
        be_value(a) < be_value(b) <==> a[i] < b[i],
    decreases i,
{
    let n = (a.len() - 1) as nat;
    let ta = a.subrange(1, a.len() as int);
    let tb = b.subrange(1, b.len() as int);
    let p = pow256(n);
    if i == 0 {
        lemma_be_value_below_pow(ta);
        lemma_be_value_below_pow(tb);
        let x = a[0] as nat;
        let y = b[0] as nat;
        if x < y {
            assert(x * p + p <= y * p) by (nonlinear_arith)
                requires
                    x + 1 <= y,
            ;
        } else {
            assert(y * p + p <= x * p) by (nonlinear_arith)
                requires
                    y + 1 <= x,
            ;
        }
    } else {
        assert(a[0] == a.subrange(0, i)[0]);
        assert(b[0] == b.subrange(0, i)[0]);
        assert(ta.subrange(0, i - 1) =~= a.subrange(0, i).subrange(1, i));
        assert(tb.subrange(0, i - 1) =~= b.subrange(0, i).subrange(1, i));
        lemma_be_value_first_difference(ta, tb, i - 1);
    }
}

/// On 32 bytes, the value lies below `k * 256^31` exactly when the first byte lies below `k`.
pub proof fn lemma_leading_byte(s: Seq<u8>, k: nat)
    requires
        s.len() == 32,
    ensures
        be_value(s) < k * pow256(31) <==> s[0] < k,
{
    let rest = s.subrange(1, 32);
    lemma_be_value_below_pow(rest);
    let p = pow256(31);
    let d = s[0] as nat;
    let r = be_value(rest);
    assert(be_value(s) == d * p + r);
    if d < k {
        assert(d * p + p <= k * p) by (nonlinear_arith)
            requires
                d + 1 <= k,
        ;
    } else {
        assert(k * p <= d * p) by (nonlinear_arith)
            requires
                k <= d,
        ;
    }
}


/// Relies on starknet_api::hash::StarkFelt::new: it accepts a byte array exactly when the first
/// byte is below 0x10, and the element it builds hands back the same bytes through `bytes()`.
#[verifier::external_body]
fn stark_felt_new(bytes: [u8; 32]) -> (r: Option<[u8; 32]>)
    ensures
        r is Some <==> bytes[0] < 16,
        r matches Some(b) ==> b@ == bytes@,
{
    match starknet_api::hash::StarkFelt::new(bytes) {
        Ok(felt) => {
            let mut out = [0u8; 32];
            out.copy_from_slice(felt.bytes());
            Some(out)
        },
        Err(_) => None,
    }
}

/// Relies on starknet_api::core::PatriciaKey::try_from: it accepts a hash exactly when its
/// value lies below 2^251 (`CONTRACT_ADDRESS_DOMAIN_SIZE`, compared as big-endian bytes).
#[verifier::external_body]
fn patricia_key_accepts(bytes: [u8; 32]) -> (r: bool)
    ensures
        r == (be_value(bytes@) < address_bound()),
{
    starknet_api::core::PatriciaKey::try_from(starknet_api::hash::StarkFelt::new_unchecked(bytes)).is_ok()
}

/// Whether 32 big-endian bytes spell a value below the field prime, compared byte by byte.
fn below_modulus(bytes: &[u8; 32]) -> (r: bool)
    ensures
        r == (be_value(bytes@) < field_modulus()),
{
    let mut m = [0u8; 32];
    m[0] = 8;
    m[7] = 17;
    m[31] = 1;
    proof {
        assert(m@ =~= modulus_bytes());
        lemma_modulus_bytes();
    }
    let mut i: usize = 0;
    while i < 32
        invariant
            i <= 32,
            bytes@.len() == 32,
            m@ == modulus_bytes(),
            be_value(modulus_bytes()) == field_modulus(),
            bytes@.subrange(0, i as int) == m@.subrange(0, i as int),
        decreases 32 - i,
    {
        if bytes[i] != m[i] {
            proof {
                lemma_be_value_first_difference(bytes@, m@, i as int);
            }
            return bytes[i] < m[i];
        }
        assert(bytes@.subrange(0, i + 1) =~= m@.subrange(0, i + 1)) by {
            assert(bytes@.subrange(0, i + 1) =~= bytes@.subrange(0, i as int).push(bytes@[i as int]));
            assert(m@.subrange(0, i + 1) =~= m@.subrange(0, i as int).push(m@[i as int]));
        }
        i = i + 1;
    }
    assert(bytes@ =~= bytes@.subrange(0, 32));
    assert(m@ =~= m@.subrange(0, 32));
    false
}

/// A field element: 32 big-endian bytes whose value lies below `field_modulus()`.
#[derive(Clone, Copy, Debug, PartialEq, Eq, Hash)]
pub struct StarkFelt {
    bytes: [u8; 32],
}

/// A hash shares the representation and the range of a field element.
pub type StarkHash = StarkFelt;

impl View for StarkFelt {
    type V = Seq<u8>;

    closed spec fn view(&self) -> Seq<u8> {
        self.bytes@
    }
}

impl StarkFelt {
    /// Two elements with the same bytes are the same element.
    pub proof fn lemma_view_eq(a: StarkFelt, b: StarkFelt)
        requires
            a@ == b@,
        ensures
            a == b,
    {
        assert(forall|i: int| 0 <= i < 32 ==> a.bytes[i] == a@[i] && b.bytes[i] == b@[i]);
        assert(a.bytes =~= b.bytes);
    }

    pub open spec fn wf(&self) -> bool {
        is_felt(self@)
    }

    /// Builds an element from its 32 big-endian bytes, if their value lies below the field prime.
    pub fn new(bytes: [u8; 32]) -> (r: Option<StarkFelt>)
        ensures
            r is Some <==> is_felt(bytes@),
            r matches Some(f) ==> f@ == bytes@ && f.wf(),
    {
        proof {
            lemma_leading_byte(bytes@, 16);
            lemma_modulus_between();
        }
        match stark_felt_new(bytes) {
            Some(b) => if below_modulus(&b) {
                Some(StarkFelt { bytes: b })
            } else {
                None
            },
            None => None,
        }
    }

    /// The 32 big-endian bytes of the element.
    pub fn bytes(&self) -> (r: [u8; 32])
        ensures
            r@ == self@,
    {
        self.bytes
    }
}

/// A storage key of the Patricia tree: a hash whose value lies below `address_bound()`.
#[derive(Clone, Copy, Debug, PartialEq, Eq, Hash)]
pub struct PatriciaKey {
    key: StarkHash,
}

impl View for PatriciaKey {
    type V = Seq<u8>;

    closed spec fn view(&self) -> Seq<u8> {
        self.key@
    }
}

impl PatriciaKey {
    pub open spec fn wf(&self) -> bool {
        is_address(self@)
    }

    /// Narrows a hash to a key, if its value is below `address_bound()`.
    pub fn try_from_hash(hash: StarkHash) -> (r: Option<PatriciaKey>)
        ensures
            r is Some <==> is_address(hash@),
            r matches Some(k) ==> k@ == hash@ && k.wf(),
    {
        if patricia_key_accepts(hash.bytes()) {
            Some(PatriciaKey { key: hash })
        } else {
            None
        }
    }

    /// The hash that the key holds.
    pub fn key(&self) -> (r: StarkHash)
        ensures
            r@ == self@,
    {
        self.key
    }
}

/// The address of a contract, a Patricia key.
#[derive(Clone, Copy, Debug, PartialEq, Eq, Hash)]
pub struct ContractAddress(pub PatriciaKey);

impl View for ContractAddress {
    type V = Seq<u8>;

    open spec fn view(&self) -> Seq<u8> {
        self.0@
    }
}

} // verus!
