//! Composite hashcode: the four-layer sovereign identity (hardware UID, kernel
//! measurement, OS UID, optional biometric) folded into one 32-byte hash.
use vstd::prelude::*;

verus! {

/// Size of the composite hashcode in bytes.
pub const COMPOSITE_HASH_SIZE: usize = 32;

/// Identity marker folded into every composite hash.
pub const AIEONYX_IDENTITY_MARKER: u64 = 0xA1E0_1D00_0000_0001;

/// FNV-1a 64-bit offset basis.
pub const FNV_BASIS: u64 = 0xcbf29ce484222325;

/// FNV-1a 64-bit prime.
pub const FNV_PRIME: u64 = 0x00000100000001b3;

/// Four identity layers that compose the sovereign hashcode.
#[derive(Debug, Clone, Copy)]
pub struct IdentityLayers {
    /// Hardware UID from the manufacturer.
    pub hw_uid: u64,
    /// Kernel boot measurement (first 8 bytes).
    pub kernel_meas: u64,
    /// OS UID, paired to the hardware UID.
    pub os_uid: u64,
    /// Biometric hash; zero when not enrolled.
    pub biometric: u64,
}

impl IdentityLayers {
    /// The three mandatory layers are present (the biometric is optional).
    pub open spec fn spec_complete(self) -> bool {
        self.hw_uid != 0 && self.kernel_meas != 0 && self.os_uid != 0
    }

    pub fn new(hw_uid: u64, kernel_meas: u64, os_uid: u64, biometric: u64) -> (l: Self)
        ensures
            l == (IdentityLayers { hw_uid, kernel_meas, os_uid, biometric }),
    {
        IdentityLayers { hw_uid, kernel_meas, os_uid, biometric }
    }

    /// An identity whose four layers hold non-zero sentinels.
    pub fn stub() -> (l: Self)
        ensures
            l == (IdentityLayers {
                hw_uid: 0xA1E0_0000_0001_0001,
                kernel_meas: 0xA1E0_0000_0002_0001,
                os_uid: 0xA1E0_0000_0003_0001,
                biometric: 0xA1E0_0000_0004_0001,
            }),
            l.spec_complete(),
            l.biometric != 0,
    {
        IdentityLayers {
            hw_uid: 0xA1E0_0000_0001_0001,
            kernel_meas: 0xA1E0_0000_0002_0001,
            os_uid: 0xA1E0_0000_0003_0001,
            biometric: 0xA1E0_0000_0004_0001,
        }
    }

    /// Returns true if the hardware, kernel and OS layers are all non-zero.
    pub fn is_complete(&self) -> (r: bool)
        ensures
            r == self.spec_complete(),
    {
        self.hw_uid != 0 && self.kernel_meas != 0 && self.os_uid != 0
    }

    /// Returns true if a biometric is enrolled.
    pub fn has_biometric(&self) -> (r: bool)
        ensures
            r == (self.biometric != 0),
    {
        self.biometric != 0
    }

    /// Returns true if both the hardware and OS UIDs carry the AIEONYX prefix
    /// in their top 16 bits.
    pub fn os_paired_to_hw(&self) -> (r: bool)
        ensures
            r == ((self.hw_uid >> 48u64) == 0xA1E0 && (self.os_uid >> 48u64) == 0xA1E0),
    {
        (self.hw_uid >> 48u64) == 0xA1E0 && (self.os_uid >> 48u64) == 0xA1E0
    }
}

/// Byte `k` (little-endian) of `v`.
pub open spec fn byte_of(v: u64, k: int) -> u8 {
    ((v >> ((8 * k) as u64)) & 0xff) as u8
}

/// The eight little-endian bytes of `v`.
pub open spec fn le_bytes(v: u64) -> Seq<u8> {
    Seq::new(8, |k: int| byte_of(v, k))
}

/// The word whose little-endian bytes are `s[0..8]`.
pub open spec fn le_word(s: Seq<u8>) -> u64 {
    (s[0] as u64) | ((s[1] as u64) << 8u64) | ((s[2] as u64) << 16u64) | ((s[3] as u64) << 24u64)
        | ((s[4] as u64) << 32u64) | ((s[5] as u64) << 40u64) | ((s[6] as u64) << 48u64) | ((s[7] as u64) << 56u64)
}

/// One FNV-1a step.
pub open spec fn fnv_step(h: u64, b: u8) -> u64 {
    (h ^ (b as u64)).wrapping_mul(FNV_PRIME)
}

/// FNV-1a over `s`, starting from `h`.
pub open spec fn fnv_fold(h: u64, s: Seq<u8>) -> u64
    decreases s.len(),
{
    if s.len() == 0 { h } else { fnv_step(fnv_fold(h, s.drop_last()), s.last()) }
}

/// The bytes hashed for an identity: each layer then the marker, little-endian.
pub open spec fn identity_bytes(l: IdentityLayers) -> Seq<u8> {
    le_bytes(l.hw_uid) + le_bytes(l.kernel_meas) + le_bytes(l.os_uid) + le_bytes(l.biometric)
        + le_bytes(AIEONYX_IDENTITY_MARKER)
}

/// First word of the composite hash: FNV-1a of the identity bytes.
pub open spec fn hash_word1(l: IdentityLayers) -> u64 {
    fnv_fold(FNV_BASIS, identity_bytes(l))
}

pub open spec fn hash_word2(l: IdentityLayers) -> u64 {
    hash_word1(l).wrapping_mul(FNV_PRIME) ^ 0xDEAD_BEEF_A1E0_0001u64
}

pub open spec fn hash_word3(l: IdentityLayers) -> u64 {
    hash_word2(l).wrapping_mul(FNV_PRIME) ^ 0xA1E0_CAFE_BABE_0002u64
}

pub open spec fn hash_word4(l: IdentityLayers) -> u64 {
    hash_word3(l).wrapping_mul(FNV_PRIME) ^ 0x5AFE_DEAD_C0DE_0003u64
}

/// The 32 bytes of the composite hash of `l`: the four words, little-endian.
pub open spec fn composite_bytes(l: IdentityLayers) -> Seq<u8> {
    le_bytes(hash_word1(l)) + le_bytes(hash_word2(l)) + le_bytes(hash_word3(l)) + le_bytes(hash_word4(l))
}

/// Appends the little-endian bytes of `v`.
fn push_le_bytes(out: &mut Vec<u8>, v: u64)
    ensures
        final(out)@ == old(out)@ + le_bytes(v),
{
    let ghost start = out@;
    let mut k: u64 = 0;
    while k < 8
        invariant
            0 <= k <= 8,
            out@ == start + le_bytes(v).take(k as int),
        decreases 8 - k,
    {
        let b = ((v >> (8 * k)) & 0xff) as u8;
        assert(b == byte_of(v, k as int));
        out.push(b);
        assert(le_bytes(v).take(k + 1) =~= le_bytes(v).take(k as int).push(b));
        k = k + 1;
    }
    assert(le_bytes(v).take(8) =~= le_bytes(v));
}

/// Writes the little-endian bytes of `v` at `out[at..at + 8]`.
fn put_le_bytes(out: &mut [u8; 32], at: usize, v: u64)
    requires
        at + 8 <= 32,
    ensures
        forall|i: int| 0 <= i < 32 && !(at <= i < at + 8) ==> final(out)@[i] == old(out)@[i],
        forall|i: int| 0 <= i < 8 ==> final(out)@[at + i] == byte_of(v, i),
{
    let mut k: usize = 0;
    while k < 8
        invariant
            0 <= k <= 8,
            at + 8 <= 32,
            forall|i: int| 0 <= i < 32 && !(at <= i < at + k) ==> out@[i] == old(out)@[i],
            forall|i: int| 0 <= i < k ==> out@[at + i] == byte_of(v, i),
        decreases 8 - k,
    {
        let b = ((v >> (8 * (k as u64))) & 0xff) as u8;
        assert(b == byte_of(v, k as int));
        out[at + k] = b;
        k = k + 1;
    }
}

/// The composite hashcode: 32 bytes derived from all four identity layers.
#[derive(Debug, Clone, Copy, PartialEq, Eq)]
pub struct CompositeHash([u8; COMPOSITE_HASH_SIZE]);

/// Error while building a composite identity.
#[derive(Debug, Clone, Copy, PartialEq, Eq, Structural)]
pub enum IdentityError {
    /// One or more mandatory identity layers is zero.
    IncompleteIdentity,
    /// Hardware UID and OS UID pairing failed.
    PairingFailed,
    /// Biometric required but not enrolled.
    BiometricRequired,
}

/// True when some byte of `s` is non-zero.
pub open spec fn any_byte_nonzero(s: Seq<u8>) -> bool {
    exists|i: int| 0 <= i < s.len() && s[i] != 0
}

impl CompositeHash {
    /// The 32 bytes of this hash.
    pub closed spec fn bytes(self) -> Seq<u8> {
        self.0@
    }

    /// Derives the composite hash from the identity layers: FNV-1a over the
    /// layers and the identity marker, expanded to four words.
    pub fn derive(layers: &IdentityLayers) -> (r: Result<Self, IdentityError>)
        ensures
            r is Err <==> !layers.spec_complete(),
            r is Err ==> r == Err::<CompositeHash, IdentityError>(IdentityError::IncompleteIdentity),
            r matches Ok(h) ==> h.bytes() == composite_bytes(*layers),
            r matches Ok(h) ==> h.bytes().len() == COMPOSITE_HASH_SIZE && any_byte_nonzero(h.bytes()),
    {
        proof {
            lemma_composite_valid(*layers);
        }
        if !layers.is_complete() {
            return Err(IdentityError::IncompleteIdentity);
        }
        let mut bytes: Vec<u8> = Vec::new();
        push_le_bytes(&mut bytes, layers.hw_uid);
        push_le_bytes(&mut bytes, layers.kernel_meas);
        push_le_bytes(&mut bytes, layers.os_uid);
        push_le_bytes(&mut bytes, layers.biometric);
        push_le_bytes(&mut bytes, AIEONYX_IDENTITY_MARKER);
        assert(bytes@ =~= identity_bytes(*layers));
        let mut h: u64 = FNV_BASIS;
        let mut i: usize = 0;
        while i < bytes.len()
            invariant
                0 <= i <= bytes@.len(),
                h == fnv_fold(FNV_BASIS, bytes@.take(i as int)),
            decreases bytes@.len() - i,
        {
            let b = bytes[i];
            assert(bytes@.take(i + 1).drop_last() =~= bytes@.take(i as int));
            h = (h ^ (b as u64)).wrapping_mul(FNV_PRIME);
            i = i + 1;
        }
        assert(bytes@.take(bytes@.len() as int) =~= bytes@);
        let h2 = h.wrapping_mul(FNV_PRIME) ^ 0xDEAD_BEEF_A1E0_0001u64;
        let h3 = h2.wrapping_mul(FNV_PRIME) ^ 0xA1E0_CAFE_BABE_0002u64;
        let h4 = h3.wrapping_mul(FNV_PRIME) ^ 0x5AFE_DEAD_C0DE_0003u64;
        let mut result = [0u8; 32];
        put_le_bytes(&mut result, 0, h);
        put_le_bytes(&mut result, 8, h2);
        put_le_bytes(&mut result, 16, h3);
        put_le_bytes(&mut result, 24, h4);
        assert(result@ =~= composite_bytes(*layers)) by {
            assert forall|i: int| 0 <= i < 32 implies result@[i] == composite_bytes(*layers)[i] by {
                if i < 8 {
                } else if i < 16 {
                    assert(result@[8 + (i - 8)] == byte_of(h2, i - 8));
                } else if i < 24 {
                    assert(result@[16 + (i - 16)] == byte_of(h3, i - 16));
                } else {
                    assert(result@[24 + (i - 24)] == byte_of(h4, i - 24));
                }
            }
        }
        Ok(CompositeHash(result))
    }

    /// The hash holds exactly 32 bytes.
    pub proof fn lemma_len(self)
        ensures
            self.bytes().len() == COMPOSITE_HASH_SIZE,
    {
    }

    /// The raw bytes of the composite hash.
    pub fn as_bytes(&self) -> (r: &[u8; COMPOSITE_HASH_SIZE])
        ensures
            r@ == self.bytes(),
    {
        &self.0
    }

    /// Returns true if the hash is not all zero.
    pub fn is_valid(&self) -> (r: bool)
        ensures
            r == any_byte_nonzero(self.bytes()),
    {
        let mut i: usize = 0;
        while i < 32
            invariant
                0 <= i <= 32,
                self.0@.len() == 32,
                forall|j: int| 0 <= j < i ==> self.0@[j] == 0,
            decreases 32 - i,
        {
            if self.0[i] != 0 {
                assert(self.0@[i as int] != 0);
                return true;
            }
            i = i + 1;
        }
        false
    }

    /// The first eight bytes as a little-endian word.
    pub fn fingerprint(&self) -> (r: u64)
        ensures
            r == le_word(self.bytes()),
    {
        let b = &self.0;
        (b[0] as u64) | ((b[1] as u64) << 8u64) | ((b[2] as u64) << 16u64) | ((b[3] as u64) << 24u64)
            | ((b[4] as u64) << 32u64) | ((b[5] as u64) << 40u64) | ((b[6] as u64) << 48u64) | ((b[7] as u64) << 56u64)
    }
}

} // verus!

verus! {

/// Reading back the little-endian bytes of a word gives the word.
pub proof fn lemma_le_roundtrip(v: u64)
    ensures
        le_word(le_bytes(v)) == v,
{
    let s = le_bytes(v);
    assert(s[0] == ((v >> 0u64) & 0xff) as u8);
    assert(s[1] == ((v >> 8u64) & 0xff) as u8);
    assert(s[2] == ((v >> 16u64) & 0xff) as u8);
    assert(s[3] == ((v >> 24u64) & 0xff) as u8);
    assert(s[4] == ((v >> 32u64) & 0xff) as u8);
    assert(s[5] == ((v >> 40u64) & 0xff) as u8);
    assert(s[6] == ((v >> 48u64) & 0xff) as u8);
    assert(s[7] == ((v >> 56u64) & 0xff) as u8);
    assert((((v >> 0u64) & 0xff) as u8 as u64) | ((((v >> 8u64) & 0xff) as u8 as u64) << 8u64)
        | ((((v >> 16u64) & 0xff) as u8 as u64) << 16u64) | ((((v >> 24u64) & 0xff) as u8 as u64) << 24u64)
        | ((((v >> 32u64) & 0xff) as u8 as u64) << 32u64) | ((((v >> 40u64) & 0xff) as u8 as u64) << 40u64)
        | ((((v >> 48u64) & 0xff) as u8 as u64) << 48u64) | ((((v >> 56u64) & 0xff) as u8 as u64) << 56u64) == v)
        by (bit_vector);
}

/// The fingerprint of a derived hash is its first word: the FNV-1a hash of
/// the identity layers.
pub proof fn lemma_fingerprint_of_derived(l: IdentityLayers)
    ensures
        le_word(composite_bytes(l)) == hash_word1(l),
{
    lemma_le_roundtrip(hash_word1(l));
    let c = composite_bytes(l);
    let f = le_bytes(hash_word1(l));
    assert forall|i: int| 0 <= i < 8 implies c[i] == f[i] by {}
    assert(c[0] == f[0] && c[1] == f[1] && c[2] == f[2] && c[3] == f[3]);
    assert(c[4] == f[4] && c[5] == f[5] && c[6] == f[6] && c[7] == f[7]);
}

/// A non-zero word has a non-zero little-endian byte.
proof fn lemma_nonzero_word_byte(v: u64)
    requires
        v != 0,
    ensures
        exists|k: int| 0 <= k < 8 && #[trigger] le_bytes(v)[k] != 0,
{
    let s = le_bytes(v);
    assert(s[0] == ((v >> 0u64) & 0xff) as u8);
    assert(s[1] == ((v >> 8u64) & 0xff) as u8);
    assert(s[2] == ((v >> 16u64) & 0xff) as u8);
    assert(s[3] == ((v >> 24u64) & 0xff) as u8);
    assert(s[4] == ((v >> 32u64) & 0xff) as u8);
    assert(s[5] == ((v >> 40u64) & 0xff) as u8);
    assert(s[6] == ((v >> 48u64) & 0xff) as u8);
    assert(s[7] == ((v >> 56u64) & 0xff) as u8);
    assert(((v >> 0u64) & 0xff) as u8 != 0 || ((v >> 8u64) & 0xff) as u8 != 0 || ((v >> 16u64) & 0xff) as u8 != 0
        || ((v >> 24u64) & 0xff) as u8 != 0 || ((v >> 32u64) & 0xff) as u8 != 0 || ((v >> 40u64) & 0xff) as u8 != 0
        || ((v >> 48u64) & 0xff) as u8 != 0 || ((v >> 56u64) & 0xff) as u8 != 0) by (bit_vector)
        requires
            v != 0,
    ;
    if s[0] != 0 {
        assert(s[0] != 0);
    } else if s[1] != 0 {
        assert(s[1] != 0);
    } else if s[2] != 0 {
        assert(s[2] != 0);
    } else if s[3] != 0 {
        assert(s[3] != 0);
    } else if s[4] != 0 {
        assert(s[4] != 0);
    } else if s[5] != 0 {
        assert(s[5] != 0);
    } else if s[6] != 0 {
        assert(s[6] != 0);
    } else {
        assert(s[7] != 0);
    }
}

/// Every composite hash is 32 bytes long and valid (not all zero), whatever
/// the layers: if the second word is zero, the third is the constant
/// `0xA1E0_CAFE_BABE_0002`. Equal layers give equal hashes, since the bytes
/// are a function of the layers.
pub proof fn lemma_composite_valid(l: IdentityLayers)
    ensures
        composite_bytes(l).len() == COMPOSITE_HASH_SIZE,
        any_byte_nonzero(composite_bytes(l)),
{
    let c = composite_bytes(l);
    let w2 = hash_word2(l);
    let w3 = hash_word3(l);
    if w2 != 0 {
        lemma_nonzero_word_byte(w2);
        let k = choose|k: int| 0 <= k < 8 && #[trigger] le_bytes(w2)[k] != 0;
        assert(c[8 + k] == le_bytes(w2)[k]);
    } else {
        assert(w2.wrapping_mul(FNV_PRIME) == 0) by (nonlinear_arith)
            requires
                w2 == 0,
                w2.wrapping_mul(FNV_PRIME) == ((w2 as nat * FNV_PRIME as nat) % 0x1_0000_0000_0000_0000nat) as u64,
        ;
        assert(w3 == 0u64 ^ 0xA1E0_CAFE_BABE_0002u64);
        assert(0u64 ^ 0xA1E0_CAFE_BABE_0002u64 == 0xA1E0_CAFE_BABE_0002u64) by (bit_vector);
        lemma_nonzero_word_byte(w3);
        let k = choose|k: int| 0 <= k < 8 && #[trigger] le_bytes(w3)[k] != 0;
        assert(c[16 + k] == le_bytes(w3)[k]);
    }
}

/// Every layer is hashed: the hashed bytes are the 40 little-endian bytes
/// of the hardware UID, the kernel measurement, the OS UID, the biometric and
/// the identity marker, in that order, so two identities with the same
/// hashed bytes have the same four layers.
pub proof fn lemma_identity_bytes_layout(l1: IdentityLayers, l2: IdentityLayers)
    ensures
        identity_bytes(l1).len() == 40,
        le_word(identity_bytes(l1).subrange(0, 8)) == l1.hw_uid,
        le_word(identity_bytes(l1).subrange(8, 16)) == l1.kernel_meas,
        le_word(identity_bytes(l1).subrange(16, 24)) == l1.os_uid,
        le_word(identity_bytes(l1).subrange(24, 32)) == l1.biometric,
        le_word(identity_bytes(l1).subrange(32, 40)) == AIEONYX_IDENTITY_MARKER,
        identity_bytes(l1) == identity_bytes(l2) ==> l1 == l2,
{
    let b1 = identity_bytes(l1);
    let b2 = identity_bytes(l2);
    assert(b1.subrange(0, 8) =~= le_bytes(l1.hw_uid));
    assert(b1.subrange(8, 16) =~= le_bytes(l1.kernel_meas));
    assert(b1.subrange(16, 24) =~= le_bytes(l1.os_uid));
    assert(b1.subrange(24, 32) =~= le_bytes(l1.biometric));
    assert(b1.subrange(32, 40) =~= le_bytes(AIEONYX_IDENTITY_MARKER));
    assert(b2.subrange(0, 8) =~= le_bytes(l2.hw_uid));
    assert(b2.subrange(8, 16) =~= le_bytes(l2.kernel_meas));
    assert(b2.subrange(16, 24) =~= le_bytes(l2.os_uid));
    assert(b2.subrange(24, 32) =~= le_bytes(l2.biometric));
    lemma_le_roundtrip(l1.hw_uid);
    lemma_le_roundtrip(l1.kernel_meas);
    lemma_le_roundtrip(l1.os_uid);
    lemma_le_roundtrip(l1.biometric);
    lemma_le_roundtrip(AIEONYX_IDENTITY_MARKER);
    lemma_le_roundtrip(l2.hw_uid);
    lemma_le_roundtrip(l2.kernel_meas);
    lemma_le_roundtrip(l2.os_uid);
    lemma_le_roundtrip(l2.biometric);
}

} // verus!
