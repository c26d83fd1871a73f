//! Extended keys and their fingerprints.
//!
//! An extended key is held as its 78-byte payload: four version bytes that
//! tell private from public and the main network from the test networks, the
//! depth, the parent's fingerprint, the child number, the chain code and 33
//! bytes of key data. Text encoding, public-key computation and hashing are
//! done by the `bitcoin` crate; what is believed of it is stated on the
//! private functions at the end of this file.

use vstd::prelude::*;
use bdk_wallet::bitcoin::bip32::Xpriv;
use bdk_wallet::bitcoin::bip32::Xpub;
use bdk_wallet::bitcoin::secp256k1::Secp256k1;
use crate::error::Error;
use crate::network::Network;
use crate::network::NetworkKind;
use crate::text::hex_string;
use crate::text::hex_text;

verus! {

/// Whether `p` starts with the four given version bytes.
pub open spec fn has_version(p: Seq<u8>, v: (u8, u8, u8, u8)) -> bool {
    p.len() >= 4 && p[0] == v.0 && p[1] == v.1 && p[2] == v.2 && p[3] == v.3
}

/// Version bytes of a private key of the main network.
pub open spec fn main_private() -> (u8, u8, u8, u8) {
    (0x04, 0x88, 0xAD, 0xE4)
}

/// Version bytes of a public key of the main network.
pub open spec fn main_public() -> (u8, u8, u8, u8) {
    (0x04, 0x88, 0xB2, 0x1E)
}

/// Version bytes of a private key of the test networks.
pub open spec fn test_private() -> (u8, u8, u8, u8) {
    (0x04, 0x35, 0x83, 0x94)
}

/// Version bytes of a public key of the test networks.
pub open spec fn test_public() -> (u8, u8, u8, u8) {
    (0x04, 0x35, 0x87, 0xCF)
}

/// Whether `p` is the payload of a private key.
pub open spec fn is_private_payload(p: Seq<u8>) -> bool {
    has_version(p, main_private()) || has_version(p, test_private())
}

/// Whether `p` is the payload of a public key.
pub open spec fn is_public_payload(p: Seq<u8>) -> bool {
    has_version(p, main_public()) || has_version(p, test_public())
}

/// The family of networks that the version bytes of `p` name.
pub open spec fn payload_kind(p: Seq<u8>) -> NetworkKind {
    if has_version(p, main_private()) || has_version(p, main_public()) {
        NetworkKind::Main
    } else {
        NetworkKind::Test
    }
}

/// The number that bytes write, most significant byte first.
pub open spec fn big_endian(bytes: Seq<u8>) -> nat
    decreases bytes.len(),
{
    if bytes.len() == 0 {
        0
    } else {
        big_endian(bytes.drop_last()) * 256 + bytes.last() as nat
    }
}

/// The version bytes of a public key of the given family.
pub open spec fn public_version(kind: NetworkKind) -> Seq<u8> {
    match kind {
        NetworkKind::Main => seq![0x04u8, 0x88u8, 0xB2u8, 0x1Eu8],
        NetworkKind::Test => seq![0x04u8, 0x35u8, 0x87u8, 0xCFu8],
    }
}

/// The payload that the text of a private extended key decodes to, with the
/// padding byte before the secret set to zero. `None` for any text that is
/// not a well-formed private extended key.
pub uninterp spec fn xprv_payload(text: Seq<char>) -> Option<Seq<u8>>;

/// The payload that the text of a public extended key decodes to. `None` for
/// any text that is not a well-formed public extended key.
pub uninterp spec fn xpub_payload(text: Seq<char>) -> Option<Seq<u8>>;

/// The 33-byte compressed public key of a 32-byte secret. `None` where the
/// bytes are no valid secret.
pub uninterp spec fn public_point(secret: Seq<u8>) -> Option<Seq<u8>>;

/// The fingerprint of the public key whose payload is `p`: the first four
/// bytes of the hash of its key data. `None` where `p` is no payload of a
/// valid public key.
pub uninterp spec fn xpub_fingerprint(p: Seq<u8>) -> Option<Seq<u8>>;

/// The payload of the master private key of a seed, encoded for a family of
/// networks. `None` where the seed gives no valid key.
pub uninterp spec fn master_payload(seed: Seq<u8>, kind: NetworkKind) -> Option<Seq<u8>>;

/// The text of the private key whose payload is `p`. `None` where `p` is no
/// payload of a valid private key.
pub uninterp spec fn xprv_text(p: Seq<u8>) -> Option<Seq<char>>;

/// The text of the public key whose payload is `p`. `None` where `p` is no
/// payload of a valid public key.
pub uninterp spec fn xpub_text(p: Seq<u8>) -> Option<Seq<char>>;

/// The payload of the public key that belongs to the private key `p`: the
/// public version bytes of the same family, the same depth, parent
/// fingerprint, child number and chain code, and the public key of the
/// secret. `None` where `p` is no payload of a valid private key.
pub open spec fn neutered(p: Seq<u8>) -> Option<Seq<u8>> {
    if is_private_payload(p) {
        match public_point(p.subrange(46, 78)) {
            Some(point) => Some(public_version(payload_kind(p)) + p.subrange(4, 45) + point),
            None => None,
        }
    } else {
        None
    }
}

/// The public form of a key: the key itself where it is public, its neutered
/// form where it is private.
pub open spec fn public_of(p: Seq<u8>) -> Option<Seq<u8>> {
    if is_private_payload(p) {
        neutered(p)
    } else {
        Some(p)
    }
}

/// The fingerprint of a key, private or public: that of its public form.
pub open spec fn fingerprint_of(p: Seq<u8>) -> Option<Seq<u8>> {
    match public_of(p) {
        Some(q) => xpub_fingerprint(q),
        None => None,
    }
}

/// The text of a key, private or public.
pub open spec fn key_text(p: Seq<u8>) -> Option<Seq<char>> {
    if is_private_payload(p) {
        xprv_text(p)
    } else {
        xpub_text(p)
    }
}

/// The key that a text writes: a private key if the text is one, else a
/// public key if the text is one.
pub open spec fn key_payload(text: Seq<char>) -> Option<Seq<u8>> {
    match xprv_payload(text) {
        Some(p) => Some(p),
        None => xpub_payload(text),
    }
}

/// Whether a key of payload `p` may be used on `network`.
pub open spec fn on_network(p: Seq<u8>, network: Network) -> bool {
    payload_kind(p) == network.kind_spec()
}

/// A neutered key is public and of the same family as the private key.
pub proof fn lemma_neutered_kind(p: Seq<u8>)
    requires
        neutered(p) is Some,
    ensures
        is_public_payload(neutered(p)->Some_0),
        !is_private_payload(neutered(p)->Some_0),
        payload_kind(neutered(p)->Some_0) == payload_kind(p),
{
    let point = public_point(p.subrange(46, 78))->Some_0;
    let q = public_version(payload_kind(p)) + p.subrange(4, 45) + point;
    assert(q[0] == public_version(payload_kind(p))[0]);
    assert(q[1] == public_version(payload_kind(p))[1]);
    assert(q[2] == public_version(payload_kind(p))[2]);
    assert(q[3] == public_version(payload_kind(p))[3]);
}

/// The four-byte identifier of a key.
#[derive(Clone, Copy, Debug, PartialEq, Eq)]
pub struct Fingerprint {
    bytes: [u8; 4],
}

impl View for Fingerprint {
    type V = Seq<u8>;

    closed spec fn view(&self) -> Seq<u8> {
        self.bytes@
    }
}

impl Fingerprint {
    /// The fingerprint made of the given four bytes.
    pub fn from_bytes(bytes: [u8; 4]) -> (r: Fingerprint)
        ensures
            r@ == bytes@,
    {
        Fingerprint { bytes }
    }

    /// The four bytes.
    pub fn to_bytes(&self) -> (r: [u8; 4])
        ensures
            r@ == self@,
            self@.len() == 4,
    {
        self.bytes
    }

    /// Eight lower-case hexadecimal digits.
    pub fn to_hex(&self) -> (r: String)
        ensures
            r@ == hex_text(self@),
    {
        hex_string(self.bytes.as_slice())
    }
}

/// An extended key, private or public.
#[derive(Clone, Copy, Debug, PartialEq, Eq)]
pub struct ExtendedKey {
    payload: [u8; 78],
}

impl View for ExtendedKey {
    type V = Seq<u8>;

    closed spec fn view(&self) -> Seq<u8> {
        self.payload@
    }
}

impl ExtendedKey {
    #[verifier::type_invariant]
    spec fn known_version(self) -> bool {
        is_private_payload(self.payload@) || is_public_payload(self.payload@)
    }

    /// Reads the text of a private extended key.
    pub fn parse_private(text: &str) -> (r: Result<ExtendedKey, Error>)
        ensures
            match r {
                Ok(k) => xprv_payload(text@) == Some(k@) && is_private_payload(k@),
                Err(e) => xprv_payload(text@) is None && e == Error::InvalidKeyEncoding,
            },
    {
        match decode_xprv(text) {
            Some(payload) => Ok(ExtendedKey { payload }),
            None => Err(Error::InvalidKeyEncoding),
        }
    }

    /// Reads the text of a public extended key.
    pub fn parse_public(text: &str) -> (r: Result<ExtendedKey, Error>)
        ensures
            match r {
                Ok(k) => xpub_payload(text@) == Some(k@) && is_public_payload(k@),
                Err(e) => xpub_payload(text@) is None && e == Error::InvalidKeyEncoding,
            },
    {
        match decode_xpub(text) {
            Some(payload) => Ok(ExtendedKey { payload }),
            None => Err(Error::InvalidKeyEncoding),
        }
    }

    /// The master private key of a seed, encoded for a family of networks.
    pub fn master(seed: &[u8; 64], kind: NetworkKind) -> (r: Result<ExtendedKey, Error>)
        ensures
            match r {
                Ok(k) => master_payload(seed@, kind) == Some(k@) && is_private_payload(k@)
                    && payload_kind(k@) == kind,
                Err(e) => master_payload(seed@, kind) is None && e == Error::KeyDerivationFailed,
            },
    {
        match master_of_seed(seed, kind) {
            Some(payload) => Ok(ExtendedKey { payload }),
            None => Err(Error::KeyDerivationFailed),
        }
    }

    /// Reads the text of an extended key, private or public.
    pub fn parse(text: &str) -> (r: Result<ExtendedKey, Error>)
        ensures
            match r {
                Ok(k) => key_payload(text@) == Some(k@),
                Err(e) => key_payload(text@) is None && e == Error::InvalidKeyEncoding,
            },
    {
        match ExtendedKey::parse_private(text) {
            Ok(k) => Ok(k),
            Err(_) => ExtendedKey::parse_public(text),
        }
    }

    /// Whether the key holds a secret.
    pub fn is_private(&self) -> (b: bool)
        ensures
            b == is_private_payload(self@),
            !b ==> is_public_payload(self@),
    {
        proof {
            use_type_invariant(self);
        }
        self.payload[0] == 0x04 && ((self.payload[1] == 0x88 && self.payload[2] == 0xAD
            && self.payload[3] == 0xE4) || (self.payload[1] == 0x35 && self.payload[2] == 0x83
            && self.payload[3] == 0x94))
    }

    /// The family of networks that the key is encoded for.
    pub fn network_kind(&self) -> (k: NetworkKind)
        ensures
            k == payload_kind(self@),
    {
        if self.payload[0] == 0x04 && self.payload[1] == 0x88 && ((self.payload[2] == 0xAD
            && self.payload[3] == 0xE4) || (self.payload[2] == 0xB2 && self.payload[3] == 0x1E)) {
            NetworkKind::Main
        } else {
            NetworkKind::Test
        }
    }

    /// Whether the key may be used on `network`.
    pub fn matches_network(&self, network: Network) -> (b: bool)
        ensures
            b == on_network(self@, network),
    {
        match (self.network_kind(), network.kind()) {
            (NetworkKind::Main, NetworkKind::Main) => true,
            (NetworkKind::Test, NetworkKind::Test) => true,
            _ => false,
        }
    }

    /// How many derivation steps lie between the master key and this key.
    pub fn depth(&self) -> (d: u8)
        ensures
            d == self@[4],
    {
        self.payload[4]
    }

    /// The fingerprint of the key that this key was derived from: four
    /// zero bytes for a master key.
    pub fn parent_fingerprint(&self) -> (f: Fingerprint)
        ensures
            f@ == self@.subrange(5, 9),
    {
        let f = Fingerprint::from_bytes(
            [self.payload[5], self.payload[6], self.payload[7], self.payload[8]],
        );
        assert(f@ =~= self@.subrange(5, 9));
        f
    }

    /// The child number under which this key was derived from its parent,
    /// in its raw encoding: the four bytes at positions 9 to 12, most
    /// significant first.
    pub fn child_number(&self) -> (n: u32)
        ensures
            n == big_endian(self@.subrange(9, 13)),
    {
        let n = self.payload[9] as u32 * 0x100_0000 + self.payload[10] as u32 * 0x1_0000
            + self.payload[11] as u32 * 0x100 + self.payload[12] as u32;
        proof {
            let b = self@.subrange(9, 13);
            reveal_with_fuel(big_endian, 5);
            assert(b.drop_last().drop_last().drop_last().drop_last().len() == 0);
            assert(b.drop_last().drop_last().drop_last().last() == self@[9]);
            assert(b.drop_last().drop_last().last() == self@[10]);
            assert(b.drop_last().last() == self@[11]);
            assert(b.last() == self@[12]);
        }
        n
    }

    /// The chain code.
    pub fn chain_code(&self) -> (c: Vec<u8>)
        ensures
            c@ == self@.subrange(13, 45),
    {
        self.copy_range(13, 45)
    }

    /// The key data: a zero byte and the 32-byte secret of a private key,
    /// the 33-byte compressed public key of a public key.
    pub fn key_data(&self) -> (d: Vec<u8>)
        ensures
            d@ == self@.subrange(45, 78),
    {
        self.copy_range(45, 78)
    }

    /// The bytes of the payload from `from` up to `to`.
    fn copy_range(&self, from: usize, to: usize) -> (r: Vec<u8>)
        requires
            from <= to <= 78,
        ensures
            r@ == self@.subrange(from as int, to as int),
    {
        let mut r: Vec<u8> = Vec::new();
        let mut i: usize = from;
        while i < to
            invariant
                from <= i <= to <= 78,
                r@ == self@.subrange(from as int, i as int),
            decreases to - i,
        {
            r.push(self.payload[i]);
            assert(r@ =~= self@.subrange(from as int, i + 1));
            i = i + 1;
        }
        r
    }

    /// The public key that belongs to this key: a copy where the key is
    /// public already.
    pub fn neuter(&self) -> (r: Result<ExtendedKey, Error>)
        ensures
            match r {
                Ok(k) => public_of(self@) == Some(k@) && is_public_payload(k@),
                Err(e) => public_of(self@) is None && e == Error::KeyDerivationFailed,
            },
    {
        if self.is_private() {
            match neuter_payload(&self.payload) {
                Some(payload) => {
                    proof {
                        lemma_neutered_kind(self@);
                    }
                    Ok(ExtendedKey { payload })
                },
                None => Err(Error::KeyDerivationFailed),
            }
        } else {
            Ok(*self)
        }
    }

    /// The fingerprint of this key.
    pub fn fingerprint(&self) -> (r: Result<Fingerprint, Error>)
        ensures
            match r {
                Ok(f) => fingerprint_of(self@) == Some(f@),
                Err(e) => fingerprint_of(self@) is None && e == Error::KeyDerivationFailed,
            },
    {
        let bytes = if self.is_private() {
            xprv_fingerprint_bytes(&self.payload)
        } else {
            xpub_fingerprint_bytes(&self.payload)
        };
        match bytes {
            Some(b) => Ok(Fingerprint::from_bytes(b)),
            None => Err(Error::KeyDerivationFailed),
        }
    }

    /// The text of this key.
    pub fn to_text(&self) -> (r: Result<String, Error>)
        ensures
            match r {
                Ok(t) => key_text(self@) == Some(t@),
                Err(e) => key_text(self@) is None && e == Error::KeyDerivationFailed,
            },
    {
        let text = if self.is_private() {
            xprv_string(&self.payload)
        } else {
            xpub_string(&self.payload)
        };
        match text {
            Some(t) => Ok(t),
            None => Err(Error::KeyDerivationFailed),
        }
    }

    /// The 78 bytes of the payload.
    pub fn to_bytes(&self) -> (r: [u8; 78])
        ensures
            r@ == self@,
    {
        self.payload
    }
}

/// `Xpriv::from_str` of the `bitcoin` crate, followed by `Xpriv::encode`.
/// Parsing succeeds exactly on the texts that `xprv_payload` knows; the
/// encoding starts with the version bytes of a private key.
#[verifier::external_body]
fn decode_xprv(text: &str) -> (r: Option<[u8; 78]>)
    ensures
        match r {
            Some(p) => xprv_payload(text@) == Some(p@) && is_private_payload(p@),
            None => xprv_payload(text@) is None,
        },
{
    text.parse::<Xpriv>().ok().map(|k| k.encode())
}

/// `Xpub::from_str` of the `bitcoin` crate, followed by `Xpub::encode`.
/// Parsing succeeds exactly on the texts that `xpub_payload` knows; the
/// encoding starts with the version bytes of a public key.
#[verifier::external_body]
fn decode_xpub(text: &str) -> (r: Option<[u8; 78]>)
    ensures
        match r {
            Some(p) => xpub_payload(text@) == Some(p@) && is_public_payload(p@),
            None => xpub_payload(text@) is None,
        },
{
    text.parse::<Xpub>().ok().map(|k| k.encode())
}

/// `Xpriv::new_master` of the `bitcoin` crate, followed by `Xpriv::encode`.
/// The key is private and of the family that was asked for.
#[verifier::external_body]
fn master_of_seed(seed: &[u8; 64], kind: NetworkKind) -> (r: Option<[u8; 78]>)
    ensures
        match r {
            Some(p) => master_payload(seed@, kind) == Some(p@) && is_private_payload(p@)
                && payload_kind(p@) == kind,
            None => master_payload(seed@, kind) is None,
        },
{
    let family = match kind {
        NetworkKind::Main => bdk_wallet::bitcoin::NetworkKind::Main,
        NetworkKind::Test => bdk_wallet::bitcoin::NetworkKind::Test,
    };
    Xpriv::new_master(family, seed).ok().map(|k| k.encode())
}

/// `Xpub::from_priv` of the `bitcoin` crate, between `Xpriv::decode` and
/// `Xpub::encode`. The public key keeps every field of the private key but
/// the version bytes, which become those of a public key of the same family,
/// and the key data, which becomes the 33-byte public key of the secret.
#[verifier::external_body]
fn neuter_payload(p: &[u8; 78]) -> (r: Option<[u8; 78]>)
    ensures
        match r {
            Some(q) => neutered(p@) == Some(q@) && public_point(p@.subrange(46, 78)) is Some,
            None => neutered(p@) is None,
        },
{
    Xpriv::decode(p).ok().map(|k| Xpub::from_priv(&Secp256k1::new(), &k).encode())
}

/// `Xpriv::fingerprint` of the `bitcoin` crate, after `Xpriv::decode`: the
/// fingerprint of the public key that belongs to the private key.
#[verifier::external_body]
fn xprv_fingerprint_bytes(p: &[u8; 78]) -> (r: Option<[u8; 4]>)
    ensures
        match r {
            Some(f) => neutered(p@) is Some && xpub_fingerprint(neutered(p@)->Some_0) == Some(f@),
            None => neutered(p@) is None || xpub_fingerprint(neutered(p@)->Some_0) is None,
        },
{
    Xpriv::decode(p).ok().map(|k| k.fingerprint(&Secp256k1::new()).to_bytes())
}

/// `Xpub::fingerprint` of the `bitcoin` crate, after `Xpub::decode`.
#[verifier::external_body]
fn xpub_fingerprint_bytes(p: &[u8; 78]) -> (r: Option<[u8; 4]>)
    ensures
        match r {
            Some(f) => xpub_fingerprint(p@) == Some(f@),
            None => xpub_fingerprint(p@) is None,
        },
{
    Xpub::decode(p).ok().map(|k| k.fingerprint().to_bytes())
}

/// The `Display` of `Xpriv` in the `bitcoin` crate, after `Xpriv::decode`.
#[verifier::external_body]
fn xprv_string(p: &[u8; 78]) -> (r: Option<String>)
    ensures
        match r {
            Some(t) => xprv_text(p@) == Some(t@),
            None => xprv_text(p@) is None,
        },
{
    Xpriv::decode(p).ok().map(|k| k.to_string())
}

/// The `Display` of `Xpub` in the `bitcoin` crate, after `Xpub::decode`.
#[verifier::external_body]
fn xpub_string(p: &[u8; 78]) -> (r: Option<String>)
    ensures
        match r {
            Some(t) => xpub_text(p@) == Some(t@),
            None => xpub_text(p@) is None,
        },
{
    Xpub::decode(p).ok().map(|k| k.to_string())
}

} // verus!
