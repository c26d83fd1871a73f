//! Descriptor keys and the descriptor texts built from them.
//!
//! A descriptor key is an extended key together with its origin (the
//! fingerprint of the master key and the account path), the branch below the
//! account, and a wildcard. A descriptor wraps the key expression of such a
//! key in the script function of a policy and ends with a checksum.
//!
//! Key expressions, wrapping and the checksum are written by the
//! `miniscript` crate; what is believed of it is stated on the private
//! functions at the end of this file.

use vstd::prelude::*;
use std::fmt::Write;
use bdk_wallet::bitcoin::bip32::Xpriv;
use bdk_wallet::bitcoin::bip32::Xpub;
use bdk_wallet::bitcoin::secp256k1::Secp256k1;
use bdk_wallet::keys::IntoDescriptorKey;
use bdk_wallet::miniscript::Descriptor;
use bdk_wallet::miniscript::Segwitv0;
use bdk_wallet::miniscript::descriptor::DescriptorPublicKey;
use bdk_wallet::miniscript::descriptor::DescriptorSecretKey;
use bdk_wallet::miniscript::descriptor::DescriptorXKey;
use bdk_wallet::miniscript::descriptor::Wildcard as KeyWildcard;
use crate::error::Error;
use crate::keys::fingerprint_of;
use crate::keys::is_private_payload;
use crate::keys::neutered;
use crate::keys::public_of;
use crate::keys::xprv_text;
use crate::keys::xpub_text;
use crate::keys::ExtendedKey;
use crate::keys::Fingerprint;
use crate::path::lemma_raw_path_round_trip;
use crate::path::path_of_raw;
use crate::path::path_suffix;
use crate::path::DerivationPath;
use crate::path::HARDENED_START;
use crate::text::hex_text;
use crate::text::opt_view;
use crate::text::same_text;

verus! {

/// The script policy that a descriptor is derived for.
#[derive(Clone, Copy, Debug, PartialEq, Eq, Structural)]
pub enum DescriptorType {
    /// Pay to public key hash.
    Bip44,
    /// Pay to witness public key hash, wrapped in pay to script hash.
    Bip49,
    /// Pay to witness public key hash.
    Bip84,
    /// Pay to taproot, spendable by key only.
    Bip86,
}

/// Whether a key expression ends in a wildcard, and of which kind.
#[derive(Clone, Copy, Debug, PartialEq, Eq, Structural)]
pub enum Wildcard {
    /// No wildcard: a single key.
    Absent,
    /// Every normal child.
    Unhardened,
    /// Every hardened child.
    Hardened,
}

/// The path of the first account of a policy: the purpose, coin type 1 and
/// account 0, all hardened.
pub open spec fn account_path(script: DescriptorType) -> Seq<(u32, bool)> {
    seq![(script.purpose(), true), (1u32, true), (0u32, true)]
}

/// What opens the descriptor of a policy, up to the key expression.
pub open spec fn opening(script: DescriptorType) -> Seq<char> {
    match script {
        DescriptorType::Bip44 => "pkh("@,
        DescriptorType::Bip49 => "sh(wpkh("@,
        DescriptorType::Bip84 => "wpkh("@,
        DescriptorType::Bip86 => "tr("@,
    }
}

/// What follows the key expression in the descriptor of a policy.
pub open spec fn closing(script: DescriptorType) -> Seq<char> {
    match script {
        DescriptorType::Bip49 => "))"@,
        _ => ")"@,
    }
}

/// The key expression wrapped in the script function of a policy.
pub open spec fn wrapped(script: DescriptorType, key: Seq<char>) -> Seq<char> {
    opening(script) + key + closing(script)
}

/// The eight checksum characters of a descriptor text. `None` where the text
/// holds a character that no descriptor may hold.
pub uninterp spec fn descriptor_checksum(text: Seq<char>) -> Option<Seq<char>>;

/// The descriptor of a policy around a key expression: the wrapped key, `#`
/// and the checksum of the wrapped key.
pub open spec fn descriptor_text(script: DescriptorType, key: Seq<char>) -> Option<Seq<char>> {
    match descriptor_checksum(wrapped(script, key)) {
        Some(sum) => Some(wrapped(script, key) + seq!['#'] + sum),
        None => None,
    }
}

/// How a wildcard is written at the end of a key expression.
pub open spec fn wildcard_suffix(w: Wildcard) -> Seq<char> {
    match w {
        Wildcard::Absent => Seq::<char>::empty(),
        Wildcard::Unhardened => seq!['/', '*'],
        Wildcard::Hardened => seq!['/', '*', 'h'],
    }
}

/// The origin of a key expression: `[`, the fingerprint in hexadecimal, the
/// account path, `]`.
pub open spec fn origin_text(fingerprint: Seq<u8>, path: Seq<(u32, bool)>) -> Seq<char> {
    seq!['['] + hex_text(fingerprint) + path_suffix(path) + seq![']']
}

/// A key expression: the origin, the text of the extended key, the branch
/// and the wildcard.
pub open spec fn key_expression(
    fingerprint: Seq<u8>,
    origin: Seq<(u32, bool)>,
    key: Seq<char>,
    branch: Seq<(u32, bool)>,
    wildcard: Wildcard,
) -> Seq<char> {
    origin_text(fingerprint, origin) + key + path_suffix(branch) + wildcard_suffix(wildcard)
}

/// What a descriptor key holds.
pub struct DescriptorKeyView {
    /// Fingerprint of the master key.
    pub fingerprint: Seq<u8>,
    /// Path from the master key to the account.
    pub origin: Seq<(u32, bool)>,
    /// Payload of the extended key.
    pub key: Seq<u8>,
    /// Path below the extended key.
    pub branch: Seq<(u32, bool)>,
    /// Wildcard at the end.
    pub wildcard: Wildcard,
}

/// Whether no segment of a path is hardened.
pub open spec fn all_normal(p: Seq<(u32, bool)>) -> bool {
    forall|i: int| 0 <= i < p.len() ==> !(#[trigger] p[i]).1
}

/// Whether a key with the given branch and wildcard has a public form: the
/// branch holds no hardened segment, and the wildcard is hardened only
/// where the key is private.
pub open spec fn is_watchable(key: Seq<u8>, branch: Seq<(u32, bool)>, wildcard: Wildcard) -> bool {
    all_normal(branch) && (wildcard == Wildcard::Hardened ==> is_private_payload(key))
}

impl DescriptorKeyView {
    /// The key expression that shows the public form of the key.
    pub open spec fn public_expression(self) -> Option<Seq<char>> {
        match public_of(self.key) {
            Some(q) => match xpub_text(q) {
                Some(t) => Some(
                    key_expression(self.fingerprint, self.origin, t, self.branch, self.wildcard),
                ),
                None => None,
            },
            None => None,
        }
    }

    /// The key expression that shows the secret, where the key holds one.
    pub open spec fn secret_expression(self) -> Option<Seq<char>> {
        if is_private_payload(self.key) {
            match xprv_text(self.key) {
                Some(t) => Some(
                    key_expression(self.fingerprint, self.origin, t, self.branch, self.wildcard),
                ),
                None => None,
            }
        } else {
            None
        }
    }

    /// The descriptors of a policy for this key: the public text, and the
    /// private text where the key holds a secret.
    pub open spec fn built(self, script: DescriptorType) -> Result<KeychainView, Error> {
        match self.public_expression() {
            Some(pe) => match descriptor_text(script, pe) {
                Some(public) => if is_private_payload(self.key) {
                    match self.secret_expression() {
                        Some(se) => match descriptor_text(script, se) {
                            Some(private) => Ok(KeychainView { public, private: Some(private) }),
                            None => Err(Error::KeyDerivationFailed),
                        },
                        None => Err(Error::KeyDerivationFailed),
                    }
                } else {
                    Ok(KeychainView { public, private: None })
                },
                None => Err(Error::KeyDerivationFailed),
            },
            None => Err(Error::KeyDerivationFailed),
        }
    }
}

/// What the descriptors of one keychain hold.
pub struct KeychainView {
    /// The descriptor with public keys only.
    pub public: Seq<char>,
    /// The descriptor that shows the secret.
    pub private: Option<Seq<char>>,
}

/// The descriptors of one keychain.
#[derive(Debug)]
pub struct KeychainDescriptor {
    /// The descriptor with public keys only. It is always there.
    pub public: String,
    /// The descriptor that shows the secret. It is there only when the key
    /// that the descriptors were built from was private.
    pub private: Option<String>,
}

impl View for KeychainDescriptor {
    type V = KeychainView;

    open spec fn view(&self) -> KeychainView {
        KeychainView { public: self.public@, private: opt_view(self.private) }
    }
}

impl Clone for KeychainDescriptor {
    fn clone(&self) -> (r: Self)
        ensures
            r@ == self@,
    {
        KeychainDescriptor {
            public: self.public.clone(),
            private: match &self.private {
                Some(p) => Some(p.clone()),
                None => None,
            },
        }
    }
}

impl DescriptorType {
    /// The purpose number that opens the account path of this policy.
    pub open spec fn purpose(self) -> u32 {
        match self {
            DescriptorType::Bip44 => 44u32,
            DescriptorType::Bip49 => 49u32,
            DescriptorType::Bip84 => 84u32,
            DescriptorType::Bip86 => 86u32,
        }
    }

    /// The purpose number that opens the account path of this policy.
    pub fn purpose_number(self) -> (n: u32)
        ensures
            n == self.purpose(),
    {
        match self {
            DescriptorType::Bip44 => 44u32,
            DescriptorType::Bip49 => 49u32,
            DescriptorType::Bip84 => 84u32,
            DescriptorType::Bip86 => 86u32,
        }
    }

    /// The lower-case name of this policy.
    pub open spec fn name_text(self) -> Seq<char> {
        match self {
            DescriptorType::Bip44 => "bip44"@,
            DescriptorType::Bip49 => "bip49"@,
            DescriptorType::Bip84 => "bip84"@,
            DescriptorType::Bip86 => "bip86"@,
        }
    }

    /// The lower-case name of this policy.
    pub fn name(self) -> (r: &'static str)
        ensures
            r@ == self.name_text(),
    {
        match self {
            DescriptorType::Bip44 => "bip44",
            DescriptorType::Bip49 => "bip49",
            DescriptorType::Bip84 => "bip84",
            DescriptorType::Bip86 => "bip86",
        }
    }

    /// The policy of the given lower-case name, if there is one.
    pub fn from_name(name: &str) -> (r: Option<DescriptorType>)
        ensures
            match r {
                Some(script) => name@ == script.name_text(),
                None => forall|script: DescriptorType| name@ != script.name_text(),
            },
    {
        if same_text(name, "bip44") {
            Some(DescriptorType::Bip44)
        } else if same_text(name, "bip49") {
            Some(DescriptorType::Bip49)
        } else if same_text(name, "bip84") {
            Some(DescriptorType::Bip84)
        } else if same_text(name, "bip86") {
            Some(DescriptorType::Bip86)
        } else {
            None
        }
    }

    /// The path of the first account of this policy.
    pub fn account_path(self) -> (r: DerivationPath)
        ensures
            r@ == account_path(self),
    {
        let raw: Vec<u32> = vec![
            self.purpose_number() + HARDENED_START,
            1u32 + HARDENED_START,
            HARDENED_START,
        ];
        let r = DerivationPath::from_raw(&raw);
        assert(r@ =~= account_path(self));
        r
    }

    /// The descriptor of this policy around a key expression.
    pub fn descriptor(self, key: &str) -> (r: Result<String, Error>)
        ensures
            match r {
                Ok(d) => descriptor_text(self, key@) == Some(d@),
                Err(e) => descriptor_text(self, key@) is None && e == Error::KeyDerivationFailed,
            },
    {
        let text = match self {
            DescriptorType::Bip44 => pkh_text(key),
            DescriptorType::Bip49 => sh_wpkh_text(key),
            DescriptorType::Bip84 => wpkh_text(key),
            DescriptorType::Bip86 => tr_text(key),
        };
        match text {
            Some(d) => Ok(d),
            None => Err(Error::KeyDerivationFailed),
        }
    }
}

/// An extended key with its origin, the branch below it and a wildcard.
/// A value is made for one request and never changed afterwards.
#[derive(Debug)]
pub struct DescriptorKey {
    fingerprint: Fingerprint,
    origin: DerivationPath,
    key: ExtendedKey,
    branch: DerivationPath,
    wildcard: Wildcard,
}

impl View for DescriptorKey {
    type V = DescriptorKeyView;

    closed spec fn view(&self) -> DescriptorKeyView {
        DescriptorKeyView {
            fingerprint: self.fingerprint@,
            origin: self.origin@,
            key: self.key@,
            branch: self.branch@,
            wildcard: self.wildcard,
        }
    }
}

impl Clone for DescriptorKey {
    fn clone(&self) -> (r: Self)
        ensures
            r@ == self@,
    {
        proof {
            use_type_invariant(self);
        }
        DescriptorKey {
            fingerprint: self.fingerprint,
            origin: self.origin.clone(),
            key: self.key,
            branch: self.branch.clone(),
            wildcard: self.wildcard,
        }
    }
}

/// What `DescriptorKey::from_master` makes of a master key, an account path
/// and a branch index.
pub open spec fn master_key_view(key: Seq<u8>, account: Seq<(u32, bool)>, index: u32) -> Result<
    DescriptorKeyView,
    Error,
> {
    if index >= HARDENED_START {
        Err(Error::InvalidDerivationPath)
    } else {
        match fingerprint_of(key) {
            Some(fingerprint) => Ok(
                DescriptorKeyView {
                    fingerprint,
                    origin: account,
                    key,
                    branch: seq![(index, false)],
                    wildcard: Wildcard::Unhardened,
                },
            ),
            None => Err(Error::KeyDerivationFailed),
        }
    }
}

impl DescriptorKey {
    #[verifier::type_invariant]
    spec fn can_be_public(self) -> bool {
        is_watchable(self.key@, self.branch@, self.wildcard)
    }

    /// A descriptor key made of its parts. The branch may hold no hardened
    /// segment, and only a private key may have a hardened wildcard: the
    /// children of a public key are all normal.
    pub fn new(
        fingerprint: Fingerprint,
        origin: DerivationPath,
        key: ExtendedKey,
        branch: DerivationPath,
        wildcard: Wildcard,
    ) -> (r: Result<DescriptorKey, Error>)
        ensures
            match r {
                Ok(k) => is_watchable(key@, branch@, wildcard) && k@ == (DescriptorKeyView {
                    fingerprint: fingerprint@,
                    origin: origin@,
                    key: key@,
                    branch: branch@,
                    wildcard,
                }),
                Err(e) => !is_watchable(key@, branch@, wildcard) && e
                    == Error::InvalidDerivationPath,
            },
    {
        match wildcard {
            Wildcard::Hardened => {
                if !key.is_private() {
                    return Err(Error::InvalidDerivationPath);
                }
            },
            _ => {},
        }
        let n = branch.len();
        let mut i: usize = 0;
        while i < n
            invariant
                n == branch@.len(),
                0 <= i <= n,
                forall|j: int| 0 <= j < i ==> !(#[trigger] branch@[j]).1,
            decreases n - i,
        {
            match branch.get(i) {
                Some(c) => {
                    if c.is_hardened() {
                        return Err(Error::InvalidDerivationPath);
                    }
                },
                None => {},
            }
            i = i + 1;
        }
        Ok(DescriptorKey { fingerprint, origin, key, branch, wildcard })
    }

    /// The descriptor key of one keychain of an account: the master key with
    /// the account path as its origin, the branch `index` below it and an
    /// unhardened wildcard. The origin names the master key and the account
    /// path, never the branch.
    pub fn from_master(master: &ExtendedKey, account: &DerivationPath, index: u32) -> (r: Result<
        DescriptorKey,
        Error,
    >)
        ensures
            match r {
                Ok(k) => master_key_view(master@, account@, index) == Ok::<
                    DescriptorKeyView,
                    Error,
                >(k@),
                Err(e) => master_key_view(master@, account@, index) == Err::<
                    DescriptorKeyView,
                    Error,
                >(e),
            },
    {
        let branch = match DerivationPath::branch(index) {
            Ok(b) => b,
            Err(e) => {
                return Err(e);
            },
        };
        let fingerprint = match master.fingerprint() {
            Ok(f) => f,
            Err(e) => {
                return Err(e);
            },
        };
        Ok(
            DescriptorKey {
                fingerprint,
                origin: account.clone(),
                key: *master,
                branch,
                wildcard: Wildcard::Unhardened,
            },
        )
    }

    /// `from_master` for a key that must be private.
    pub fn from_private(master: &ExtendedKey, account: &DerivationPath, index: u32) -> (r: Result<
        DescriptorKey,
        Error,
    >)
        ensures
            match r {
                Ok(k) => is_private_payload(master@) && master_key_view(master@, account@, index)
                    == Ok::<DescriptorKeyView, Error>(k@),
                Err(e) => if is_private_payload(master@) {
                    master_key_view(master@, account@, index) == Err::<DescriptorKeyView, Error>(e)
                } else {
                    e == Error::InvalidKeyEncoding
                },
            },
    {
        if master.is_private() {
            DescriptorKey::from_master(master, account, index)
        } else {
            Err(Error::InvalidKeyEncoding)
        }
    }

    /// `from_master` for a key that must be public.
    pub fn from_public(master: &ExtendedKey, account: &DerivationPath, index: u32) -> (r: Result<
        DescriptorKey,
        Error,
    >)
        ensures
            match r {
                Ok(k) => !is_private_payload(master@) && master_key_view(master@, account@, index)
                    == Ok::<DescriptorKeyView, Error>(k@),
                Err(e) => if !is_private_payload(master@) {
                    master_key_view(master@, account@, index) == Err::<DescriptorKeyView, Error>(e)
                } else {
                    e == Error::InvalidKeyEncoding
                },
            },
    {
        if master.is_private() {
            Err(Error::InvalidKeyEncoding)
        } else {
            DescriptorKey::from_master(master, account, index)
        }
    }

    /// The fingerprint of the master key.
    pub fn fingerprint(&self) -> (f: Fingerprint)
        ensures
            f@ == self@.fingerprint,
    {
        self.fingerprint
    }

    /// The path from the master key to the account.
    pub fn origin_path(&self) -> (p: &DerivationPath)
        ensures
            p@ == self@.origin,
    {
        &self.origin
    }

    /// The extended key.
    pub fn key(&self) -> (k: ExtendedKey)
        ensures
            k@ == self@.key,
    {
        self.key
    }

    /// The path below the extended key.
    pub fn branch(&self) -> (p: &DerivationPath)
        ensures
            p@ == self@.branch,
            is_watchable(self@.key, self@.branch, self@.wildcard),
    {
        proof {
            use_type_invariant(self);
        }
        &self.branch
    }

    /// The wildcard.
    pub fn wildcard(&self) -> (w: Wildcard)
        ensures
            w == self@.wildcard,
    {
        self.wildcard
    }

    /// The descriptors of a policy for this key. The public descriptor is
    /// always built, from the public form of the key; the private one only
    /// where the key holds a secret.
    pub fn build(&self, script: DescriptorType) -> (r: Result<KeychainDescriptor, Error>)
        ensures
            match r {
                Ok(d) => self@.built(script) == Ok::<KeychainView, Error>(d@),
                Err(e) => self@.built(script) == Err::<KeychainView, Error>(e),
            },
    {
        proof {
            use_type_invariant(self);
        }
        let fingerprint = self.fingerprint.to_bytes();
        let origin = self.origin.to_raw();
        let branch = self.branch.to_raw();
        let payload = self.key.to_bytes();
        proof {
            lemma_raw_path_round_trip(self.origin@);
            lemma_raw_path_round_trip(self.branch@);
            assert forall|i: int| 0 <= i < branch@.len() implies #[trigger] branch@[i]
                < HARDENED_START by {
                assert(!self.branch@[i].1);
            }
        }
        if self.key.is_private() {
            let public_expression = match public_expression_of_secret(
                &fingerprint,
                &origin,
                &payload,
                &branch,
                self.wildcard,
            ) {
                Some(e) => e,
                None => {
                    return Err(Error::KeyDerivationFailed);
                },
            };
            let public = match script.descriptor(public_expression.as_str()) {
                Ok(d) => d,
                Err(e) => {
                    return Err(e);
                },
            };
            let secret_expression = match secret_key_expression(
                &fingerprint,
                &origin,
                &payload,
                &branch,
                self.wildcard,
            ) {
                Some(e) => e,
                None => {
                    return Err(Error::KeyDerivationFailed);
                },
            };
            let private = match script.descriptor(secret_expression.as_str()) {
                Ok(d) => d,
                Err(e) => {
                    return Err(e);
                },
            };
            Ok(KeychainDescriptor { public, private: Some(private) })
        } else {
            let public_expression = match public_key_expression(
                &fingerprint,
                &origin,
                &payload,
                &branch,
                self.wildcard,
            ) {
                Some(e) => e,
                None => {
                    return Err(Error::KeyDerivationFailed);
                },
            };
            match script.descriptor(public_expression.as_str()) {
                Ok(public) => Ok(KeychainDescriptor { public, private: None }),
                Err(e) => Err(e),
            }
        }
    }
}

/// The `Display` of a `DescriptorPublicKey::XPub` of the `miniscript` crate,
/// made of the given origin, the public key decoded from `payload`, the
/// branch and the wildcard. It writes the origin in square brackets, the
/// text of the key, one `/` and child number for each step of the branch,
/// and the wildcard. There is no text where `payload` is no public key.
#[verifier::external_body]
fn public_key_expression(
    fingerprint: &[u8; 4],
    origin: &Vec<u32>,
    payload: &[u8; 78],
    branch: &Vec<u32>,
    wildcard: Wildcard,
) -> (r: Option<String>)
    ensures
        opt_view(r) == match xpub_text(payload@) {
            Some(t) => Some(
                key_expression(
                    fingerprint@,
                    path_of_raw(origin@),
                    t,
                    path_of_raw(branch@),
                    wildcard,
                ),
            ),
            None => None,
        },
{
    let key = DescriptorXKey {
        origin: Some(((*fingerprint).into(), origin.iter().map(|n| (*n).into()).collect())),
        xkey: Xpub::decode(payload).ok()?,
        derivation_path: branch.iter().map(|n| (*n).into()).collect(),
        wildcard: match wildcard {
            Wildcard::Absent => KeyWildcard::None,
            Wildcard::Unhardened => KeyWildcard::Unhardened,
            Wildcard::Hardened => KeyWildcard::Hardened,
        },
    };
    Some(DescriptorPublicKey::XPub(key).to_string())
}

/// The `Display` of a `DescriptorSecretKey::XPrv` of the `miniscript` crate,
/// made of the given origin, the private key decoded from `payload`, the
/// branch and the wildcard. It is written as a public key expression is,
/// with the text of the private key in place of that of the public key.
#[verifier::external_body]
fn secret_key_expression(
    fingerprint: &[u8; 4],
    origin: &Vec<u32>,
    payload: &[u8; 78],
    branch: &Vec<u32>,
    wildcard: Wildcard,
) -> (r: Option<String>)
    ensures
        opt_view(r) == match xprv_text(payload@) {
            Some(t) => Some(
                key_expression(
                    fingerprint@,
                    path_of_raw(origin@),
                    t,
                    path_of_raw(branch@),
                    wildcard,
                ),
            ),
            None => None,
        },
{
    let key = DescriptorXKey {
        origin: Some(((*fingerprint).into(), origin.iter().map(|n| (*n).into()).collect())),
        xkey: Xpriv::decode(payload).ok()?,
        derivation_path: branch.iter().map(|n| (*n).into()).collect(),
        wildcard: match wildcard {
            Wildcard::Absent => KeyWildcard::None,
            Wildcard::Unhardened => KeyWildcard::Unhardened,
            Wildcard::Hardened => KeyWildcard::Hardened,
        },
    };
    Some(DescriptorSecretKey::XPrv(key).to_string())
}

/// `IntoDescriptorKey::into_descriptor_key` and `DescriptorKey::extract` of
/// the `bdk_wallet` crate on a `DescriptorSecretKey::XPrv`, followed by the
/// `Display` of the public key that comes out. Where the branch holds no
/// hardened step, the public key has the same origin, branch and wildcard,
/// and the public key that belongs to the private key.
#[verifier::external_body]
fn public_expression_of_secret(
    fingerprint: &[u8; 4],
    origin: &Vec<u32>,
    payload: &[u8; 78],
    branch: &Vec<u32>,
    wildcard: Wildcard,
) -> (r: Option<String>)
    requires
        forall|i: int| 0 <= i < branch@.len() ==> #[trigger] branch@[i] < HARDENED_START,
    ensures
        opt_view(r) == match neutered(payload@) {
            Some(q) => match xpub_text(q) {
                Some(t) => Some(
                    key_expression(
                        fingerprint@,
                        path_of_raw(origin@),
                        t,
                        path_of_raw(branch@),
                        wildcard,
                    ),
                ),
                None => None,
            },
            None => None,
        },
{
    let key = DescriptorXKey {
        origin: Some(((*fingerprint).into(), origin.iter().map(|n| (*n).into()).collect())),
        xkey: Xpriv::decode(payload).ok()?,
        derivation_path: branch.iter().map(|n| (*n).into()).collect(),
        wildcard: match wildcard {
            Wildcard::Absent => KeyWildcard::None,
            Wildcard::Unhardened => KeyWildcard::Unhardened,
            Wildcard::Hardened => KeyWildcard::Hardened,
        },
    };
    let secret: Result<bdk_wallet::keys::DescriptorKey<Segwitv0>, _> =
        DescriptorSecretKey::XPrv(key).into_descriptor_key();
    Some(secret.ok()?.extract(&Secp256k1::new()).ok()?.0.to_string())
}

/// `Descriptor::new_pkh` of the `miniscript` crate on the text of a key
/// expression, followed by the descriptor's `Display`: `pkh(`, the key, `)`,
/// `#` and the checksum.
#[verifier::external_body]
fn pkh_text(key: &str) -> (r: Option<String>)
    ensures
        opt_view(r) == match descriptor_checksum(wrapped(DescriptorType::Bip44, key@)) {
            Some(sum) => Some(wrapped(DescriptorType::Bip44, key@) + seq!['#'] + sum),
            None => None,
        },
{
    let descriptor = Descriptor::<String>::new_pkh(key.to_owned()).ok()?;
    let mut text = String::new();
    write!(text, "{}", descriptor).ok()?;
    Some(text)
}

/// `Descriptor::new_sh_wpkh` of the `miniscript` crate on the text of a key
/// expression, followed by the descriptor's `Display`: `sh(wpkh(`, the key,
/// `))`, `#` and the checksum.
#[verifier::external_body]
fn sh_wpkh_text(key: &str) -> (r: Option<String>)
    ensures
        opt_view(r) == match descriptor_checksum(wrapped(DescriptorType::Bip49, key@)) {
            Some(sum) => Some(wrapped(DescriptorType::Bip49, key@) + seq!['#'] + sum),
            None => None,
        },
{
    let descriptor = Descriptor::<String>::new_sh_wpkh(key.to_owned()).ok()?;
    let mut text = String::new();
    write!(text, "{}", descriptor).ok()?;
    Some(text)
}

/// `Descriptor::new_wpkh` of the `miniscript` crate on the text of a key
/// expression, followed by the descriptor's `Display`: `wpkh(`, the key,
/// `)`, `#` and the checksum.
#[verifier::external_body]
fn wpkh_text(key: &str) -> (r: Option<String>)
    ensures
        opt_view(r) == match descriptor_checksum(wrapped(DescriptorType::Bip84, key@)) {
            Some(sum) => Some(wrapped(DescriptorType::Bip84, key@) + seq!['#'] + sum),
            None => None,
        },
{
    let descriptor = Descriptor::<String>::new_wpkh(key.to_owned()).ok()?;
    let mut text = String::new();
    write!(text, "{}", descriptor).ok()?;
    Some(text)
}

/// `Descriptor::new_tr` of the `miniscript` crate on the text of a key
/// expression and no script tree, followed by the descriptor's `Display`:
/// `tr(`, the key, `)`, `#` and the checksum.
#[verifier::external_body]
fn tr_text(key: &str) -> (r: Option<String>)
    ensures
        opt_view(r) == match descriptor_checksum(wrapped(DescriptorType::Bip86, key@)) {
            Some(sum) => Some(wrapped(DescriptorType::Bip86, key@) + seq!['#'] + sum),
            None => None,
        },
{
    let descriptor = Descriptor::<String>::new_tr(key.to_owned(), None).ok()?;
    let mut text = String::new();
    write!(text, "{}", descriptor).ok()?;
    Some(text)
}

} // verus!
