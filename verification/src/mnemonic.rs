//! BIP84 descriptors for a recovery phrase.
//!
//! The phrase gives a seed, the seed a master key. The descriptor of each
//! keychain is first written out as text around the master key, then read
//! back and written again in its public and its private form. Phrase, seed
//! and master key come from the `bip39` and `bitcoin` crates, reading and
//! rewriting from the `miniscript` crate; what is believed of them is stated
//! on the private functions at the end of this file.

use vstd::prelude::*;
use vstd::string::StringExecFns;
use bdk_wallet::bitcoin::secp256k1::Secp256k1;
use bdk_wallet::keys::GeneratableKey;
use bdk_wallet::keys::GeneratedKey;
use bdk_wallet::keys::bip39::Language;
use bdk_wallet::keys::bip39::Mnemonic;
use bdk_wallet::keys::bip39::WordCount;
use bdk_wallet::miniscript::Descriptor;
use bdk_wallet::miniscript::Segwitv0;
use bdk_wallet::miniscript::descriptor::DescriptorPublicKey;
use crate::descriptor::KeychainDescriptor;
use crate::descriptor::KeychainView;
use crate::error::Error;
use crate::keys::fingerprint_of;
use crate::keys::master_payload;
use crate::keys::xprv_text;
use crate::keys::ExtendedKey;
use crate::network::Network;
use crate::text::hex_text;
use crate::text::split_on;

verus! {

/// The 64-byte seed of a recovery phrase under a passphrase. `None` where
/// the text is no recovery phrase.
pub uninterp spec fn mnemonic_seed(phrase: Seq<char>, passphrase: Seq<char>) -> Option<Seq<u8>>;

/// The public and the private form of a descriptor that is read from a text
/// which may show secrets. `None` where the text is no descriptor.
pub uninterp spec fn parsed_descriptor(text: Seq<char>) -> Option<(Seq<char>, Seq<char>)>;

/// The number of words of a phrase: its pieces between single spaces.
pub open spec fn word_count(phrase: Seq<char>) -> nat {
    split_on(phrase, ' ').len()
}

/// The BIP84 descriptor of a keychain, written around the text of a master
/// key: origin fingerprint, the account path `84h/1h/0h`, the key and the
/// keychain's branch with a wildcard.
pub open spec fn bip84_text(fingerprint: Seq<u8>, key: Seq<char>, branch: Seq<char>) -> Seq<char> {
    "wpkh(["@ + hex_text(fingerprint) + "/84h/1h/0h"@ + "]"@ + key + branch + ")"@
}

/// The descriptors of one keychain, from the text written by `bip84_text`.
pub open spec fn keychain_of_text(text: Seq<char>) -> Result<KeychainView, Error> {
    match parsed_descriptor(text) {
        Some((public, private)) => Ok(KeychainView { public, private: Some(private) }),
        None => Err(Error::DescriptorParsingFailed),
    }
}

/// What the BIP84 descriptors of a recovery phrase hold.
pub struct MnemonicDescriptorsView {
    /// The recovery phrase.
    pub mnemonic: Seq<char>,
    /// The descriptors of the receiving keychain.
    pub external_descriptor: KeychainView,
    /// The descriptors of the change keychain.
    pub internal_descriptor: KeychainView,
}

/// A recovery phrase and the BIP84 descriptors of its master key.
#[derive(Debug)]
pub struct MnemonicDescriptors {
    /// The recovery phrase.
    pub mnemonic: String,
    /// The descriptors of the receiving keychain, branch 0.
    pub external_descriptor: KeychainDescriptor,
    /// The descriptors of the change keychain, branch 1.
    pub internal_descriptor: KeychainDescriptor,
}

impl View for MnemonicDescriptors {
    type V = MnemonicDescriptorsView;

    open spec fn view(&self) -> MnemonicDescriptorsView {
        MnemonicDescriptorsView {
            mnemonic: self.mnemonic@,
            external_descriptor: self.external_descriptor@,
            internal_descriptor: self.internal_descriptor@,
        }
    }
}

/// The BIP84 descriptors of the master key of a recovery phrase with the
/// empty passphrase, on `network`.
pub open spec fn mnemonic_descriptors(network: Network, phrase: Seq<char>) -> Result<
    MnemonicDescriptorsView,
    Error,
> {
    match mnemonic_seed(phrase, Seq::<char>::empty()) {
        None => Err(Error::MnemonicGenerationFailed),
        Some(seed) => match master_payload(seed, network.kind_spec()) {
            None => Err(Error::KeyDerivationFailed),
            Some(master) => match (fingerprint_of(master), xprv_text(master)) {
                (Some(fingerprint), Some(key)) => match keychain_of_text(
                    bip84_text(fingerprint, key, "/0/*"@),
                ) {
                    Err(e) => Err(e),
                    Ok(external) => match keychain_of_text(
                        bip84_text(fingerprint, key, "/1/*"@),
                    ) {
                        Err(e) => Err(e),
                        Ok(internal) => Ok(
                            MnemonicDescriptorsView {
                                mnemonic: phrase,
                                external_descriptor: external,
                                internal_descriptor: internal,
                            },
                        ),
                    },
                },
                _ => Err(Error::KeyDerivationFailed),
            },
        },
    }
}

/// Writes the BIP84 descriptor of a keychain around the text of a key.
fn write_bip84(fingerprint: &str, key: &str, branch: &str) -> (r: String)
    ensures
        r@ == "wpkh(["@ + fingerprint@ + "/84h/1h/0h"@ + "]"@ + key@ + branch@ + ")"@,
{
    let mut r = String::from_str("wpkh([");
    r.append(fingerprint);
    r.append("/84h/1h/0h");
    r.append("]");
    r.append(key);
    r.append(branch);
    r.append(")");
    r
}

/// Reads a descriptor text, which may show secrets, and gives its public
/// and its private form.
pub fn keychain_from_text(text: &str) -> (r: Result<KeychainDescriptor, Error>)
    ensures
        match r {
            Ok(d) => keychain_of_text(text@) == Ok::<KeychainView, Error>(d@),
            Err(e) => keychain_of_text(text@) == Err::<KeychainView, Error>(e),
        },
{
    match read_descriptor(text) {
        Some((public, private)) => Ok(KeychainDescriptor { public, private: Some(private) }),
        None => Err(Error::DescriptorParsingFailed),
    }
}

/// The BIP84 descriptors of the master key of a recovery phrase, on
/// `network`. The passphrase is empty.
pub fn bip84_descriptors_of_mnemonic(network: Network, mnemonic: &str) -> (r: Result<
    MnemonicDescriptors,
    Error,
>)
    ensures
        match r {
            Ok(d) => mnemonic_descriptors(network, mnemonic@) == Ok::<
                MnemonicDescriptorsView,
                Error,
            >(d@),
            Err(e) => mnemonic_descriptors(network, mnemonic@) == Err::<
                MnemonicDescriptorsView,
                Error,
            >(e),
        },
{
    let passphrase = String::new();
    let seed = match seed_of_mnemonic(mnemonic, passphrase.as_str()) {
        Some(s) => s,
        None => {
            return Err(Error::MnemonicGenerationFailed);
        },
    };
    let master = match ExtendedKey::master(&seed, network.kind()) {
        Ok(k) => k,
        Err(e) => {
            return Err(e);
        },
    };
    let fingerprint = match master.fingerprint() {
        Ok(f) => f,
        Err(e) => {
            return Err(e);
        },
    };
    let key = match master.to_text() {
        Ok(t) => t,
        Err(e) => {
            return Err(e);
        },
    };
    let origin = fingerprint.to_hex();
    let external_text = write_bip84(origin.as_str(), key.as_str(), "/0/*");
    let external = match keychain_from_text(external_text.as_str()) {
        Ok(d) => d,
        Err(e) => {
            return Err(e);
        },
    };
    let internal_text = write_bip84(origin.as_str(), key.as_str(), "/1/*");
    let internal = match keychain_from_text(internal_text.as_str()) {
        Ok(d) => d,
        Err(e) => {
            return Err(e);
        },
    };
    Ok(
        MnemonicDescriptors {
            mnemonic: String::from_str(mnemonic),
            external_descriptor: external,
            internal_descriptor: internal,
        },
    )
}

/// A fresh recovery phrase of twelve English words and the BIP84
/// descriptors of its master key. Whatever phrase is drawn, the descriptors
/// that come back are those of the phrase that comes back.
pub fn generate_new_bip84_descriptor_with_mnemonic(network: Network) -> (r: Result<
    MnemonicDescriptors,
    Error,
>)
    ensures
        match r {
            Ok(d) => word_count(d.mnemonic@) == 12 && mnemonic_descriptors(network, d.mnemonic@)
                == Ok::<MnemonicDescriptorsView, Error>(d@),
            Err(e) => e == Error::MnemonicGenerationFailed || exists|phrase: Seq<char>|
                word_count(phrase) == 12 && mnemonic_descriptors(network, phrase) == Err::<
                    MnemonicDescriptorsView,
                    Error,
                >(e),
        },
{
    match fresh_mnemonic() {
        Some(phrase) => bip84_descriptors_of_mnemonic(network, phrase.as_str()),
        None => Err(Error::MnemonicGenerationFailed),
    }
}

/// `GeneratableKey::generate` of the `bdk_wallet` crate for a `Mnemonic` of
/// twelve English words, followed by the `Display` of the phrase, which
/// puts one space between two words. The words are drawn at random, so
/// nothing is said of them but their number.
#[verifier::external_body]
fn fresh_mnemonic() -> (r: Option<String>)
    ensures
        r matches Some(phrase) ==> word_count(phrase@) == 12,
{
    let generated: GeneratedKey<Mnemonic, Segwitv0> = Mnemonic::generate(
        (WordCount::Words12, Language::English),
    ).ok()?;
    Some(generated.to_string())
}

/// `Mnemonic::to_seed` of the `bip39` crate, on the phrase that
/// `Mnemonic::from_str` reads from the text.
#[verifier::external_body]
fn seed_of_mnemonic(phrase: &str, passphrase: &str) -> (r: Option<[u8; 64]>)
    ensures
        match r {
            Some(s) => mnemonic_seed(phrase@, passphrase@) == Some(s@),
            None => mnemonic_seed(phrase@, passphrase@) is None,
        },
{
    phrase.parse::<Mnemonic>().ok().map(|m| m.to_seed(passphrase))
}

/// `Descriptor::parse_descriptor` of the `miniscript` crate, followed by the
/// descriptor's `Display` and by `Descriptor::to_string_with_secret` with the
/// key map that parsing gave.
#[verifier::external_body]
fn read_descriptor(text: &str) -> (r: Option<(String, String)>)
    ensures
        match r {
            Some((public, private)) => parsed_descriptor(text@) == Some((public@, private@)),
            None => parsed_descriptor(text@) is None,
        },
{
    Descriptor::<DescriptorPublicKey>::parse_descriptor(&Secp256k1::new(), text).ok().map(
        |(d, keys)| (d.to_string(), d.to_string_with_secret(&keys)),
    )
}

} // verus!
