//! The entry points: descriptors for a key and a policy, multipath
//! descriptors, and the small argument parsers.

use vstd::prelude::*;
use bdk_wallet::bitcoin::Address;
use bdk_wallet::bitcoin::address::NetworkUnchecked;
use crate::descriptor::account_path;
use crate::descriptor::master_key_view;
use crate::descriptor::DescriptorKey;
use crate::descriptor::KeychainDescriptor;
use crate::descriptor::KeychainView;
use crate::error::Error;
use crate::keys::key_payload;
use crate::keys::on_network;
use crate::keys::xpub_payload;
use crate::keys::ExtendedKey;
use crate::keys::Fingerprint;
use crate::network::Network;
use crate::path::path_of_raw;
use crate::path::path_of_text;
use crate::path::DerivationPath;
use crate::text::parse_unsigned;
use crate::text::split_on;
use crate::text::split_str;
use crate::text::unsigned_value;
use crate::text::views;

pub use crate::client::new_blockchain_client;
pub use crate::descriptor::DescriptorType;
pub use crate::mnemonic::generate_new_bip84_descriptor_with_mnemonic;
pub use crate::wallet::new_persisted_wallet;
pub use crate::wallet::new_wallet;

verus! {

/// What the descriptors of an account hold.
pub struct DescriptorSetView {
    /// The policy.
    pub descriptor_type: DescriptorType,
    /// The descriptors of the receiving keychain.
    pub external: KeychainView,
    /// The descriptors of the change keychain.
    pub internal: KeychainView,
    /// The fingerprint of the master key.
    pub fingerprint: Seq<u8>,
    /// The network.
    pub network: Network,
}

/// The descriptors of an account, for both keychains.
#[derive(Debug)]
pub struct DescriptorSet {
    /// The policy that the descriptors follow.
    pub descriptor_type: DescriptorType,
    /// The descriptors of the receiving keychain, branch 0.
    pub external: KeychainDescriptor,
    /// The descriptors of the change keychain, branch 1.
    pub internal: KeychainDescriptor,
    /// The fingerprint of the master key, which is the origin of both.
    pub fingerprint: Fingerprint,
    /// The network that the caller named.
    pub network: Network,
}

impl View for DescriptorSet {
    type V = DescriptorSetView;

    open spec fn view(&self) -> DescriptorSetView {
        DescriptorSetView {
            descriptor_type: self.descriptor_type,
            external: self.external@,
            internal: self.internal@,
            fingerprint: self.fingerprint@,
            network: self.network,
        }
    }
}

/// What the multipath descriptors of an account hold.
pub struct MultipathView {
    /// The public descriptor of the receiving keychain.
    pub external: Seq<char>,
    /// The public descriptor of the change keychain.
    pub internal: Seq<char>,
    /// The fingerprint of the key.
    pub fingerprint: Seq<u8>,
    /// The network.
    pub network: Network,
}

/// The public BIP84 descriptors of both keychains of an account.
#[derive(Debug)]
pub struct MultipathDescriptors {
    /// The public descriptor of the receiving keychain, branch 0.
    pub external: String,
    /// The public descriptor of the change keychain, branch 1.
    pub internal: String,
    /// The fingerprint of the key, which is the origin of both.
    pub fingerprint: Fingerprint,
    /// The network that the caller named.
    pub network: Network,
}

impl View for MultipathDescriptors {
    type V = MultipathView;

    open spec fn view(&self) -> MultipathView {
        MultipathView {
            external: self.external@,
            internal: self.internal@,
            fingerprint: self.fingerprint@,
            network: self.network,
        }
    }
}

impl MultipathDescriptors {
    /// The name of this kind of result.
    pub fn kind_name(&self) -> (r: &'static str)
        ensures
            r@ == "bip84-multipath"@,
    {
        "bip84-multipath"
    }
}

/// The descriptors of the account `account` of the key `key` on `network`.
/// The key must be encoded for the family of `network`. Both keychains have
/// the master key's fingerprint and the account path as their origin; the
/// receiving keychain is branch 0, the change keychain branch 1.
pub open spec fn derived(
    network: Network,
    key: Seq<u8>,
    account: Seq<(u32, bool)>,
    script: DescriptorType,
) -> Result<DescriptorSetView, Error> {
    if !on_network(key, network) {
        Err(Error::InvalidKeyEncoding)
    } else {
        match master_key_view(key, account, 0) {
            Ok(receive) => match receive.built(script) {
                Ok(external) => match master_key_view(key, account, 1) {
                    Ok(change) => match change.built(script) {
                        Ok(internal) => Ok(
                            DescriptorSetView {
                                descriptor_type: script,
                                external,
                                internal,
                                fingerprint: receive.fingerprint,
                                network,
                            },
                        ),
                        Err(e) => Err(e),
                    },
                    Err(e) => Err(e),
                },
                Err(e) => Err(e),
            },
            Err(e) => Err(e),
        }
    }
}

/// The descriptors for a key given as text and an account path.
pub open spec fn derived_from_text(
    network: Network,
    key: Seq<char>,
    account: Seq<(u32, bool)>,
    script: DescriptorType,
) -> Result<DescriptorSetView, Error> {
    match key_payload(key) {
        Some(k) => derived(network, k, account, script),
        None => Err(Error::InvalidKeyEncoding),
    }
}

/// The descriptors for a key and an account path that are both given as
/// text. The path is read first.
pub open spec fn derived_from_texts(
    network: Network,
    key: Seq<char>,
    path: Seq<char>,
    script: DescriptorType,
) -> Result<DescriptorSetView, Error> {
    match path_of_text(path) {
        Some(raw) => derived_from_text(network, key, path_of_raw(raw), script),
        None => Err(Error::InvalidDerivationPath),
    }
}

/// The multipath descriptors for a public key given as text. Any script type
/// but 84 is refused before the key is looked at.
pub open spec fn multipath(network: Network, script_type: u8, key: Seq<char>) -> Result<
    MultipathView,
    Error,
> {
    if script_type != 84 {
        Err(Error::UnsupportedMultipath)
    } else {
        match xpub_payload(key) {
            Some(k) => match derived(
                network,
                k,
                account_path(DescriptorType::Bip84),
                DescriptorType::Bip84,
            ) {
                Ok(d) => Ok(
                    MultipathView {
                        external: d.external.public,
                        internal: d.internal.public,
                        fingerprint: d.fingerprint,
                        network,
                    },
                ),
                Err(e) => Err(e),
            },
            None => Err(Error::InvalidKeyEncoding),
        }
    }
}

/// Whether a result is what the definition asks for: the same descriptors,
/// or the same error.
pub open spec fn is_outcome(
    r: Result<DescriptorSet, Error>,
    wanted: Result<DescriptorSetView, Error>,
) -> bool {
    match r {
        Ok(d) => wanted == Ok::<DescriptorSetView, Error>(d@),
        Err(e) => wanted == Err::<DescriptorSetView, Error>(e),
    }
}

/// The descriptors of the account `account` of `key` on `network`.
pub fn derive_descriptors(
    network: Network,
    key: &ExtendedKey,
    account: &DerivationPath,
    script: DescriptorType,
) -> (r: Result<DescriptorSet, Error>)
    ensures
        is_outcome(r, derived(network, key@, account@, script)),
{
    if !key.matches_network(network) {
        return Err(Error::InvalidKeyEncoding);
    }
    let receive = match DescriptorKey::from_master(key, account, 0) {
        Ok(k) => k,
        Err(e) => {
            return Err(e);
        },
    };
    let external = match receive.build(script) {
        Ok(d) => d,
        Err(e) => {
            return Err(e);
        },
    };
    let change = match DescriptorKey::from_master(key, account, 1) {
        Ok(k) => k,
        Err(e) => {
            return Err(e);
        },
    };
    let internal = match change.build(script) {
        Ok(d) => d,
        Err(e) => {
            return Err(e);
        },
    };
    Ok(
        DescriptorSet {
            descriptor_type: script,
            external,
            internal,
            fingerprint: receive.fingerprint(),
            network,
        },
    )
}

/// The descriptors of a key for the account path given as text, such as
/// `m/84h/1h/0h`. The key may be private or public; a public key gives
/// public descriptors only.
pub fn generate_bip_descriptor_from_key(
    network: &Network,
    key: &str,
    derivation_path_str: &str,
    descriptor_type: DescriptorType,
) -> (r: Result<DescriptorSet, Error>)
    ensures
        is_outcome(r, derived_from_texts(*network, key@, derivation_path_str@, descriptor_type)),
{
    let account = match DerivationPath::from_str(derivation_path_str) {
        Ok(p) => p,
        Err(e) => {
            return Err(e);
        },
    };
    let master = match ExtendedKey::parse(key) {
        Ok(k) => k,
        Err(e) => {
            return Err(e);
        },
    };
    derive_descriptors(*network, &master, &account, descriptor_type)
}

/// The descriptors of a key for the first account of a policy.
pub fn generate_descriptor_from_key_by_type(
    network: &Network,
    key: &str,
    descriptor_type: DescriptorType,
) -> (r: Result<DescriptorSet, Error>)
    ensures
        is_outcome(
            r,
            derived_from_text(*network, key@, account_path(descriptor_type), descriptor_type),
        ),
{
    let master = match ExtendedKey::parse(key) {
        Ok(k) => k,
        Err(e) => {
            return Err(e);
        },
    };
    let account = descriptor_type.account_path();
    derive_descriptors(*network, &master, &account, descriptor_type)
}

/// The public BIP84 descriptors of both keychains of a public key. Only
/// script type 84 is served.
pub fn generate_multipath_descriptor(network: &Network, script_type: u8, key: &str) -> (r: Result<
    MultipathDescriptors,
    Error,
>)
    ensures
        match r {
            Ok(d) => multipath(*network, script_type, key@) == Ok::<MultipathView, Error>(d@),
            Err(e) => multipath(*network, script_type, key@) == Err::<MultipathView, Error>(e),
        },
{
    if script_type != 84 {
        return Err(Error::UnsupportedMultipath);
    }
    let xpub = match ExtendedKey::parse_public(key) {
        Ok(k) => k,
        Err(e) => {
            return Err(e);
        },
    };
    let account = DescriptorType::Bip84.account_path();
    match derive_descriptors(*network, &xpub, &account, DescriptorType::Bip84) {
        Ok(d) => Ok(
            MultipathDescriptors {
                external: d.external.public,
                internal: d.internal.public,
                fingerprint: d.fingerprint,
                network: *network,
            },
        ),
        Err(e) => Err(e),
    }
}

/// What `parse_proxy_auth` makes of a text: the two pieces around its only
/// colon.
pub open spec fn proxy_auth(s: Seq<char>) -> Result<(Seq<char>, Seq<char>), Error> {
    let parts = split_on(s, ':');
    if parts.len() == 2 {
        Ok((parts[0], parts[1]))
    } else {
        Err(Error::InvalidFormat)
    }
}

/// Reads the user name and the password of a proxy from `user:password`.
pub fn parse_proxy_auth(s: &str) -> (r: Result<(String, String), Error>)
    ensures
        match r {
            Ok((user, password)) => proxy_auth(s@) == Ok::<(Seq<char>, Seq<char>), Error>(
                (user@, password@),
            ),
            Err(e) => proxy_auth(s@) == Err::<(Seq<char>, Seq<char>), Error>(e),
        },
{
    let mut parts = split_str(s, ':');
    if parts.len() != 2 {
        return Err(Error::InvalidFormat);
    }
    let ghost texts = views(parts@);
    let password = parts.pop().unwrap();
    let user = parts.pop().unwrap();
    proof {
        assert(texts[0] == user@);
        assert(texts[1] == password@);
    }
    Ok((user, password))
}

/// The output script that pays to the address written by `text`, whatever
/// network the address is for. `None` where the text is no address.
pub uninterp spec fn address_script(text: Seq<char>) -> Option<Seq<u8>>;

/// What `parse_recipient` makes of a text: the output script of the address
/// before its only colon, and the amount after it.
pub open spec fn recipient(s: Seq<char>) -> Result<(Seq<u8>, u64), Error> {
    let parts = split_on(s, ':');
    if parts.len() != 2 {
        Err(Error::InvalidFormat)
    } else {
        match address_script(parts[0]) {
            None => Err(Error::InvalidAddress),
            Some(script) => match unsigned_value(parts[1], u64::MAX as nat) {
                Some(amount) => Ok((script, amount as u64)),
                None => Err(Error::InvalidAmount),
            },
        }
    }
}

/// Reads a recipient from `address:amount`: the output script of the
/// address, and the amount as an unsigned decimal number.
pub fn parse_recipient(s: &str) -> (r: Result<(Vec<u8>, u64), Error>)
    ensures
        match r {
            Ok((script, amount)) => recipient(s@) == Ok::<(Seq<u8>, u64), Error>(
                (script@, amount),
            ),
            Err(e) => recipient(s@) == Err::<(Seq<u8>, u64), Error>(e),
        },
{
    let parts = split_str(s, ':');
    if parts.len() != 2 {
        return Err(Error::InvalidFormat);
    }
    proof {
        assert(views(parts@)[0] == parts@[0]@);
        assert(views(parts@)[1] == parts@[1]@);
    }
    let script = match script_of_address(parts[0].as_str()) {
        Some(b) => b,
        None => {
            return Err(Error::InvalidAddress);
        },
    };
    match parse_unsigned(parts[1].as_str(), u64::MAX) {
        Some(amount) => Ok((script, amount)),
        None => Err(Error::InvalidAmount),
    }
}

/// `Address::from_str` of the `bitcoin` crate, followed by
/// `Address::assume_checked` and `Address::script_pubkey`, whose bytes are
/// handed out.
#[verifier::external_body]
fn script_of_address(text: &str) -> (r: Option<Vec<u8>>)
    ensures
        match r {
            Some(b) => address_script(text@) == Some(b@),
            None => address_script(text@) is None,
        },
{
    text.parse::<Address<NetworkUnchecked>>().ok().map(
        |a| a.assume_checked().script_pubkey().into_bytes(),
    )
}

} // verus!
