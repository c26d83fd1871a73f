use std::str::FromStr;

use bdk_wallet::bitcoin::bip32::{DerivationPath as BtcPath, Xpriv, Xpub};
use bdk_wallet::bitcoin::secp256k1::Secp256k1;
use bdk_wallet::bitcoin::NetworkKind as BtcKind;
use bdk_wallet::keys::{DescriptorSecretKey, IntoDescriptorKey};
use bdk_wallet::miniscript::descriptor::{DescriptorPublicKey, DescriptorXKey, Wildcard as BtcWildcard};
use bdk_wallet::miniscript::{Descriptor, Segwitv0};

use bdk_cli::descriptor::{DescriptorKey, DescriptorType, Wildcard};
use bdk_cli::error::Error;
use bdk_cli::keys::ExtendedKey;
use bdk_cli::network::Network;
use bdk_cli::path::DerivationPath;
use bdk_cli::utils::{
    derive_descriptors, generate_bip_descriptor_from_key, generate_descriptor_from_key_by_type,
    generate_multipath_descriptor,
};

const MASTER_XPRV: &str = "xprv9s21ZrQH143K3QTDL4LXw2F7HEK3wJUD2nW2nRk4stbPy6cq3jPPqjiChkVvvNKmPGJxWUtg6LnF5kejMRNNU3TGtRBeJgk33yuGBxrMPHi";
const MASTER_XPUB: &str = "xpub661MyMwAqRbcFtXgS5sYJABqqG9YLmC4Q1Rdap9gSE8NqtwybGhePY2gZ29ESFjqJoCu1Rupje8YtGqsefD265TMg7usUDFdp6W1EGMcet8";

fn all_types() -> Vec<DescriptorType> {
    vec![DescriptorType::Bip44, DescriptorType::Bip49, DescriptorType::Bip84, DescriptorType::Bip86]
}

fn account_text(script: DescriptorType) -> &'static str {
    match script {
        DescriptorType::Bip44 => "m/44h/1h/0h",
        DescriptorType::Bip49 => "m/49h/1h/0h",
        DescriptorType::Bip84 => "m/84h/1h/0h",
        DescriptorType::Bip86 => "m/86h/1h/0h",
    }
}

fn testnet_text_of(xprv: &str) -> String {
    let mut key = Xpriv::from_str(xprv).unwrap();
    key.network = BtcKind::Test;
    key.to_string()
}

/// The public and the private descriptor of one keychain, built step by step
/// with the outside crates.
fn reference_descriptors(xprv: &str, account: &str, branch: u32, script: DescriptorType) -> (String, String) {
    let secp = Secp256k1::new();
    let key = Xpriv::from_str(xprv).unwrap();
    let secret = DescriptorSecretKey::XPrv(DescriptorXKey {
        origin: Some((key.fingerprint(&secp), BtcPath::from_str(account).unwrap())),
        xkey: key,
        derivation_path: BtcPath::from_str(&branch.to_string()).unwrap(),
        wildcard: BtcWildcard::Unhardened,
    });
    let (public, keys, _) = IntoDescriptorKey::<Segwitv0>::into_descriptor_key(secret)
        .unwrap()
        .extract(&secp)
        .unwrap();
    let descriptor: Descriptor<DescriptorPublicKey> = match script {
        DescriptorType::Bip84 => Descriptor::new_wpkh(public).unwrap(),
        DescriptorType::Bip86 => Descriptor::new_tr(public, None).unwrap(),
        DescriptorType::Bip49 => Descriptor::new_sh_wpkh(public).unwrap(),
        DescriptorType::Bip44 => Descriptor::new_pkh(public).unwrap(),
    };
    (descriptor.to_string(), descriptor.to_string_with_secret(&keys))
}

#[test]
fn bip84_descriptors_of_master_key() {
    let d = generate_descriptor_from_key_by_type(&Network::Bitcoin, MASTER_XPRV, DescriptorType::Bip84).unwrap();
    assert_eq!(
        d.external.public,
        format!("wpkh([3442193e/84'/1'/0']{}/0/*)#y4a32hty", MASTER_XPUB)
    );
    assert_eq!(
        d.internal.public,
        format!("wpkh([3442193e/84'/1'/0']{}/1/*)#4pcshzmu", MASTER_XPUB)
    );
    assert_eq!(
        d.external.private.unwrap(),
        format!("wpkh([3442193e/84'/1'/0']{}/0/*)#zevjf3s2", MASTER_XPRV)
    );
    assert!(d.internal.private.unwrap().starts_with(&format!("wpkh([3442193e/84'/1'/0']{}/1/*)#", MASTER_XPRV)));
    assert_eq!(d.fingerprint.to_hex(), "3442193e");
    assert_eq!(d.descriptor_type.name(), "bip84");
    assert_eq!(d.network.name(), "bitcoin");
}

#[test]
fn bip84_descriptor_has_the_expected_shape() {
    let d = generate_descriptor_from_key_by_type(&Network::Bitcoin, MASTER_XPRV, DescriptorType::Bip84).unwrap();
    for (text, branch) in [(&d.external.public, "/0/*)"), (&d.internal.public, "/1/*)")] {
        assert!(text.starts_with("wpkh(["));
        let fingerprint = &text[6..14];
        assert!(fingerprint.chars().all(|c| c.is_ascii_hexdigit() && !c.is_ascii_uppercase()));
        assert_eq!(&text[14..26], "/84'/1'/0']x");
        let (body, checksum) = text.split_once('#').unwrap();
        assert!(body.ends_with(branch));
        assert_eq!(checksum.len(), 8);
        assert!(body[25..].starts_with("xpub"));
    }
}

#[test]
fn every_policy_has_its_wrapper_and_its_account_path() {
    let cases = [
        (DescriptorType::Bip44, "pkh([3442193e/44'/1'/0']", "/0/*)#wjt8v69s"),
        (DescriptorType::Bip49, "sh(wpkh([3442193e/49'/1'/0']", "/0/*))#y6u0ml4j"),
        (DescriptorType::Bip84, "wpkh([3442193e/84'/1'/0']", "/0/*)#y4a32hty"),
        (DescriptorType::Bip86, "tr([3442193e/86'/1'/0']", "/0/*)#2nhzvpxg"),
    ];
    for (script, start, end) in cases {
        let d = generate_descriptor_from_key_by_type(&Network::Bitcoin, MASTER_XPRV, script).unwrap();
        assert_eq!(d.external.public, format!("{}{}{}", start, MASTER_XPUB, end));
        assert_eq!(d.descriptor_type, script);
    }
}

#[test]
fn descriptors_agree_with_the_outside_crates() {
    for xprv in [MASTER_XPRV.to_string(), testnet_text_of(MASTER_XPRV)] {
        let network = if xprv.starts_with("xprv") { Network::Bitcoin } else { Network::Testnet };
        for script in all_types() {
            let d = generate_descriptor_from_key_by_type(&network, &xprv, script).unwrap();
            let (public, private) = reference_descriptors(&xprv, account_text(script), 0, script);
            assert_eq!(d.external.public, public);
            assert_eq!(d.external.private, Some(private));
            let (public, private) = reference_descriptors(&xprv, account_text(script), 1, script);
            assert_eq!(d.internal.public, public);
            assert_eq!(d.internal.private, Some(private));
        }
    }
}

#[test]
fn path_text_and_policy_give_the_same_descriptors() {
    for script in all_types() {
        let by_type = generate_descriptor_from_key_by_type(&Network::Bitcoin, MASTER_XPRV, script).unwrap();
        let by_path =
            generate_bip_descriptor_from_key(&Network::Bitcoin, MASTER_XPRV, account_text(script), script).unwrap();
        assert_eq!(by_type.external.public, by_path.external.public);
        assert_eq!(by_type.external.private, by_path.external.private);
        assert_eq!(by_type.internal.public, by_path.internal.public);
        assert_eq!(by_type.internal.private, by_path.internal.private);
    }
}

#[test]
fn custom_account_path_is_the_origin() {
    let d = generate_bip_descriptor_from_key(&Network::Bitcoin, MASTER_XPRV, "m/84'/0'/7'", DescriptorType::Bip84)
        .unwrap();
    assert!(d.external.public.starts_with("wpkh([3442193e/84'/0'/7']xpub"));
    let (public, private) = reference_descriptors(MASTER_XPRV, "m/84'/0'/7'", 0, DescriptorType::Bip84);
    assert_eq!(d.external.public, public);
    assert_eq!(d.external.private, Some(private));
}

#[test]
fn origin_fingerprint_is_that_of_the_key() {
    let secp = Secp256k1::new();
    for xprv in [MASTER_XPRV.to_string(), testnet_text_of(MASTER_XPRV)] {
        let network = if xprv.starts_with("xprv") { Network::Bitcoin } else { Network::Regtest };
        let expected = Xpriv::from_str(&xprv).unwrap().fingerprint(&secp).to_string();
        for script in all_types() {
            let d = generate_descriptor_from_key_by_type(&network, &xprv, script).unwrap();
            assert_eq!(d.fingerprint.to_hex(), expected);
            let origin = format!("[{}/", expected);
            for text in [&d.external.public, &d.internal.public] {
                assert_eq!(&text[text.find('[').unwrap()..text.find('[').unwrap() + 10], origin);
            }
            for text in [d.external.private.as_ref().unwrap(), d.internal.private.as_ref().unwrap()] {
                assert_eq!(&text[text.find('[').unwrap()..text.find('[').unwrap() + 10], origin);
            }
        }
    }
}

#[test]
fn public_key_gives_the_public_descriptors_of_the_private_key() {
    let secp = Secp256k1::new();
    let stripped = Xpub::from_priv(&secp, &Xpriv::from_str(MASTER_XPRV).unwrap()).to_string();
    assert_eq!(stripped, MASTER_XPUB);
    for script in all_types() {
        let from_private = generate_descriptor_from_key_by_type(&Network::Bitcoin, MASTER_XPRV, script).unwrap();
        let from_public = generate_descriptor_from_key_by_type(&Network::Bitcoin, &stripped, script).unwrap();
        assert_eq!(from_private.external.public, from_public.external.public);
        assert_eq!(from_private.internal.public, from_public.internal.public);
        assert_eq!(from_private.fingerprint, from_public.fingerprint);
        assert!(from_public.external.private.is_none());
        assert!(from_public.internal.private.is_none());
        assert!(from_private.external.private.is_some());
    }
}

#[test]
fn deriving_twice_gives_the_same_text() {
    for script in all_types() {
        let first = generate_descriptor_from_key_by_type(&Network::Bitcoin, MASTER_XPRV, script).unwrap();
        let second = generate_descriptor_from_key_by_type(&Network::Bitcoin, MASTER_XPRV, script).unwrap();
        assert_eq!(first.external.public, second.external.public);
        assert_eq!(first.external.private, second.external.private);
        assert_eq!(first.internal.public, second.internal.public);
        assert_eq!(first.internal.private, second.internal.private);
        assert_eq!(first.fingerprint, second.fingerprint);
    }
}

#[test]
fn truncated_key_is_an_invalid_encoding() {
    for script in all_types() {
        let r = generate_descriptor_from_key_by_type(&Network::Bitcoin, &MASTER_XPRV[..60], script);
        assert_eq!(r.err(), Some(Error::InvalidKeyEncoding));
    }
}

#[test]
fn malformed_keys_are_invalid_encodings() {
    let mut wrong_checksum = MASTER_XPRV.to_string();
    wrong_checksum.pop();
    wrong_checksum.push('j');
    for key in ["", "xprv", "not a key", "0OIl", wrong_checksum.as_str(), "xprv9s21ZrQH143K3QTDL4LXw2F7HEK3wJUD2nW2nRk4stbPy6cq3jPPqjiChkVvvNKmPGJxWUtg6LnF5kejMRNNU3TGtRBeJgk33yuGBxrMPHié"] {
        let r = generate_descriptor_from_key_by_type(&Network::Bitcoin, key, DescriptorType::Bip84);
        assert_eq!(r.err(), Some(Error::InvalidKeyEncoding));
        let r = generate_bip_descriptor_from_key(&Network::Bitcoin, key, "m/84h/1h/0h", DescriptorType::Bip84);
        assert_eq!(r.err(), Some(Error::InvalidKeyEncoding));
    }
}

#[test]
fn key_of_another_network_is_refused() {
    let testnet = testnet_text_of(MASTER_XPRV);
    for network in [Network::Testnet, Network::Testnet4, Network::Signet, Network::Regtest] {
        let r = generate_descriptor_from_key_by_type(&network, MASTER_XPRV, DescriptorType::Bip84);
        assert_eq!(r.err(), Some(Error::InvalidKeyEncoding));
        let r = generate_multipath_descriptor(&network, 84, MASTER_XPUB);
        assert_eq!(r.err(), Some(Error::InvalidKeyEncoding));
        let d = generate_descriptor_from_key_by_type(&network, &testnet, DescriptorType::Bip84).unwrap();
        assert!(d.external.public.starts_with("wpkh([3442193e/84'/1'/0']tpub"));
        assert_eq!(d.network, network);
    }
    let r = generate_descriptor_from_key_by_type(&Network::Bitcoin, &testnet, DescriptorType::Bip84);
    assert_eq!(r.err(), Some(Error::InvalidKeyEncoding));
}

#[test]
fn malformed_path_is_refused_before_the_key_is_read() {
    for path in ["m//1", "m/84h/", "m/x", "m/2147483648", "84h/1h/0h/", "m/84h/1h/0h/*"] {
        let r = generate_bip_descriptor_from_key(&Network::Bitcoin, MASTER_XPRV, path, DescriptorType::Bip84);
        assert_eq!(r.err(), Some(Error::InvalidDerivationPath));
        let r = generate_bip_descriptor_from_key(&Network::Bitcoin, "junk", path, DescriptorType::Bip84);
        assert_eq!(r.err(), Some(Error::InvalidDerivationPath));
    }
}

#[test]
fn multipath_for_bip49_is_unsupported() {
    let r = generate_multipath_descriptor(&Network::Bitcoin, 49, MASTER_XPUB);
    assert_eq!(r.err(), Some(Error::UnsupportedMultipath));
}

#[test]
fn multipath_serves_script_type_84_only() {
    for script_type in [0u8, 44, 49, 83, 85, 86, 255] {
        for key in [MASTER_XPUB, MASTER_XPRV, "", "junk"] {
            let r = generate_multipath_descriptor(&Network::Bitcoin, script_type, key);
            assert_eq!(r.err(), Some(Error::UnsupportedMultipath));
        }
    }
}

#[test]
fn multipath_descriptors_of_a_public_key() {
    let d = generate_multipath_descriptor(&Network::Bitcoin, 84, MASTER_XPUB).unwrap();
    assert_eq!(d.external, format!("wpkh([3442193e/84'/1'/0']{}/0/*)#y4a32hty", MASTER_XPUB));
    assert_eq!(d.internal, format!("wpkh([3442193e/84'/1'/0']{}/1/*)#4pcshzmu", MASTER_XPUB));
    assert_eq!(d.fingerprint.to_hex(), "3442193e");
    assert_eq!(d.network.name(), "bitcoin");
    assert_eq!(d.kind_name(), "bip84-multipath");
}

#[test]
fn multipath_takes_public_keys_only() {
    let r = generate_multipath_descriptor(&Network::Bitcoin, 84, MASTER_XPRV);
    assert_eq!(r.err(), Some(Error::InvalidKeyEncoding));
    let r = generate_multipath_descriptor(&Network::Bitcoin, 84, &MASTER_XPUB[..50]);
    assert_eq!(r.err(), Some(Error::InvalidKeyEncoding));
}

#[test]
fn descriptor_key_keeps_origin_apart_from_branch() {
    let master = ExtendedKey::parse_private(MASTER_XPRV).unwrap();
    let account = DerivationPath::from_str("m/84h/1h/0h").unwrap();
    let key = DescriptorKey::from_private(&master, &account, 1).unwrap();
    assert_eq!(key.fingerprint().to_hex(), "3442193e");
    assert_eq!(key.origin_path().to_raw(), vec![0x8000_0054, 0x8000_0001, 0x8000_0000]);
    assert_eq!(key.branch().to_raw(), vec![1]);
    assert_eq!(key.wildcard(), Wildcard::Unhardened);
    assert_eq!(key.key(), master);
    let copy = key.clone();
    assert_eq!(copy.branch().to_raw(), vec![1]);
    assert_eq!(copy.origin_path().to_raw(), key.origin_path().to_raw());
}

#[test]
fn descriptor_key_factories_check_the_kind_of_key() {
    let private = ExtendedKey::parse_private(MASTER_XPRV).unwrap();
    let public = ExtendedKey::parse_public(MASTER_XPUB).unwrap();
    let account = DerivationPath::from_str("m/84h/1h/0h").unwrap();
    assert!(DescriptorKey::from_private(&private, &account, 0).is_ok());
    assert!(DescriptorKey::from_public(&public, &account, 0).is_ok());
    assert_eq!(DescriptorKey::from_private(&public, &account, 0).err(), Some(Error::InvalidKeyEncoding));
    assert_eq!(DescriptorKey::from_public(&private, &account, 0).err(), Some(Error::InvalidKeyEncoding));
    assert_eq!(
        DescriptorKey::from_master(&private, &account, 0x8000_0000).err(),
        Some(Error::InvalidDerivationPath)
    );
    assert!(DescriptorKey::from_master(&private, &account, 0x7fff_ffff).is_ok());
}

#[test]
fn descriptor_key_refuses_a_hardened_branch() {
    let master = ExtendedKey::parse_private(MASTER_XPRV).unwrap();
    let fingerprint = master.fingerprint().unwrap();
    let account = DerivationPath::from_str("m/84h/1h/0h").unwrap();
    let r = DescriptorKey::new(fingerprint, account.clone(), master, DerivationPath::from_str("0/1h").unwrap(), Wildcard::Unhardened);
    assert_eq!(r.err(), Some(Error::InvalidDerivationPath));
    let key = DescriptorKey::new(fingerprint, account, master, DerivationPath::from_str("0/5").unwrap(), Wildcard::Absent).unwrap();
    let d = key.build(DescriptorType::Bip84).unwrap();
    assert!(d.public.starts_with(&format!("wpkh([3442193e/84'/1'/0']{}/0/5)#", MASTER_XPUB)));
    assert!(d.private.unwrap().starts_with(&format!("wpkh([3442193e/84'/1'/0']{}/0/5)#", MASTER_XPRV)));
}

#[test]
fn hardened_wildcard_is_written_with_h() {
    let master = ExtendedKey::parse_private(MASTER_XPRV).unwrap();
    let fingerprint = master.fingerprint().unwrap();
    let account = DerivationPath::from_str("m/86h/1h/0h").unwrap();
    let key = DescriptorKey::new(fingerprint, account, master, DerivationPath::from_str("0").unwrap(), Wildcard::Hardened).unwrap();
    let d = key.build(DescriptorType::Bip86).unwrap();
    assert!(d.public.starts_with(&format!("tr([3442193e/86'/1'/0']{}/0/*h)#", MASTER_XPUB)));
}

#[test]
fn build_gives_no_private_text_for_a_public_key() {
    let public = ExtendedKey::parse_public(MASTER_XPUB).unwrap();
    let account = DescriptorType::Bip44.account_path();
    let key = DescriptorKey::from_public(&public, &account, 0).unwrap();
    let d = key.build(DescriptorType::Bip44).unwrap();
    assert_eq!(d.public, format!("pkh([3442193e/44'/1'/0']{}/0/*)#wjt8v69s", MASTER_XPUB));
    assert!(d.private.is_none());
    let copy = d.clone();
    assert_eq!(copy.public, d.public);
    assert_eq!(copy.private, d.private);
}

#[test]
fn descriptor_of_a_policy_wraps_and_sums_any_key_text() {
    assert_eq!(
        DescriptorType::Bip84.descriptor("tprv8ZgxMBicQKsPdpkqS7Eair4YxjcuuvDPNYmKX3sCniCf16tHEVrjjiSXEkFRnUH77yXc6ZcwHHcLNfjdi5qUvw3VDfgYiH5mNsj5izuiu2N/1/2/*").unwrap(),
        "wpkh(tprv8ZgxMBicQKsPdpkqS7Eair4YxjcuuvDPNYmKX3sCniCf16tHEVrjjiSXEkFRnUH77yXc6ZcwHHcLNfjdi5qUvw3VDfgYiH5mNsj5izuiu2N/1/2/*)#tqz0nc62"
    );
    assert_eq!(
        DescriptorType::Bip44.descriptor("tpubD6NzVbkrYhZ4XHndKkuB8FifXm8r5FQHwrN6oZuWCz13qb93rtgKvD4PQsqC4HP4yhV3tA2fqr2RbY5mNXfM7RxXUoeABoDtsFUq2zJq6YK/44'/1'/0'/0/*").unwrap(),
        "pkh(tpubD6NzVbkrYhZ4XHndKkuB8FifXm8r5FQHwrN6oZuWCz13qb93rtgKvD4PQsqC4HP4yhV3tA2fqr2RbY5mNXfM7RxXUoeABoDtsFUq2zJq6YK/44'/1'/0'/0/*)#lasegmfs"
    );
    assert_eq!(DescriptorType::Bip86.descriptor("é").err(), Some(Error::KeyDerivationFailed));
}

#[test]
fn policies_have_their_names_and_purposes() {
    let expected = [("bip44", 44u32), ("bip49", 49), ("bip84", 84), ("bip86", 86)];
    for (script, (name, purpose)) in all_types().into_iter().zip(expected) {
        assert_eq!(script.name(), name);
        assert_eq!(DescriptorType::from_name(name), Some(script));
        assert_eq!(script.purpose_number(), purpose);
        assert_eq!(
            script.account_path().to_raw(),
            vec![0x8000_0000 + purpose, 0x8000_0001, 0x8000_0000]
        );
        assert_eq!(
            DerivationPath::from_str(account_text(script)).unwrap().to_raw(),
            script.account_path().to_raw()
        );
    }
}

#[test]
fn derive_descriptors_takes_parsed_values() {
    let master = ExtendedKey::parse(MASTER_XPRV).unwrap();
    let account = DerivationPath::from_str("84'/1'/0'").unwrap();
    let d = derive_descriptors(Network::Bitcoin, &master, &account, DescriptorType::Bip84).unwrap();
    assert_eq!(d.external.public, format!("wpkh([3442193e/84'/1'/0']{}/0/*)#y4a32hty", MASTER_XPUB));
    let r = derive_descriptors(Network::Signet, &master, &account, DescriptorType::Bip84);
    assert_eq!(r.err(), Some(Error::InvalidKeyEncoding));
}

#[test]
fn hardened_wildcard_needs_a_private_key() {
    let public = ExtendedKey::parse_public(MASTER_XPUB).unwrap();
    let fingerprint = public.fingerprint().unwrap();
    let account = DerivationPath::from_str("m/84h/1h/0h").unwrap();
    let branch = DerivationPath::branch(0).unwrap();
    let r = DescriptorKey::new(fingerprint, account.clone(), public, branch.clone(), Wildcard::Hardened);
    assert_eq!(r.err(), Some(Error::InvalidDerivationPath));
    for wildcard in [Wildcard::Absent, Wildcard::Unhardened] {
        let key = DescriptorKey::new(fingerprint, account.clone(), public, branch.clone(), wildcard).unwrap();
        assert_eq!(key.wildcard(), wildcard);
    }
}

#[test]
fn keychains_differ_in_branch_only() {
    let master = ExtendedKey::parse(MASTER_XPRV).unwrap();
    let account = DescriptorType::Bip49.account_path();
    let receive = DescriptorKey::from_master(&master, &account, 0).unwrap();
    let change = DescriptorKey::from_master(&master, &account, 1).unwrap();
    assert_eq!(receive.fingerprint(), change.fingerprint());
    assert_eq!(receive.origin_path().to_raw(), change.origin_path().to_raw());
    assert_eq!(receive.key(), change.key());
    assert_eq!(receive.wildcard(), change.wildcard());
    assert_eq!(receive.branch().to_raw(), vec![0]);
    assert_eq!(change.branch().to_raw(), vec![1]);
}

#[test]
fn entry_points_are_reachable_from_utils() {
    let d = bdk_cli::utils::generate_new_bip84_descriptor_with_mnemonic(Network::Signet).unwrap();
    assert!(d.external_descriptor.public.starts_with("wpkh(["));
    assert_eq!(bdk_cli::utils::DescriptorType::Bip84, DescriptorType::Bip84);
}

#[test]
fn unknown_policy_names() {
    for name in ["", "bip", "bip45", "BIP84", "bip84 ", "84", "bip840", "bip32"] {
        assert_eq!(DescriptorType::from_name(name), None, "{:?}", name);
    }
}
