use std::str::FromStr;

use bdk_wallet::bitcoin::bip32::Xpriv;
use bdk_wallet::bitcoin::{NetworkKind, PrivateKey};

use bdk_cli::error::Error;
use bdk_cli::policy::{pk, Alias, ScriptKind};
use bdk_cli::text::same_text;

#[test]
fn script_kinds_have_three_names() {
    assert_eq!(ScriptKind::from_name("sh"), Ok(ScriptKind::Sh));
    assert_eq!(ScriptKind::from_name("wsh"), Ok(ScriptKind::Wsh));
    assert_eq!(ScriptKind::from_name("sh-wsh"), Ok(ScriptKind::ShWsh));
}

#[test]
fn other_script_kinds_are_invalid() {
    for name in ["", "SH", "sh ", " sh", "shwsh", "sh_wsh", "wsh-sh", "tr", "pkh", "sh-wsh-", "s"] {
        assert_eq!(ScriptKind::from_name(name), Err(Error::InvalidScriptType), "{:?}", name);
    }
}

#[test]
fn existing_alias_is_its_key() {
    let alias = Alias::Existing { extra: "02e96fe52ef0e22d2f131dd425ce1893073a3c6ad20e8cac36726393dfb4856a4c".to_string() };
    assert_eq!(
        alias.into_key(),
        Ok("02e96fe52ef0e22d2f131dd425ce1893073a3c6ad20e8cac36726393dfb4856a4c".to_string())
    );
    assert_eq!(Alias::Existing { extra: String::new() }.into_key(), Ok(String::new()));
}

#[test]
fn fresh_private_key_is_a_test_network_wif() {
    let first = Alias::GenWif.into_key().unwrap();
    let key = PrivateKey::from_wif(&first).unwrap();
    assert_eq!(key.network, NetworkKind::Test);
    assert!(key.compressed);
    let second = Alias::GenWif.into_key().unwrap();
    assert_ne!(first, second);
}

#[test]
fn fresh_extended_key_is_followed_by_its_path() {
    let alias = Alias::GenExt { extra: "/0/*".to_string() };
    let first = alias.into_key().unwrap();
    assert!(first.starts_with("tprv"));
    assert!(first.ends_with("/0/*"));
    let key = Xpriv::from_str(&first[..first.len() - 4]).unwrap();
    assert_eq!(key.network, NetworkKind::Test);
    assert_eq!(key.depth, 0);
    let second = alias.into_key().unwrap();
    assert_ne!(first, second);
    let bare = Alias::GenExt { extra: String::new() }.into_key().unwrap();
    assert!(Xpriv::from_str(&bare).is_ok());
}

#[test]
fn alias_is_looked_up_by_name() {
    let aliases = vec![
        ("alice".to_string(), Alias::Existing { extra: "key of alice".to_string() }),
        ("bob".to_string(), Alias::Existing { extra: "key of bob".to_string() }),
        ("alice".to_string(), Alias::Existing { extra: "second key of alice".to_string() }),
        ("carol".to_string(), Alias::GenExt { extra: "/1/*".to_string() }),
        ("dave".to_string(), Alias::GenWif),
    ];
    assert_eq!(pk(&aliases, "alice"), Ok("key of alice".to_string()));
    assert_eq!(pk(&aliases, "bob"), Ok("key of bob".to_string()));
    assert!(pk(&aliases, "carol").unwrap().ends_with("/1/*"));
    assert!(PrivateKey::from_wif(&pk(&aliases, "dave").unwrap()).is_ok());
}

#[test]
fn name_without_alias_is_an_error() {
    let aliases = vec![("alice".to_string(), Alias::Existing { extra: "key".to_string() })];
    for name in ["", "bob", "Alice", "alice ", "alic", "alicee"] {
        assert_eq!(pk(&aliases, name), Err(Error::UnknownAlias), "{:?}", name);
    }
    assert_eq!(pk(&Vec::new(), "alice"), Err(Error::UnknownAlias));
    assert_eq!(Error::UnknownAlias.message(), "Couldn't map alias");
    assert_eq!(Error::InvalidScriptType.message(), "InvalidScriptType");
}

#[test]
fn texts_are_the_same_when_every_character_is() {
    assert!(same_text("", ""));
    assert!(same_text("sh-wsh", "sh-wsh"));
    assert!(same_text("ключ", "ключ"));
    assert!(!same_text("sh", "sh "));
    assert!(!same_text("sh", "sH"));
    assert!(!same_text("", "a"));
    assert!(!same_text("ab", "ba"));
}
