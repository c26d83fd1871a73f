//! The pieces of policy compilation that are decided here: which script
//! wraps a compiled policy, and which key stands for an alias.
//!
//! Compiling a policy and putting keys in the place of aliases are done by
//! the `miniscript` crate, which walks the policy and asks for each key.
//! Fresh keys are drawn by the `bdk_wallet` crate; what is believed of it is
//! stated on the private functions at the end of this file.

use vstd::prelude::*;
use vstd::string::StringExecFns;
use bdk_wallet::bitcoin::PrivateKey;
use bdk_wallet::bitcoin::bip32::Xpriv;
use bdk_wallet::keys::GeneratableDefaultOptions;
use bdk_wallet::keys::GeneratedKey;
use bdk_wallet::miniscript::Legacy;
use crate::error::Error;
use crate::network::NetworkKind;
use crate::text::same_text;

verus! {

/// The script that wraps a compiled policy.
#[derive(Clone, Copy, Debug, PartialEq, Eq, Structural)]
pub enum ScriptKind {
    /// Pay to script hash.
    Sh,
    /// Pay to witness script hash.
    Wsh,
    /// Pay to witness script hash, wrapped in pay to script hash.
    ShWsh,
}

/// The script kind that a name stands for.
pub open spec fn script_kind_of(name: Seq<char>) -> Result<ScriptKind, Error> {
    if name == "sh"@ {
        Ok(ScriptKind::Sh)
    } else if name == "wsh"@ {
        Ok(ScriptKind::Wsh)
    } else if name == "sh-wsh"@ {
        Ok(ScriptKind::ShWsh)
    } else {
        Err(Error::InvalidScriptType)
    }
}

impl ScriptKind {
    /// Reads `sh`, `wsh` or `sh-wsh`.
    pub fn from_name(name: &str) -> (r: Result<ScriptKind, Error>)
        ensures
            r == script_kind_of(name@),
    {
        if same_text(name, "sh") {
            Ok(ScriptKind::Sh)
        } else if same_text(name, "wsh") {
            Ok(ScriptKind::Wsh)
        } else if same_text(name, "sh-wsh") {
            Ok(ScriptKind::ShWsh)
        } else {
            Err(Error::InvalidScriptType)
        }
    }
}

/// What stands behind a name in a policy.
#[derive(Debug)]
pub enum Alias {
    /// A fresh private key, in wallet import format.
    GenWif,
    /// A fresh extended private key, followed by the given path.
    GenExt { extra: String },
    /// The given key.
    Existing { extra: String },
}

/// Index of the first alias called `name`, or the number of aliases when
/// none is called so.
pub open spec fn alias_index(aliases: Seq<(String, Alias)>, name: Seq<char>) -> int
    decreases aliases.len(),
{
    if aliases.len() == 0 || aliases[0].0@ == name {
        0
    } else {
        1 + alias_index(aliases.drop_first(), name)
    }
}

/// `alias_index` stays within the list, points at an alias called `name`
/// when it is inside, and no alias before it is called so.
pub proof fn lemma_alias_index(aliases: Seq<(String, Alias)>, name: Seq<char>)
    ensures
        0 <= alias_index(aliases, name) <= aliases.len(),
        alias_index(aliases, name) < aliases.len() ==> aliases[alias_index(aliases, name)].0@
            == name,
        forall|j: int| 0 <= j < alias_index(aliases, name) ==> (#[trigger] aliases[j]).0@ != name,
    decreases aliases.len(),
{
    if aliases.len() == 0 || aliases[0].0@ == name {
    } else {
        let rest = aliases.drop_first();
        lemma_alias_index(rest, name);
        assert forall|j: int| 0 <= j < alias_index(aliases, name) implies (#[trigger] aliases[j]).0@
            != name by {
            if j > 0 {
                assert(aliases[j] == rest[j - 1]);
            }
        }
    }
}

/// Whether `r` may be the key of `alias`: the given key for an existing
/// one, some text followed by the given path for a fresh extended key, any
/// text for a fresh private key. Drawing a fresh key may fail.
pub open spec fn is_key_of(r: Result<String, Error>, alias: Alias) -> bool {
    match alias {
        Alias::Existing { extra } => r matches Ok(key) && key@ == extra@,
        Alias::GenExt { extra } => match r {
            Ok(key) => exists|fresh: Seq<char>| key@ == fresh + extra@,
            Err(e) => e == Error::KeyDerivationFailed,
        },
        Alias::GenWif => r matches Err(e) ==> e == Error::KeyDerivationFailed,
    }
}

impl Alias {
    /// The key that stands for this alias. Fresh keys are for the test
    /// networks.
    pub fn into_key(&self) -> (r: Result<String, Error>)
        ensures
            is_key_of(r, *self),
    {
        match self {
            Alias::GenWif => match fresh_wif(NetworkKind::Test) {
                Some(key) => Ok(key),
                None => Err(Error::KeyDerivationFailed),
            },
            Alias::GenExt { extra } => match fresh_xprv(NetworkKind::Test) {
                Some(fresh) => {
                    let ghost text = fresh@;
                    let mut key = fresh;
                    key.append(extra.as_str());
                    assert(key@ == text + extra@);
                    Ok(key)
                },
                None => Err(Error::KeyDerivationFailed),
            },
            Alias::Existing { extra } => Ok(extra.clone()),
        }
    }
}

/// The key for the name `name` of a policy: that of the first alias called
/// so. A name without an alias is an error.
pub fn pk(aliases: &Vec<(String, Alias)>, name: &str) -> (r: Result<String, Error>)
    ensures
        alias_index(aliases@, name@) < aliases@.len() ==> is_key_of(
            r,
            aliases@[alias_index(aliases@, name@)].1,
        ),
        alias_index(aliases@, name@) >= aliases@.len() ==> r == Err::<String, Error>(
            Error::UnknownAlias,
        ),
{
    let n = aliases.len();
    let mut i: usize = 0;
    proof {
        lemma_alias_index(aliases@, name@);
    }
    while i < n
        invariant
            n == aliases@.len(),
            0 <= i <= n,
            i <= alias_index(aliases@, name@) <= n,
            alias_index(aliases@, name@) < n ==> aliases@[alias_index(aliases@, name@)].0@
                == name@,
        decreases n - i,
    {
        if same_text(aliases[i].0.as_str(), name) {
            proof {
                lemma_alias_index(aliases@, name@);
            }
            return aliases[i].1.into_key();
        }
        i = i + 1;
    }
    Err(Error::UnknownAlias)
}

/// `GeneratableDefaultOptions::generate_default` of the `bdk_wallet` crate
/// for a `PrivateKey`, whose network is then set and which is written by
/// `PrivateKey::to_wif`. The key is drawn at random, so nothing is said of
/// the text.
#[verifier::external_body]
fn fresh_wif(kind: NetworkKind) -> (r: Option<String>) {
    let generated: GeneratedKey<PrivateKey, Legacy> =
        GeneratableDefaultOptions::generate_default().ok()?;
    let mut key = generated.into_key();
    key.network = match kind {
        NetworkKind::Main => bdk_wallet::bitcoin::NetworkKind::Main,
        NetworkKind::Test => bdk_wallet::bitcoin::NetworkKind::Test,
    };
    Some(key.to_wif())
}

/// `GeneratableDefaultOptions::generate_default` of the `bdk_wallet` crate
/// for an `Xpriv`, whose network is then set and which is written by its
/// `Display`. The key is drawn at random, so nothing is said of the text.
#[verifier::external_body]
fn fresh_xprv(kind: NetworkKind) -> (r: Option<String>) {
    let generated: GeneratedKey<Xpriv, Legacy> =
        GeneratableDefaultOptions::generate_default().ok()?;
    let mut key = generated.into_key();
    key.network = match kind {
        NetworkKind::Main => bdk_wallet::bitcoin::NetworkKind::Main,
        NetworkKind::Test => bdk_wallet::bitcoin::NetworkKind::Test,
    };
    Some(key.to_string())
}

} // verus!
