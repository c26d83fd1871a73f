//! What holds of the descriptors of every key, proved from the definitions
//! that the entry points are specified with.

use vstd::prelude::*;
use crate::descriptor::account_path;
use crate::descriptor::closing;
use crate::descriptor::descriptor_checksum;
use crate::descriptor::descriptor_text;
use crate::descriptor::key_expression;
use crate::descriptor::master_key_view;
use crate::descriptor::opening;
use crate::descriptor::wildcard_suffix;
use crate::descriptor::wrapped;
use crate::descriptor::DescriptorKeyView;
use crate::descriptor::DescriptorType;
use crate::descriptor::Wildcard;
use crate::error::Error;
use crate::keys::fingerprint_of;
use crate::keys::is_private_payload;
use crate::keys::key_payload;
use crate::keys::lemma_neutered_kind;
use crate::keys::neutered;
use crate::keys::public_of;
use crate::keys::xprv_text;
use crate::keys::xpub_text;
use crate::keys::ExtendedKey;
use crate::keys::Fingerprint;
use crate::network::Network;
use crate::path::path_suffix;
use crate::path::segment_text;
use crate::text::digit_char;
use crate::text::hex_text;
use crate::text::opt_view;
use crate::utils::derived;
use crate::utils::derived_from_text;
use crate::utils::is_outcome;
use crate::utils::multipath;
use crate::utils::DescriptorSet;
use crate::utils::DescriptorSetView;
use crate::utils::MultipathView;

verus! {

/// The start of every descriptor of a policy whose key has the origin
/// fingerprint `fingerprint`: the opening of the policy, `[`, and the
/// fingerprint in hexadecimal.
pub open spec fn origin_prefix(script: DescriptorType, fingerprint: Seq<u8>) -> Seq<char> {
    opening(script) + seq!['['] + hex_text(fingerprint)
}

/// A descriptor starts with the opening of its policy and the origin
/// fingerprint of its key.
pub proof fn lemma_descriptor_starts_with_origin(
    script: DescriptorType,
    fingerprint: Seq<u8>,
    origin: Seq<(u32, bool)>,
    key: Seq<char>,
    branch: Seq<(u32, bool)>,
    wildcard: Wildcard,
)
    requires
        descriptor_text(script, key_expression(fingerprint, origin, key, branch, wildcard))
            is Some,
    ensures
        origin_prefix(script, fingerprint).is_prefix_of(
            descriptor_text(
                script,
                key_expression(fingerprint, origin, key, branch, wildcard),
            )->Some_0,
        ),
{
    let expression = key_expression(fingerprint, origin, key, branch, wildcard);
    let text = descriptor_text(script, expression)->Some_0;
    let sum = descriptor_checksum(wrapped(script, expression))->Some_0;
    let prefix = origin_prefix(script, fingerprint);
    let rest = path_suffix(origin) + seq![']'] + key + path_suffix(branch) + wildcard_suffix(
        wildcard,
    ) + closing(script) + seq!['#'] + sum;
    assert(text =~= prefix + rest);
    assert(prefix =~= (prefix + rest).subrange(0, prefix.len() as int));
}

/// The descriptors of a key name the fingerprint of that key as their
/// origin: it is the fingerprint that is reported, and every descriptor text,
/// public or private, external or internal, starts with the opening of the
/// policy, `[`, and that fingerprint in hexadecimal.
pub proof fn lemma_origin_is_master_fingerprint(
    network: Network,
    key: Seq<u8>,
    account: Seq<(u32, bool)>,
    script: DescriptorType,
)
    requires
        derived(network, key, account, script) is Ok,
    ensures
        fingerprint_of(key) == Some(derived(network, key, account, script)->Ok_0.fingerprint),
        ({
            let d = derived(network, key, account, script)->Ok_0;
            let prefix = origin_prefix(script, d.fingerprint);
            &&& prefix.is_prefix_of(d.external.public)
            &&& prefix.is_prefix_of(d.internal.public)
            &&& d.external.private matches Some(t) ==> prefix.is_prefix_of(t)
            &&& d.internal.private matches Some(t) ==> prefix.is_prefix_of(t)
        }),
{
    let receive = master_key_view(key, account, 0)->Ok_0;
    let change = master_key_view(key, account, 1)->Ok_0;
    lemma_built_starts_with_origin(receive, script);
    lemma_built_starts_with_origin(change, script);
}

/// The same for a key given as text: the descriptors name the fingerprint
/// of the key that the text writes.
pub proof fn lemma_origin_of_text(
    network: Network,
    key: Seq<char>,
    account: Seq<(u32, bool)>,
    script: DescriptorType,
)
    requires
        derived_from_text(network, key, account, script) is Ok,
    ensures
        key_payload(key) matches Some(k) && fingerprint_of(k) == Some(
            derived_from_text(network, key, account, script)->Ok_0.fingerprint,
        ),
        ({
            let d = derived_from_text(network, key, account, script)->Ok_0;
            let prefix = origin_prefix(script, d.fingerprint);
            &&& prefix.is_prefix_of(d.external.public)
            &&& prefix.is_prefix_of(d.internal.public)
            &&& d.external.private matches Some(t) ==> prefix.is_prefix_of(t)
            &&& d.internal.private matches Some(t) ==> prefix.is_prefix_of(t)
        }),
{
    lemma_origin_is_master_fingerprint(network, key_payload(key)->Some_0, account, script);
}

/// Keys of the same bytes have the same fingerprint.
pub proof fn lemma_fingerprint_is_of_the_bytes(
    a: ExtendedKey,
    b: ExtendedKey,
    of_a: Fingerprint,
    of_b: Fingerprint,
)
    requires
        a@ == b@,
        fingerprint_of(a@) == Some(of_a@),
        fingerprint_of(b@) == Some(of_b@),
    ensures
        of_a@ == of_b@,
{
}

/// Every descriptor built from a descriptor key starts with the opening of
/// the policy and the key's origin fingerprint.
pub proof fn lemma_built_starts_with_origin(key: DescriptorKeyView, script: DescriptorType)
    requires
        key.built(script) is Ok,
    ensures
        origin_prefix(script, key.fingerprint).is_prefix_of(key.built(script)->Ok_0.public),
        key.built(script)->Ok_0.private matches Some(t) ==> origin_prefix(
            script,
            key.fingerprint,
        ).is_prefix_of(t),
{
    let public_key = xpub_text(public_of(key.key)->Some_0)->Some_0;
    lemma_descriptor_starts_with_origin(
        script,
        key.fingerprint,
        key.origin,
        public_key,
        key.branch,
        key.wildcard,
    );
    if is_private_payload(key.key) {
        let secret_key = xprv_text(key.key)->Some_0;
        lemma_descriptor_starts_with_origin(
            script,
            key.fingerprint,
            key.origin,
            secret_key,
            key.branch,
            key.wildcard,
        );
    }
}

/// Public and private parity: the public descriptors derived from a private
/// key are those derived from the public key that belongs to it, and so is
/// the fingerprint. The public key gives no private descriptor.
pub proof fn lemma_public_private_parity(
    network: Network,
    key: Seq<u8>,
    account: Seq<(u32, bool)>,
    script: DescriptorType,
)
    requires
        is_private_payload(key),
        derived(network, key, account, script) is Ok,
    ensures
        neutered(key) is Some,
        derived(network, neutered(key)->Some_0, account, script) is Ok,
        ({
            let from_private = derived(network, key, account, script)->Ok_0;
            let from_public = derived(network, neutered(key)->Some_0, account, script)->Ok_0;
            &&& from_public.external.public == from_private.external.public
            &&& from_public.internal.public == from_private.internal.public
            &&& from_public.fingerprint == from_private.fingerprint
            &&& from_public.external.private is None
            &&& from_public.internal.private is None
            &&& from_private.external.private is Some
            &&& from_private.internal.private is Some
        }),
{
    lemma_neutered_kind(key);
    let public = neutered(key)->Some_0;
    assert(public_of(public) == Some(public));
    assert(fingerprint_of(public) == fingerprint_of(key));
    let receive = master_key_view(key, account, 0)->Ok_0;
    let change = master_key_view(key, account, 1)->Ok_0;
    let public_receive = master_key_view(public, account, 0)->Ok_0;
    let public_change = master_key_view(public, account, 1)->Ok_0;
    assert(public_receive.public_expression() == receive.public_expression());
    assert(public_change.public_expression() == change.public_expression());
}

/// Parity for keys given as text: where one text writes a private key and
/// another the public key that belongs to it, both give the same public
/// descriptors and the same fingerprint.
pub proof fn lemma_parity_of_texts(
    network: Network,
    private_text: Seq<char>,
    public_text: Seq<char>,
    account: Seq<(u32, bool)>,
    script: DescriptorType,
)
    requires
        key_payload(private_text) matches Some(k) && is_private_payload(k) && key_payload(
            public_text,
        ) == neutered(k),
        derived_from_text(network, private_text, account, script) is Ok,
    ensures
        derived_from_text(network, public_text, account, script) is Ok,
        ({
            let from_private = derived_from_text(network, private_text, account, script)->Ok_0;
            let from_public = derived_from_text(network, public_text, account, script)->Ok_0;
            &&& from_public.external.public == from_private.external.public
            &&& from_public.internal.public == from_private.internal.public
            &&& from_public.fingerprint == from_private.fingerprint
        }),
{
    lemma_public_private_parity(network, key_payload(private_text)->Some_0, account, script);
}

/// Deriving again gives the same: whatever two runs on the same network, key
/// text and policy return, they return the same descriptors, character for
/// character, or the same error.
pub proof fn lemma_derivation_is_repeatable(
    network: Network,
    key: Seq<char>,
    script: DescriptorType,
    first: Result<DescriptorSet, Error>,
    second: Result<DescriptorSet, Error>,
)
    requires
        is_outcome(first, derived_from_text(network, key, account_path(script), script)),
        is_outcome(second, derived_from_text(network, key, account_path(script), script)),
    ensures
        match (first, second) {
            (Ok(a), Ok(b)) => a.external.public@ == b.external.public@ && opt_view(
                a.external.private,
            ) == opt_view(b.external.private) && a.internal.public@ == b.internal.public@
                && opt_view(a.internal.private) == opt_view(b.internal.private) && a@ == b@,
            (Err(a), Err(b)) => a == b,
            _ => false,
        },
{
}

/// A multipath request for any script type but 84 is refused, whatever the
/// key text holds.
pub proof fn lemma_multipath_serves_bip84_only(network: Network, script_type: u8, key: Seq<char>)
    requires
        script_type != 84,
    ensures
        multipath(network, script_type, key) == Err::<MultipathView, Error>(
            Error::UnsupportedMultipath,
        ),
{
}

/// A text that writes no extended key is refused as such, whatever the
/// network, the account and the policy are.
pub proof fn lemma_malformed_key_is_refused(
    network: Network,
    key: Seq<char>,
    account: Seq<(u32, bool)>,
    script: DescriptorType,
)
    requires
        key_payload(key) is None,
    ensures
        derived_from_text(network, key, account, script) == Err::<DescriptorSetView, Error>(
            Error::InvalidKeyEncoding,
        ),
{
}

/// The two keychains of an account differ in their branch only: both have
/// the same key, the same origin, which is the fingerprint of the key and
/// the account path, and an unhardened wildcard.
pub proof fn lemma_keychains_differ_in_branch_only(key: Seq<u8>, account: Seq<(u32, bool)>)
    requires
        master_key_view(key, account, 0) is Ok,
    ensures
        master_key_view(key, account, 1) is Ok,
        ({
            let receive = master_key_view(key, account, 0)->Ok_0;
            let change = master_key_view(key, account, 1)->Ok_0;
            &&& receive.branch == seq![(0u32, false)]
            &&& change.branch == seq![(1u32, false)]
            &&& receive.origin == account
            &&& Some(receive.fingerprint) == fingerprint_of(key)
            &&& receive.wildcard == Wildcard::Unhardened
            &&& change == (DescriptorKeyView { branch: change.branch, ..receive })
        }),
{
}

/// The text of a keychain's descriptor before its checksum: the policy
/// around the origin in square brackets, the text of the key, the branch
/// and an unhardened wildcard.
pub open spec fn keychain_body(
    script: DescriptorType,
    fingerprint: Seq<u8>,
    account: Seq<(u32, bool)>,
    key: Seq<char>,
    branch: char,
) -> Seq<char> {
    opening(script) + seq!['['] + hex_text(fingerprint) + path_suffix(account) + seq![']'] + key
        + seq!['/', branch, '/', '*'] + closing(script)
}

/// Whether `text` is `body`, `#` and the checksum of `body`.
pub open spec fn is_summed(text: Seq<char>, body: Seq<char>) -> bool {
    descriptor_checksum(body) matches Some(sum) && text == body + seq!['#'] + sum
}

/// The shape of the descriptors of a key: each is the policy around
/// `[fingerprint/account]key/branch/*`, followed by `#` and a checksum. The
/// branch is `0` for the receiving and `1` for the change keychain; the key
/// is the text of the public key in a public descriptor, that of the
/// private key in a private one.
pub proof fn lemma_descriptor_shape(
    network: Network,
    key: Seq<u8>,
    account: Seq<(u32, bool)>,
    script: DescriptorType,
)
    requires
        derived(network, key, account, script) is Ok,
    ensures
        public_of(key) matches Some(q) && xpub_text(q) is Some,
        ({
            let d = derived(network, key, account, script)->Ok_0;
            let public = xpub_text(public_of(key)->Some_0)->Some_0;
            &&& is_summed(
                d.external.public,
                keychain_body(script, d.fingerprint, account, public, '0'),
            )
            &&& is_summed(
                d.internal.public,
                keychain_body(script, d.fingerprint, account, public, '1'),
            )
            &&& is_private_payload(key) ==> ({
                &&& xprv_text(key) is Some
                &&& d.external.private is Some
                &&& d.internal.private is Some
                &&& is_summed(
                    d.external.private->Some_0,
                    keychain_body(script, d.fingerprint, account, xprv_text(key)->Some_0, '0'),
                )
                &&& is_summed(
                    d.internal.private->Some_0,
                    keychain_body(script, d.fingerprint, account, xprv_text(key)->Some_0, '1'),
                )
            })
        }),
{
    let receive = master_key_view(key, account, 0)->Ok_0;
    let change = master_key_view(key, account, 1)->Ok_0;
    lemma_built_shape(receive, script, 0, '0');
    lemma_built_shape(change, script, 1, '1');
}

/// The shape of the descriptors built from a descriptor key whose branch is
/// one normal step below ten and whose wildcard is unhardened.
pub proof fn lemma_built_shape(
    key: DescriptorKeyView,
    script: DescriptorType,
    index: u32,
    digit: char,
)
    requires
        key.built(script) is Ok,
        key.branch == seq![(index, false)],
        key.wildcard == Wildcard::Unhardened,
        index < 10,
        digit == digit_char(index as int),
    ensures
        public_of(key.key) matches Some(q) && xpub_text(q) is Some,
        is_summed(
            key.built(script)->Ok_0.public,
            keychain_body(
                script,
                key.fingerprint,
                key.origin,
                xpub_text(public_of(key.key)->Some_0)->Some_0,
                digit,
            ),
        ),
        is_private_payload(key.key) ==> ({
            &&& xprv_text(key.key) is Some
            &&& key.built(script)->Ok_0.private is Some
            &&& is_summed(
                key.built(script)->Ok_0.private->Some_0,
                keychain_body(
                    script,
                    key.fingerprint,
                    key.origin,
                    xprv_text(key.key)->Some_0,
                    digit,
                ),
            )
        }),
{
    let public = xpub_text(public_of(key.key)->Some_0)->Some_0;
    lemma_wrapped_expression(script, key.fingerprint, key.origin, public, index, digit);
    if is_private_payload(key.key) {
        let private = xprv_text(key.key)->Some_0;
        lemma_wrapped_expression(script, key.fingerprint, key.origin, private, index, digit);
    }
}

/// A wrapped key expression with a branch of one normal step below ten and
/// an unhardened wildcard, written out.
proof fn lemma_wrapped_expression(
    script: DescriptorType,
    fingerprint: Seq<u8>,
    origin: Seq<(u32, bool)>,
    key: Seq<char>,
    index: u32,
    digit: char,
)
    requires
        index < 10,
        digit == digit_char(index as int),
    ensures
        wrapped(
            script,
            key_expression(fingerprint, origin, key, seq![(index, false)], Wildcard::Unhardened),
        ) == keychain_body(script, fingerprint, origin, key, digit),
{
    lemma_branch_text(index, digit);
    let tail = path_suffix(seq![(index, false)]) + wildcard_suffix(Wildcard::Unhardened);
    let head = seq!['['] + hex_text(fingerprint) + path_suffix(origin) + seq![']'] + key;
    assert(key_expression(fingerprint, origin, key, seq![(index, false)], Wildcard::Unhardened)
        =~= head + tail);
    assert(wrapped(script, head + tail) =~= opening(script) + head + tail + closing(script));
    assert(keychain_body(script, fingerprint, origin, key, digit) =~= opening(script) + head
        + tail + closing(script));
}

/// A branch of one normal step below ten is written as `/` and its digit,
/// and an unhardened wildcard as `/*`.
proof fn lemma_branch_text(index: u32, digit: char)
    requires
        index < 10,
        digit == digit_char(index as int),
    ensures
        path_suffix(seq![(index, false)]) + wildcard_suffix(Wildcard::Unhardened) == seq![
            '/',
            digit,
            '/',
            '*',
        ],
{
    let p = seq![(index, false)];
    assert(p.drop_last() =~= Seq::<(u32, bool)>::empty());
    assert(path_suffix(p.drop_last()) =~= Seq::<char>::empty());
    assert(p.last() == (index, false));
    assert(segment_text(p.last()) =~= seq![digit]);
    assert(path_suffix(p) =~= seq!['/', digit]);
    assert(path_suffix(p) + wildcard_suffix(Wildcard::Unhardened) =~= seq!['/', digit, '/', '*']);
}

} // verus!
