//! How a wallet is loaded or created from its options.
//!
//! Loading and creating touch the wallet's store, so the caller does them;
//! which descriptors to load with, and what to create where nothing was
//! stored, is decided here.

use vstd::prelude::*;
use crate::error::Error;
use crate::options::WalletOpts;
use crate::text::opt_view;

verus! {

/// What to hand to the loader of a stored wallet.
#[derive(Debug)]
pub struct LoadPlan {
    /// The descriptor to check the stored receiving keychain against.
    pub external: Option<String>,
    /// The descriptor to check the stored change keychain against.
    pub internal: Option<String>,
    /// Whether to take the private keys out of the descriptors.
    pub extract_keys: bool,
}

/// The wallet to create.
#[derive(Debug)]
pub enum CreatePlan {
    /// A wallet with a receiving and a change keychain.
    Pair { external: String, internal: String },
    /// A wallet with a single keychain.
    Single { external: String },
}

/// What to do once the store has been asked for a wallet.
#[derive(Debug)]
pub enum WalletSource {
    /// Use the wallet that was stored.
    Stored,
    /// Create this wallet.
    Create(CreatePlan),
}

/// What `new_wallet` decides for the two descriptors that the options may
/// hold: both give a pair, the external one alone a single keychain, and
/// without an external descriptor there is no wallet.
pub open spec fn is_plan_of(
    r: Result<CreatePlan, Error>,
    external: Option<Seq<char>>,
    internal: Option<Seq<char>>,
) -> bool {
    match (external, internal) {
        (Some(e), Some(i)) => r matches Ok(CreatePlan::Pair { external, internal }) && external@
            == e && internal@ == i,
        (Some(e), None) => r matches Ok(CreatePlan::Single { external }) && external@ == e,
        _ => r == Err::<CreatePlan, Error>(Error::MissingExternalDescriptor),
    }
}

/// What to load a stored wallet with: each descriptor that the options
/// hold, and the private keys out of them where there is any descriptor.
pub fn load_plan(wallet_opts: &WalletOpts) -> (plan: LoadPlan)
    ensures
        opt_view(plan.external) == opt_view(wallet_opts.ext_descriptor),
        opt_view(plan.internal) == opt_view(wallet_opts.int_descriptor),
        plan.extract_keys == (wallet_opts.ext_descriptor is Some || wallet_opts.int_descriptor
            is Some),
{
    let external = match &wallet_opts.ext_descriptor {
        Some(d) => Some(d.clone()),
        None => None,
    };
    let internal = match &wallet_opts.int_descriptor {
        Some(d) => Some(d.clone()),
        None => None,
    };
    let extract_keys = external.is_some() || internal.is_some();
    LoadPlan { external, internal, extract_keys }
}

/// The wallet to create from the options, where none is stored.
pub fn new_wallet(wallet_opts: &WalletOpts) -> (r: Result<CreatePlan, Error>)
    ensures
        is_plan_of(
            r,
            opt_view(wallet_opts.ext_descriptor),
            opt_view(wallet_opts.int_descriptor),
        ),
{
    match (&wallet_opts.ext_descriptor, &wallet_opts.int_descriptor) {
        (Some(external), Some(internal)) => Ok(
            CreatePlan::Pair { external: external.clone(), internal: internal.clone() },
        ),
        (Some(external), None) => Ok(CreatePlan::Single { external: external.clone() }),
        _ => Err(Error::MissingExternalDescriptor),
    }
}

/// What to do after the store was asked: the stored wallet is used where
/// there is one, else a wallet is created from the options.
pub fn new_persisted_wallet(stored: bool, wallet_opts: &WalletOpts) -> (r: Result<
    WalletSource,
    Error,
>)
    ensures
        stored ==> r matches Ok(WalletSource::Stored),
        !stored ==> match r {
            Ok(WalletSource::Create(plan)) => is_plan_of(
                Ok(plan),
                opt_view(wallet_opts.ext_descriptor),
                opt_view(wallet_opts.int_descriptor),
            ),
            Ok(WalletSource::Stored) => false,
            Err(e) => is_plan_of(
                Err(e),
                opt_view(wallet_opts.ext_descriptor),
                opt_view(wallet_opts.int_descriptor),
            ),
        },
{
    if stored {
        Ok(WalletSource::Stored)
    } else {
        match new_wallet(wallet_opts) {
            Ok(plan) => Ok(WalletSource::Create(plan)),
            Err(e) => Err(e),
        }
    }
}

} // verus!
