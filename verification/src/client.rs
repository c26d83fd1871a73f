//! What to build for each kind of blockchain client.
//!
//! Building a client opens connections, so the caller does it; which client
//! to build, and from which of the options, is decided here.

use vstd::prelude::*;
use crate::options::ClientType;
use crate::options::WalletOpts;

verus! {

/// How a light client scans the chain.
#[derive(Clone, Copy, Debug, PartialEq, Eq, Structural)]
pub enum ScanType {
    /// From the wallet's last checkpoint.
    Sync,
    /// From a given height, to recover a wallet.
    Recovery { from_height: u32 },
}

/// How an RPC client logs in.
#[derive(Debug)]
pub enum RpcAuth {
    /// With the cookie file at this path.
    CookieFile(String),
    /// With a user name and a password.
    UserPass(String, String),
}

/// The client to build, with what it is built from.
#[derive(Debug)]
pub enum BlockchainClient {
    /// An Electrum client.
    Electrum { url: String, batch_size: usize },
    /// An asynchronous Esplora client.
    Esplora { url: String, parallel_requests: usize },
    /// An RPC client of a full node.
    RpcClient { url: String, auth: RpcAuth },
    /// A compact-filter light client.
    KyotoClient { scan_type: ScanType, required_peers: u8 },
}

/// The scan type for the block height that the options may name.
pub open spec fn scan_type_of(skip_blocks: Option<u32>) -> ScanType {
    match skip_blocks {
        Some(from_height) => ScanType::Recovery { from_height },
        None => ScanType::Sync,
    }
}

/// Whether `auth` is how the options say to log in: with the cookie file
/// where there is one, else with user name and password.
pub open spec fn is_auth_of(auth: RpcAuth, opts: WalletOpts) -> bool {
    match opts.cookie {
        Some(cookie) => auth matches RpcAuth::CookieFile(path) && path@ == cookie@,
        None => auth matches RpcAuth::UserPass(user, password) && user@ == opts.basic_auth.0@
            && password@ == opts.basic_auth.1@,
    }
}

/// Whether `client` is the client that the options ask for.
pub open spec fn is_client_of(client: BlockchainClient, opts: WalletOpts) -> bool {
    match opts.client_type {
        ClientType::Electrum => client matches BlockchainClient::Electrum { url, batch_size }
            && url@ == opts.url@ && batch_size == opts.batch_size,
        ClientType::Esplora => client matches BlockchainClient::Esplora {
            url,
            parallel_requests,
        } && url@ == opts.url@ && parallel_requests == opts.parallel_requests,
        ClientType::Rpc => client matches BlockchainClient::RpcClient { url, auth } && url@
            == opts.url@ && is_auth_of(auth, opts),
        ClientType::Cbf => client matches BlockchainClient::KyotoClient {
            scan_type,
            required_peers,
        } && scan_type == scan_type_of(opts.compactfilter_opts.skip_blocks) && required_peers
            == opts.compactfilter_opts.conn_count,
    }
}

/// The client that the options ask for.
pub fn new_blockchain_client(wallet_opts: &WalletOpts) -> (client: BlockchainClient)
    ensures
        is_client_of(client, *wallet_opts),
{
    match wallet_opts.client_type {
        ClientType::Electrum => BlockchainClient::Electrum {
            url: wallet_opts.url.clone(),
            batch_size: wallet_opts.batch_size,
        },
        ClientType::Esplora => BlockchainClient::Esplora {
            url: wallet_opts.url.clone(),
            parallel_requests: wallet_opts.parallel_requests,
        },
        ClientType::Rpc => {
            let auth = match &wallet_opts.cookie {
                Some(cookie) => RpcAuth::CookieFile(cookie.clone()),
                None => RpcAuth::UserPass(
                    wallet_opts.basic_auth.0.clone(),
                    wallet_opts.basic_auth.1.clone(),
                ),
            };
            BlockchainClient::RpcClient { url: wallet_opts.url.clone(), auth }
        },
        ClientType::Cbf => {
            let scan_type = match wallet_opts.compactfilter_opts.skip_blocks {
                Some(from_height) => ScanType::Recovery { from_height },
                None => ScanType::Sync,
            };
            BlockchainClient::KyotoClient {
                scan_type,
                required_peers: wallet_opts.compactfilter_opts.conn_count,
            }
        },
    }
}

} // verus!
