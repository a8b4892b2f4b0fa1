//! Decisions around a node's lifetime and its blocking operations: how a
//! creation request is read, what a node reports about itself, how a timed
//! operation settles, and what each download progress report becomes.
use vstd::prelude::*;
use crate::buffer::{optional_text_spec, required_text_spec, TextArg, optional_text, required_text};
use crate::error::{ArgName, BridgeError};
use crate::stream::SourceEvent;
use vstd::string::*;

verus! {

/// A request to create a node.
pub struct IrohNodeConfig {
    /// Directory of the blob store; required, created if missing.
    pub storage_path: TextArg,
    /// Whether to use relay servers.
    pub relay_enabled: bool,
    /// A relay to use instead of the public default set; may be null.
    pub custom_relay_url: TextArg,
    /// Whether to provision document sync.
    pub docs_enabled: bool,
}

/// Which relays a node uses.
#[derive(PartialEq, Eq, Debug)]
pub enum RelayChoice {
    Disabled,
    PublicDefault,
    Custom(String),
}

/// A validated creation request.
pub struct NodeSettings {
    pub storage_path: String,
    pub relay: RelayChoice,
    pub docs_enabled: bool,
}

/// The relays a node uses: none when relaying is off, else the custom one
/// when given, else the public default set.
pub open spec fn relay_choice_spec(relay_enabled: bool, custom: Option<String>) -> RelayChoice {
    if !relay_enabled {
        RelayChoice::Disabled
    } else {
        match custom {
            Some(u) => RelayChoice::Custom(u),
            None => RelayChoice::PublicDefault,
        }
    }
}

/// Reads a creation request. The storage path must be present, and both
/// texts must be UTF-8, whether relaying is on or not.
pub fn node_settings(config: IrohNodeConfig) -> (r: Result<NodeSettings, BridgeError>)
    ensures
        ({
            let path = required_text_spec(config.storage_path, ArgName::StoragePath);
            let relay = optional_text_spec(config.custom_relay_url, ArgName::CustomRelayUrl);
            &&& path is Err ==> r == Err::<NodeSettings, BridgeError>(path->Err_0)
            &&& path is Ok && relay is Err ==> r == Err::<NodeSettings, BridgeError>(relay->Err_0)
            &&& path is Ok && relay is Ok ==> r is Ok && r->Ok_0 == (NodeSettings {
                storage_path: path->Ok_0,
                relay: relay_choice_spec(config.relay_enabled, relay->Ok_0),
                docs_enabled: config.docs_enabled,
            })
        }),
{
    let IrohNodeConfig { storage_path, relay_enabled, custom_relay_url, docs_enabled } = config;
    let storage_path = required_text(storage_path, ArgName::StoragePath)?;
    let custom = optional_text(custom_relay_url, ArgName::CustomRelayUrl)?;
    let relay = if !relay_enabled {
        RelayChoice::Disabled
    } else {
        match custom {
            Some(u) => RelayChoice::Custom(u),
            None => RelayChoice::PublicDefault,
        }
    };
    Ok(NodeSettings { storage_path, relay, docs_enabled })
}

/// What a node reports about itself.
pub struct NodeInfo {
    /// The node's identifier.
    pub node_id: String,
    /// The relay it reaches the network through, if any.
    pub relay_url: Option<String>,
    /// Whether it can be reached at all.
    pub is_connected: bool,
}

/// Builds a node's report from its id, the relays of its address in order,
/// and the number of direct addresses it has. A node is connected when it
/// has a relay or a direct address.
pub fn node_info(node_id: String, relay_urls: Vec<String>, direct_addrs: usize) -> (r: NodeInfo)
    ensures
        r.node_id == node_id,
        r.relay_url == (if relay_urls@.len() > 0 { Some(relay_urls@[0]) } else { None::<String> }),
        r.is_connected == (relay_urls@.len() > 0 || direct_addrs > 0),
{
    let mut relay_urls = relay_urls;
    let relay_url = if relay_urls.len() > 0 {
        Some(relay_urls.swap_remove(0))
    } else {
        None
    };
    let is_connected = relay_url.is_some() || direct_addrs > 0;
    NodeInfo { node_id, relay_url, is_connected }
}

/// Options of the timed operations.
#[derive(Clone, Copy, PartialEq, Eq, Structural, Debug)]
pub struct IrohOperationOptions {
    /// Milliseconds to wait; zero waits without limit.
    pub timeout_ms: u64,
}

impl IrohOperationOptions {
    /// The limit to race the operation against, if any.
    pub fn time_limit(&self) -> (r: Option<u64>)
        ensures
            r == (if self.timeout_ms == 0 { None::<u64> } else { Some(self.timeout_ms) }),
    {
        if self.timeout_ms == 0 {
            None
        } else {
            Some(self.timeout_ms)
        }
    }
}

/// How a raced operation came back: with its own outcome, or not before
/// the timer.
pub enum Timed<T> {
    Finished(T),
    Elapsed,
}

/// The outcome of a raced operation: its own, or the timeout error when the
/// timer won. An abandoned operation's late result is never seen.
pub fn settle_timed<T>(raced: Timed<Result<T, BridgeError>>) -> (r: Result<T, BridgeError>)
    ensures
        raced is Elapsed ==> r == Err::<T, BridgeError>(BridgeError::Timeout),
        raced is Finished ==> r == raced->Finished_0,
{
    match raced {
        Timed::Finished(x) => x,
        Timed::Elapsed => Err(BridgeError::Timeout),
    }
}

/// Progress reported while downloading.
#[derive(Clone, Copy, PartialEq, Eq, Structural, Debug)]
pub struct IrohDownloadProgress {
    /// Bytes downloaded so far.
    pub downloaded: u64,
    /// Bytes expected in all; zero when unknown.
    pub total: u64,
}

/// A report from a running download.
pub enum ProgressItem {
    /// This many bytes have arrived.
    Progress(u64),
    /// One part of the download completed.
    PartComplete,
    /// The download failed; the payload describes why.
    Error(String),
    /// The download failed without a description.
    DownloadError,
    /// A report that carries nothing for the caller.
    Other,
}

/// What a progress report becomes for the caller: an item for bytes that
/// arrived, a failure for either kind of error, and nothing otherwise.
pub fn progress_event(item: ProgressItem) -> (r: Option<SourceEvent<IrohDownloadProgress>>)
    ensures
        match item {
            ProgressItem::Progress(n) => r == Some(
                SourceEvent::Item(IrohDownloadProgress { downloaded: n, total: 0 }),
            ),
            ProgressItem::Error(d) => r is Some && r->Some_0 is Failed
                && r->Some_0->Failed_0@ == "Download error: "@ + d@,
            ProgressItem::DownloadError => r is Some && r->Some_0 is Failed
                && r->Some_0->Failed_0@ == "Download failed"@,
            _ => r is None,
        },
{
    match item {
        ProgressItem::Progress(n) => Some(SourceEvent::Item(IrohDownloadProgress { downloaded: n, total: 0 })),
        ProgressItem::Error(d) => Some(SourceEvent::Failed(String::from_str("Download error: ").concat(d.as_str()))),
        ProgressItem::DownloadError => Some(SourceEvent::Failed(String::from_str("Download failed"))),
        _ => None,
    }
}

} // verus!
