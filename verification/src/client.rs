//! The client façade: it owns the configured node list and the healthy set,
//! and exposes the node-pool, proof-of-work, network-id, discovery, and
//! message-lifecycle operations over them.

use vstd::prelude::*;
use vstd::string::StringSliceAdditionalSpecFns;

use crate::codec::copy_bytes;
use crate::discovery::{Address, GetUnspentAddressBuilder};
use crate::error::Error;
use crate::lifecycle::{build_promote, build_reattach, retry_decision, RetryDecision};
use crate::message::{Message, MessageId, MessageMetadata, TipContext};
use crate::network::{network_id_from_name, network_id_of};
use crate::node_pool::{probe_selected, HealthySet};
use crate::pow::{ClientMiner, ClientMinerBuilder};

verus! {

/// An event received on a broker topic.
#[derive(Debug)]
pub struct TopicEvent {
    /// The topic the event arrived on.
    pub topic: String,
    /// The event payload.
    pub payload: String,
}

/// Reads a health probe's answer: a node is healthy exactly when its health
/// endpoint answered with status 200.
pub fn health_from_status(status: u16) -> (r: bool)
    ensures
        r <==> status == 200,
{
    status == 200
}

/// The default for whether the broker disconnects once no topic is
/// subscribed.
pub fn default_broker_automatic_disconnect() -> (r: bool)
    ensures
        r == true,
{
    true
}

/// The default timeout of broker operations, in milliseconds.
pub fn default_broker_timeout() -> (r: u64)
    ensures
        r == 30_000,
{
    30_000
}

/// The message-broker options of the client.
#[derive(Debug)]
pub struct BrokerOptions {
    /// Whether the broker is disconnected automatically when every topic is
    /// unsubscribed.
    pub automatic_disconnect: bool,
    /// The timeout of broker operations, in milliseconds.
    pub timeout_millis: u64,
}

impl Default for BrokerOptions {
    /// The default broker options.
    fn default() -> (r: Self)
        ensures
            r.automatic_disconnect == true,
            r.timeout_millis == 30_000,
    {
        BrokerOptions {
            automatic_disconnect: default_broker_automatic_disconnect(),
            timeout_millis: default_broker_timeout(),
        }
    }
}

impl BrokerOptions {
    /// Creates the default broker options.
    pub fn new() -> (r: Self)
        ensures
            r.automatic_disconnect == true,
            r.timeout_millis == 30_000,
    {
        BrokerOptions {
            automatic_disconnect: default_broker_automatic_disconnect(),
            timeout_millis: default_broker_timeout(),
        }
    }

    /// Sets whether the broker should be automatically disconnected when all
    /// topics are unsubscribed.
    pub fn automatic_disconnect(self, automatic_disconnect: bool) -> (r: Self)
        ensures
            r.automatic_disconnect == automatic_disconnect,
            r.timeout_millis == self.timeout_millis,
    {
        BrokerOptions { automatic_disconnect, ..self }
    }

    /// Sets the timeout used for broker operations, in milliseconds.
    pub fn timeout(self, timeout_millis: u64) -> (r: Self)
        ensures
            r.automatic_disconnect == self.automatic_disconnect,
            r.timeout_millis == timeout_millis,
    {
        BrokerOptions { timeout_millis, ..self }
    }
}

/// A pairing of one address with its freshly queried balance.
pub struct AddressBalancePair {
    /// The queried address.
    pub address: Address,
    /// Its balance at query time.
    pub balance: u64,
}

/// The deferred configuration of a client.
pub struct ClientBuilder {
    /// The configured node addresses the synchronizer probes.
    pub nodes: Vec<String>,
    /// Whether proof of work is computed locally.
    pub local_pow: bool,
    /// How often the node list is re-probed, in milliseconds.
    pub node_sync_interval_ms: u64,
    /// The broker options handed to the client.
    pub broker_options: BrokerOptions,
}

impl ClientBuilder {
    /// A builder with no nodes, local proof of work, and the default probe
    /// interval and broker options.
    pub fn new() -> (r: Self)
        ensures
            r.nodes@.len() == 0,
            r.local_pow == true,
            r.node_sync_interval_ms == 60_000,
            r.broker_options.automatic_disconnect == true,
            r.broker_options.timeout_millis == 30_000,
    {
        ClientBuilder {
            nodes: Vec::new(),
            local_pow: true,
            node_sync_interval_ms: 60_000,
            broker_options: BrokerOptions::new(),
        }
    }

    /// Adds one node address to the configured list.
    pub fn with_node(self, node: String) -> (r: Self)
        ensures
            r.nodes@ == self.nodes@.push(node),
            r.local_pow == self.local_pow,
            r.node_sync_interval_ms == self.node_sync_interval_ms,
            r.broker_options == self.broker_options,
    {
        let mut nodes = self.nodes;
        nodes.push(node);
        ClientBuilder { nodes, ..self }
    }

    /// Sets whether proof of work runs locally.
    pub fn with_local_pow(self, local_pow: bool) -> (r: Self)
        ensures
            r.nodes@ == self.nodes@,
            r.local_pow == local_pow,
            r.node_sync_interval_ms == self.node_sync_interval_ms,
            r.broker_options == self.broker_options,
    {
        ClientBuilder { local_pow, ..self }
    }

    /// Sets how often the node list is re-probed, in milliseconds.
    pub fn with_node_sync_interval(self, interval_ms: u64) -> (r: Self)
        ensures
            r.nodes@ == self.nodes@,
            r.local_pow == self.local_pow,
            r.node_sync_interval_ms == interval_ms,
            r.broker_options == self.broker_options,
    {
        ClientBuilder { node_sync_interval_ms: interval_ms, ..self }
    }

    /// Builds the client. The healthy set starts empty; the caller runs one
    /// probe cycle through `Client::sync_nodes` before first use, then keeps
    /// the background synchronizer re-probing every interval.
    pub fn build(self) -> (r: Client)
        ensures
            r.nodes@ == self.nodes@,
            r.local_pow == self.local_pow,
            r.node_sync_interval_ms == self.node_sync_interval_ms,
            r.broker_options == self.broker_options,
            r.healthy.spec_is_empty(),
    {
        Client {
            nodes: self.nodes,
            healthy: HealthySet::new(),
            local_pow: self.local_pow,
            node_sync_interval_ms: self.node_sync_interval_ms,
            broker_options: self.broker_options,
        }
    }
}

/// The client: one healthy-set owner, one proof-of-work configuration, and
/// the operations over them. Network transport stays outside; every
/// operation here computes over values the transport hands in.
pub struct Client {
    /// The configured node addresses the synchronizer probes.
    pub nodes: Vec<String>,
    /// The nodes that answered the most recent probe cycle.
    pub healthy: HealthySet,
    /// Whether proof of work is computed locally.
    pub local_pow: bool,
    /// How often the node list is re-probed, in milliseconds.
    pub node_sync_interval_ms: u64,
    /// The broker options of this client.
    pub broker_options: BrokerOptions,
}

impl Client {
    /// Creates the builder for a client.
    pub fn builder() -> (r: ClientBuilder)
        ensures
            r.nodes@.len() == 0,
            r.local_pow == true,
    {
        ClientBuilder::new()
    }

    /// Replaces the healthy set with the outcome of one probe cycle:
    /// `health[i]` reports whether the configured node `nodes[i]` answered
    /// healthy. Afterwards the set holds exactly the nodes that answered —
    /// an unhealthy node is absent, never stale, and a cycle nobody answered
    /// leaves the set empty.
    pub fn sync_nodes(&mut self, health: &Vec<bool>)
        requires
            health@.len() == old(self).nodes@.len(),
        ensures
            forall|a: Seq<char>|
                final(self).healthy.spec_contains(a) <==> probe_selected(
                    old(self).nodes@,
                    health@,
                    a,
                ),
            final(self).nodes@ == old(self).nodes@,
            final(self).local_pow == old(self).local_pow,
            final(self).node_sync_interval_ms == old(self).node_sync_interval_ms,
            final(self).broker_options == old(self).broker_options,
    {
        let replacement = HealthySet::from_probe_results(&self.nodes, health);
        self.healthy = replacement;
    }

    /// One arbitrary healthy node address, or `NodePoolEmpty` when the set
    /// is empty; the call never waits for the next probe cycle.
    pub fn get_node(&self) -> (r: Result<String, Error>)
        ensures
            r is Ok <==> !self.healthy.spec_is_empty(),
            r matches Ok(node) ==> self.healthy.spec_contains(node@),
            r is Err ==> r matches Err(Error::NodePoolEmpty),
    {
        self.healthy.get_node()
    }

    /// The network id of the network calling itself `network_name`: the
    /// first eight bytes of the Blake2b-256 digest of the name, read
    /// little-endian. A function of the name alone, so one session derives
    /// the same id however often it asks.
    pub fn get_network_id(&self, network_name: &str) -> (r: u64)
        ensures
            r == network_id_of(network_name.spec_bytes()),
    {
        network_id_from_name(network_name)
    }

    /// The miner matching this client's proof-of-work setting.
    pub fn get_pow_provider(&self) -> (r: ClientMiner)
        ensures
            r.local_pow == self.local_pow,
    {
        ClientMinerBuilder::new().with_local_pow(self.local_pow).finish()
    }

    /// Begins an unspent-address discovery for `seed`: the returned builder
    /// gathers the mandatory chain path and the optional start index before
    /// the scan starts.
    pub fn get_unspent_address(&self, seed: &Vec<u8>) -> (r: GetUnspentAddressBuilder)
        ensures
            r.seed@ == seed@,
            r.path is None,
            r.index is None,
    {
        GetUnspentAddressBuilder::new(copy_bytes(seed))
    }

    /// Decides a retry of the message `id` from its freshly queried
    /// metadata: promote when the node says so, otherwise reattach when the
    /// node says so, otherwise fail with `NoNeedPromoteOrReattach` — before
    /// any tips are fetched or any message is posted.
    pub fn retry(&self, id: &MessageId, metadata: &MessageMetadata) -> (r: Result<
        RetryDecision,
        Error,
    >)
        ensures
            metadata.should_promote == Some(true) ==> r == Ok::<RetryDecision, Error>(
                RetryDecision::Promote,
            ),
            metadata.should_promote != Some(true) && metadata.should_reattach == Some(true) ==> r
                == Ok::<RetryDecision, Error>(RetryDecision::Reattach),
            r is Err <==> metadata.should_promote != Some(true) && metadata.should_reattach
                != Some(true),
            r is Err ==> (r matches Err(Error::NoNeedPromoteOrReattach(s)) && s@
                == crate::lifecycle::ascii_chars(crate::codec::hex_encoded(id@))),
    {
        retry_decision(id, metadata)
    }

    /// Builds the promotion of `message_id` from the tip context fetched for
    /// this very call: an empty-payload message whose parents are the first
    /// fresh tip and the promoted message itself.
    pub fn promote(&self, message_id: &MessageId, ctx: &TipContext) -> (m: Message)
        requires
            ctx.wf(),
            message_id.wf(),
        ensures
            m.network_id == ctx.network_id,
            m.parent1@ == ctx.tip1@,
            m.parent2@ == message_id@,
            m.payload is None,
            m.wf(),
    {
        build_promote(ctx, message_id)
    }

    /// Builds the reattachment of `original` from the tip context fetched
    /// for this very call: the same payload under both fresh tips. Fails
    /// with `MissingPayload` exactly when the original carries no payload.
    pub fn reattach(&self, original: &Message, ctx: &TipContext) -> (r: Result<Message, Error>)
        requires
            ctx.wf(),
        ensures
            r is Ok <==> original.payload is Some,
            r matches Ok(m) ==> m.network_id == ctx.network_id && m.parent1@ == ctx.tip1@
                && m.parent2@ == ctx.tip2@ && (m.payload matches Some(p) && p@
                == original.payload.unwrap()@) && m.wf(),
            r is Err ==> r matches Err(Error::MissingPayload),
    {
        build_reattach(ctx, original)
    }

    /// Pairs each queried address with the balance reported for it, in the
    /// order the addresses were given.
    pub fn get_address_balances(&self, addresses: &Vec<Address>, balances: &Vec<u64>) -> (r: Vec<
        AddressBalancePair,
    >)
        requires
            addresses@.len() == balances@.len(),
        ensures
            r@.len() == addresses@.len(),
            forall|i: int|
                0 <= i < r@.len() ==> #[trigger] r@[i].address.kind == addresses@[i].kind
                    && r@[i].address.bytes@ == addresses@[i].bytes@ && r@[i].balance
                    == balances@[i],
    {
        let mut out: Vec<AddressBalancePair> = Vec::new();
        let mut i: usize = 0;
        while i < addresses.len()
            invariant
                i <= addresses@.len(),
                addresses@.len() == balances@.len(),
                out@.len() == i,
                forall|j: int|
                    0 <= j < i ==> #[trigger] out@[j].address.kind == addresses@[j].kind
                        && out@[j].address.bytes@ == addresses@[j].bytes@ && out@[j].balance
                        == balances@[j],
            decreases addresses@.len() - i,
        {
            out.push(AddressBalancePair { address: addresses[i].clone(), balance: balances[i] });
            i = i + 1;
        }
        out
    }
}

} // verus!

