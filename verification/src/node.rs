//! Client-side node registry: live latency estimates per game node.
//!
//! A dedicated worker probes every registered node and records round-trip
//! times here; each change is surfaced as a `PingUpdate` for a newest-wins
//! stream. After three consecutive failed probes a node is marked missing
//! (its ping becomes `None`) but the entry is retained. Selection prefers
//! the lowest live ping in the preferred region, falls back to the lowest
//! live ping anywhere, and only with no live ping at all settles for any
//! registered node.

use vstd::prelude::*;

verus! {

/// Failed probes tolerated before a node's ping is cleared.
pub const PING_FAIL_LIMIT: u8 = 3;

/// One latency observation, emitted on the ping stream.
#[derive(Debug, Clone, Copy, PartialEq, Eq)]
pub struct PingUpdate {
    pub node_id: i32,
    /// Round-trip time in milliseconds, or `None` when the node is missing.
    pub ping: Option<u32>,
}

/// Static description of a node, as configuration delivers it.
#[derive(Debug, Clone)]
pub struct NodeConfig {
    pub node_id: i32,
    pub address: String,
    pub region: u32,
}

/// One registered node and its live latency estimate.
#[derive(Debug, Clone)]
pub struct NodeEntry {
    pub node_id: i32,
    pub address: String,
    pub region: u32,
    /// Latest round-trip time in milliseconds; `None` while missing.
    pub current_ping: Option<u32>,
    /// Consecutive failed probes since the last answer.
    pub fail_count: u8,
}

/// Failures of node selection.
#[derive(Debug, Clone, Copy, PartialEq, Eq, Structural)]
pub enum NodeError {
    /// The registry holds no node at all.
    NoNodesAvailable,
}

/// A node that currently has a live ping.
pub open spec fn live(e: NodeEntry) -> bool {
    e.current_ping is Some
}

/// A node that is live in the given region.
pub open spec fn live_in(e: NodeEntry, region: u32) -> bool {
    live(e) && e.region == region
}

/// The read-mostly map of nodes, keyed by node id.
#[derive(Debug)]
pub struct NodeRegistry {
    pub entries: Vec<NodeEntry>,
}

impl NodeRegistry {
    /// Some entry carries this node id.
    pub open spec fn contains_id(self, id: i32) -> bool {
        exists|k: int| 0 <= k < self.entries@.len() && (#[trigger] self.entries@[k]).node_id == id
    }

    /// Node ids are unique and fail counters never pass the limit.
    pub open spec fn wf(self) -> bool {
        &&& forall|a: int, b: int|
            0 <= a < b < self.entries@.len() ==> (#[trigger] self.entries@[a]).node_id != (
            #[trigger] self.entries@[b]).node_id
        &&& forall|k: int|
            0 <= k < self.entries@.len() ==> (#[trigger] self.entries@[k]).fail_count
                <= PING_FAIL_LIMIT
    }

    /// An empty registry.
    pub fn new() -> (r: NodeRegistry)
        ensures
            r.wf(),
            r.entries@.len() == 0,
    {
        NodeRegistry { entries: Vec::new() }
    }

    /// Replaces the node list on a configuration reload. Every entry starts
    /// with no ping and a clear fail counter.
    pub fn set_nodes(&mut self, nodes: Vec<NodeConfig>) -> (r: bool)
        requires
            old(self).wf(),
            forall|a: int, b: int|
                0 <= a < b < nodes@.len() ==> (#[trigger] nodes@[a]).node_id != (
                #[trigger] nodes@[b]).node_id,
        ensures
            r,
            final(self).wf(),
            final(self).entries@.len() == nodes@.len(),
            forall|k: int|
                0 <= k < nodes@.len() ==> {
                    let e = #[trigger] final(self).entries@[k];
                    &&& e.node_id == nodes@[k].node_id
                    &&& e.address@ == nodes@[k].address@
                    &&& e.region == nodes@[k].region
                    &&& e.current_ping is None
                    &&& e.fail_count == 0
                },
    {
        let mut entries: Vec<NodeEntry> = Vec::new();
        let mut i: usize = 0;
        while i < nodes.len()
            invariant
                i <= nodes@.len(),
                entries@.len() == i,
                forall|a: int, b: int|
                    0 <= a < b < nodes@.len() ==> (#[trigger] nodes@[a]).node_id != (
                    #[trigger] nodes@[b]).node_id,
                forall|k: int|
                    0 <= k < i ==> {
                        let e = #[trigger] entries@[k];
                        &&& e.node_id == nodes@[k].node_id
                        &&& e.address@ == nodes@[k].address@
                        &&& e.region == nodes@[k].region
                        &&& e.current_ping is None
                        &&& e.fail_count == 0
                    },
            decreases nodes@.len() - i,
        {
            let n = &nodes[i];
            entries.push(
                NodeEntry {
                    node_id: n.node_id,
                    address: n.address.clone(),
                    region: n.region,
                    current_ping: None,
                    fail_count: 0,
                },
            );
            i = i + 1;
        }
        self.entries = entries;
        true
    }

    /// Finds the entry of a node id, if any.
    fn find_index(&self, node_id: i32) -> (r: Option<usize>)
        ensures
            match r {
                Some(k) => k < self.entries@.len() && self.entries@[k as int].node_id == node_id,
                None => !self.contains_id(node_id),
            },
    {
        let mut k: usize = 0;
        while k < self.entries.len()
            invariant
                k <= self.entries@.len(),
                forall|q: int| 0 <= q < k ==> (#[trigger] self.entries@[q]).node_id != node_id,
            decreases self.entries@.len() - k,
        {
            if self.entries[k].node_id == node_id {
                return Some(k);
            }
            k = k + 1;
        }
        None
    }

    /// Records an answered probe: the node's ping becomes the observed
    /// round trip and its fail counter clears. Returns the update to emit,
    /// or `None` for a node that is no longer registered.
    pub fn record_pong(&mut self, node_id: i32, rtt_ms: u32) -> (r: Option<PingUpdate>)
        requires
            old(self).wf(),
        ensures
            final(self).wf(),
            match r {
                Some(u) => {
                    &&& old(self).contains_id(node_id)
                    &&& u.node_id == node_id
                    &&& u.ping == Some(rtt_ms)
                    &&& final(self).entries@.len() == old(self).entries@.len()
                    &&& exists|k: int|
                        {
                            &&& 0 <= k < old(self).entries@.len()
                            &&& (#[trigger] old(self).entries@[k]).node_id == node_id
                            &&& final(self).entries@[k].node_id == node_id
                            &&& final(self).entries@[k].current_ping == Some(rtt_ms)
                            &&& final(self).entries@[k].fail_count == 0
                            &&& final(self).entries@[k].address@ == old(self).entries@[k].address@
                            &&& final(self).entries@[k].region == old(self).entries@[k].region
                            &&& forall|q: int|
                                0 <= q < old(self).entries@.len() && q != k
                                    ==> final(self).entries@[q] == old(self).entries@[q]
                        }
                },
                None => {
                    &&& !old(self).contains_id(node_id)
                    &&& *final(self) == *old(self)
                },
            },
    {
        let k = match self.find_index(node_id) {
            Some(k) => k,
            None => {
                return None;
            },
        };
        let e = &self.entries[k];
        let updated = NodeEntry {
            node_id: e.node_id,
            address: e.address.clone(),
            region: e.region,
            current_ping: Some(rtt_ms),
            fail_count: 0,
        };
        let ghost pre = self.entries@;
        self.entries.set(k, updated);
        proof {
            assert(self.entries@ =~= pre.update(k as int, updated));
        }
        Some(PingUpdate { node_id, ping: Some(rtt_ms) })
    }

    /// Records a failed probe. The fail counter rises; on reaching the
    /// limit the node's ping clears and the missing-node update is
    /// returned. Earlier failures, unknown nodes and already-missing nodes
    /// emit nothing.
    pub fn record_failure(&mut self, node_id: i32) -> (r: Option<PingUpdate>)
        requires
            old(self).wf(),
        ensures
            final(self).wf(),
            !old(self).contains_id(node_id) ==> *final(self) == *old(self) && r is None,
            old(self).contains_id(node_id) ==> {
                &&& final(self).entries@.len() == old(self).entries@.len()
                &&& exists|k: int|
                    {
                        &&& 0 <= k < old(self).entries@.len()
                        &&& (#[trigger] old(self).entries@[k]).node_id == node_id
                        &&& {
                            let before = old(self).entries@[k];
                            let after = final(self).entries@[k];
                            &&& after.node_id == node_id
                            &&& after.address@ == before.address@
                            &&& after.region == before.region
                            &&& after.fail_count == (if before.fail_count < PING_FAIL_LIMIT {
                                before.fail_count + 1
                            } else {
                                before.fail_count as int
                            })
                            &&& after.current_ping == (if after.fail_count >= PING_FAIL_LIMIT {
                                None::<u32>
                            } else {
                                before.current_ping
                            })
                            &&& r == (if before.fail_count + 1 == PING_FAIL_LIMIT {
                                Some(PingUpdate { node_id, ping: None })
                            } else {
                                None::<PingUpdate>
                            })
                        }
                        &&& forall|q: int|
                            0 <= q < old(self).entries@.len() && q != k ==> final(self).entries@[q]
                                == old(self).entries@[q]
                    }
            },
    {
        let k = match self.find_index(node_id) {
            Some(k) => k,
            None => {
                return None;
            },
        };
        let e = &self.entries[k];
        let new_count: u8 = if e.fail_count < PING_FAIL_LIMIT {
            e.fail_count + 1
        } else {
            e.fail_count
        };
        let now_missing = new_count >= PING_FAIL_LIMIT;
        let updated = NodeEntry {
            node_id: e.node_id,
            address: e.address.clone(),
            region: e.region,
            current_ping: if now_missing {
                None
            } else {
                e.current_ping
            },
            fail_count: new_count,
        };
        let emit = e.fail_count + 1 == PING_FAIL_LIMIT;
        let ghost pre = self.entries@;
        self.entries.set(k, updated);
        proof {
            assert(self.entries@ =~= pre.update(k as int, updated));
        }
        if emit {
            Some(PingUpdate { node_id, ping: None })
        } else {
            None
        }
    }

    /// Selects the node to play on. The result is always a registered node:
    /// the one with the lowest live ping in the preferred region when that
    /// region has a live node, otherwise the lowest live ping anywhere,
    /// otherwise the first registered node. Fails only when the registry is
    /// empty.
    pub fn select_node(&self, preferred_region: Option<u32>) -> (r: Result<i32, NodeError>)
        requires
            self.wf(),
        ensures
            match r {
                Ok(id) => {
                    &&& self.entries@.len() > 0
                    &&& self.contains_id(id)
                    &&& exists|k: int|
                        {
                            &&& 0 <= k < self.entries@.len()
                            &&& (#[trigger] self.entries@[k]).node_id == id
                            &&& selection_ok(self.entries@, preferred_region, k)
                        }
                },
                Err(e) => {
                    &&& e == NodeError::NoNodesAvailable
                    &&& self.entries@.len() == 0
                },
            },
    {
        if self.entries.len() == 0 {
            return Err(NodeError::NoNodesAvailable);
        }
        let has_region = preferred_region.is_some();
        let mut best_region: Option<usize> = None;
        let mut best_global: Option<usize> = None;
        let mut k: usize = 0;
        while k < self.entries.len()
            invariant
                self.entries@.len() > 0,
                k <= self.entries@.len(),
                has_region == (preferred_region is Some),
                match best_region {
                    Some(i) => {
                        &&& i < k
                        &&& preferred_region is Some
                        &&& live_in(self.entries@[i as int], preferred_region->0)
                        &&& forall|q: int|
                            0 <= q < k && live_in(
                                #[trigger] self.entries@[q],
                                preferred_region->0,
                            ) ==> self.entries@[i as int].current_ping->0
                                <= self.entries@[q].current_ping->0
                    },
                    None => forall|q: int|
                        0 <= q < k ==> !(preferred_region is Some && live_in(
                            #[trigger] self.entries@[q],
                            preferred_region->0,
                        )),
                },
                match best_global {
                    Some(i) => {
                        &&& i < k
                        &&& live(self.entries@[i as int])
                        &&& forall|q: int|
                            0 <= q < k && live(#[trigger] self.entries@[q]) ==> self.entries@[
                                i as int
                            ].current_ping->0 <= self.entries@[q].current_ping->0
                    },
                    None => forall|q: int| 0 <= q < k ==> !live(#[trigger] self.entries@[q]),
                },
            decreases self.entries@.len() - k,
        {
            let e = &self.entries[k];
            if let Some(p) = e.current_ping {
                let better_global = match best_global {
                    Some(i) => {
                        let bp = match self.entries[i].current_ping {
                            Some(bp) => bp,
                            None => 0,
                        };
                        p < bp
                    },
                    None => true,
                };
                if better_global {
                    best_global = Some(k);
                }
                if let Some(r) = preferred_region {
                    if e.region == r {
                        let better_region = match best_region {
                            Some(i) => {
                                let bp = match self.entries[i].current_ping {
                                    Some(bp) => bp,
                                    None => 0,
                                };
                                p < bp
                            },
                            None => true,
                        };
                        if better_region {
                            best_region = Some(k);
                        }
                    }
                }
            }
            k = k + 1;
        }
        let chosen: usize = match best_region {
            Some(i) => i,
            None => match best_global {
                Some(i) => i,
                None => 0,
            },
        };
        let id = self.entries[chosen].node_id;
        proof {
            assert(selection_ok(self.entries@, preferred_region, chosen as int));
        }
        Ok(id)
    }

    /// A consistent snapshot of every entry, for display.
    pub fn list(&self) -> (r: Vec<NodeEntry>)
        ensures
            r@.len() == self.entries@.len(),
            forall|k: int|
                0 <= k < self.entries@.len() ==> {
                    let a = #[trigger] r@[k];
                    let b = self.entries@[k];
                    &&& a.node_id == b.node_id
                    &&& a.address@ == b.address@
                    &&& a.region == b.region
                    &&& a.current_ping == b.current_ping
                    &&& a.fail_count == b.fail_count
                },
    {
        let mut r: Vec<NodeEntry> = Vec::new();
        let mut k: usize = 0;
        while k < self.entries.len()
            invariant
                k <= self.entries@.len(),
                r@.len() == k,
                forall|q: int|
                    0 <= q < k ==> {
                        let a = #[trigger] r@[q];
                        let b = self.entries@[q];
                        &&& a.node_id == b.node_id
                        &&& a.address@ == b.address@
                        &&& a.region == b.region
                        &&& a.current_ping == b.current_ping
                        &&& a.fail_count == b.fail_count
                    },
            decreases self.entries@.len() - k,
        {
            let e = &self.entries[k];
            r.push(
                NodeEntry {
                    node_id: e.node_id,
                    address: e.address.clone(),
                    region: e.region,
                    current_ping: e.current_ping,
                    fail_count: e.fail_count,
                },
            );
            k = k + 1;
        }
        r
    }
}

/// What makes index `k` a correct selection: the lowest live ping in the
/// preferred region when the region has a live node; otherwise the lowest
/// live ping anywhere; otherwise, with no live node at all, the front of
/// the list.
pub open spec fn selection_ok(s: Seq<NodeEntry>, preferred_region: Option<u32>, k: int) -> bool {
    if preferred_region is Some && exists|q: int|
        0 <= q < s.len() && live_in(#[trigger] s[q], preferred_region->0) {
        &&& live_in(s[k], preferred_region->0)
        &&& forall|q: int|
            0 <= q < s.len() && live_in(#[trigger] s[q], preferred_region->0) ==> s[
                k
            ].current_ping->0 <= s[q].current_ping->0
    } else if exists|q: int| 0 <= q < s.len() && live(#[trigger] s[q]) {
        &&& live(s[k])
        &&& forall|q: int|
            0 <= q < s.len() && live(#[trigger] s[q]) ==> s[k].current_ping->0
                <= s[q].current_ping->0
    } else {
        k == 0
    }
}

} // verus!
