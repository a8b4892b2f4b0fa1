//! The table of every object handed to the caller: nodes, documents and
//! subscriptions, each behind a generation-tagged handle.
//!
//! Every operation starts here: its handle is resolved, its arguments are
//! checked and copied, and only then is native work started. A document
//! keeps the handle of its node; when that node is destroyed, operations on
//! the document report it instead of reaching a freed node.
use vstd::prelude::*;
use crate::error::{ArgName, BridgeError};
use crate::registry::{HandleKey, HandleRegistry};
use crate::signal::SignalSent;
use crate::subscription::SubscriptionControl;

verus! {

/// Opaque handle to a node.
#[derive(Clone, Copy, PartialEq, Eq, Structural, Debug)]
pub struct IrohNodeHandle {
    pub key: HandleKey,
}

/// Opaque handle to a document.
#[derive(Clone, Copy, PartialEq, Eq, Structural, Debug)]
pub struct IrohDocHandle {
    pub key: HandleKey,
}

/// Opaque handle to a running subscription, used to cancel it.
#[derive(Clone, Copy, PartialEq, Eq, Structural, Debug)]
pub struct IrohSubscriptionHandle {
    pub key: HandleKey,
}

/// A node, and whether it was created with document sync.
pub struct NodeEntry<N> {
    pub native: N,
    pub docs_enabled: bool,
}

/// A document, and the node that it belongs to.
pub struct DocEntry<D> {
    pub doc: D,
    pub node: IrohNodeHandle,
}

/// Resolving a node handle.
pub open spec fn node_check<N>(nodes: Map<HandleKey, NodeEntry<N>>, h: Option<IrohNodeHandle>) -> Result<(), BridgeError> {
    match h {
        None => Err(BridgeError::NullArgument(ArgName::Handle)),
        Some(h) => if nodes.contains_key(h.key) {
            Ok(())
        } else {
            Err(BridgeError::StaleHandle(ArgName::Handle))
        },
    }
}

/// Resolving a node handle for a document operation.
pub open spec fn docs_node_check<N>(nodes: Map<HandleKey, NodeEntry<N>>, h: Option<IrohNodeHandle>) -> Result<(), BridgeError> {
    match node_check(nodes, h) {
        Err(e) => Err(e),
        Ok(_) => if nodes[h->Some_0.key].docs_enabled {
            Ok(())
        } else {
            Err(BridgeError::DocsNotEnabled)
        },
    }
}

/// Resolving a document handle.
pub open spec fn doc_check<N, D>(
    nodes: Map<HandleKey, NodeEntry<N>>,
    docs: Map<HandleKey, DocEntry<D>>,
    h: Option<IrohDocHandle>,
) -> Result<(), BridgeError> {
    match h {
        None => Err(BridgeError::NullArgument(ArgName::DocHandle)),
        Some(h) => if !docs.contains_key(h.key) {
            Err(BridgeError::StaleHandle(ArgName::DocHandle))
        } else if !nodes.contains_key(docs[h.key].node.key) {
            Err(BridgeError::StaleHandle(ArgName::Handle))
        } else {
            Ok(())
        },
    }
}

/// Whether cancelling through `h` sends a signal.
pub open spec fn cancel_sends(subs: Map<HandleKey, SubscriptionControl>, h: Option<IrohSubscriptionHandle>) -> bool {
    h is Some && subs.contains_key(h->Some_0.key) && subs[h->Some_0.key].is_armed()
}

/// The subscriptions left after cancelling through `h`.
pub open spec fn cancel_leaves(subs: Map<HandleKey, SubscriptionControl>, h: Option<IrohSubscriptionHandle>) -> Map<HandleKey, SubscriptionControl> {
    match h {
        Some(h) => subs.remove(h.key),
        None => subs,
    }
}

/// Cancelling the same subscription twice sends no second signal.
pub proof fn law_cancel_idempotent(subs: Map<HandleKey, SubscriptionControl>, h: Option<IrohSubscriptionHandle>)
    ensures
        !cancel_sends(cancel_leaves(subs, h), h),
        cancel_leaves(cancel_leaves(subs, h), h) == cancel_leaves(subs, h),
{
    if h is Some {
        assert(cancel_leaves(cancel_leaves(subs, h), h) =~= cancel_leaves(subs, h));
    }
}

/// A document operation on a node without document sync fails with the
/// usage error that says so, before any native work.
pub proof fn law_docs_disabled_guard<N>(nodes: Map<HandleKey, NodeEntry<N>>, h: IrohNodeHandle)
    requires
        nodes.contains_key(h.key),
        !nodes[h.key].docs_enabled,
    ensures
        docs_node_check(nodes, Some(h)) == Err::<(), BridgeError>(BridgeError::DocsNotEnabled),
{
}

/// After a node is destroyed, its handle is reported as stale rather than
/// followed.
pub proof fn law_destroyed_node_is_reported<N>(nodes: Map<HandleKey, NodeEntry<N>>, h: IrohNodeHandle)
    ensures
        node_check(nodes.remove(h.key), Some(h)) == Err::<(), BridgeError>(BridgeError::StaleHandle(ArgName::Handle)),
        docs_node_check(nodes.remove(h.key), Some(h)) == Err::<(), BridgeError>(BridgeError::StaleHandle(ArgName::Handle)),
{
}

/// After a node is destroyed, every operation on one of its documents
/// reports the missing node instead of reaching it.
pub proof fn law_destroyed_node_orphans_documents<N, D>(
    nodes: Map<HandleKey, NodeEntry<N>>,
    docs: Map<HandleKey, DocEntry<D>>,
    d: IrohDocHandle,
)
    requires
        docs.contains_key(d.key),
    ensures
        doc_check(nodes.remove(docs[d.key].node.key), docs, Some(d)) == Err::<(), BridgeError>(
            BridgeError::StaleHandle(ArgName::Handle),
        ),
{
}

/// All objects handed out to the caller.
pub struct Boundary<N, D> {
    nodes: HandleRegistry<NodeEntry<N>>,
    docs: HandleRegistry<DocEntry<D>>,
    subscriptions: HandleRegistry<SubscriptionControl>,
}

impl<N, D> Boundary<N, D> {
    /// The live nodes, by handle.
    pub closed spec fn nodes(&self) -> Map<HandleKey, NodeEntry<N>> {
        self.nodes.live()
    }

    /// The live documents, by handle.
    pub closed spec fn docs(&self) -> Map<HandleKey, DocEntry<D>> {
        self.docs.live()
    }

    /// The subscriptions that have not been cancelled, by handle.
    pub closed spec fn subscriptions(&self) -> Map<HandleKey, SubscriptionControl> {
        self.subscriptions.live()
    }

    /// `k` was handed out as a node handle at some point.
    pub closed spec fn node_issued(&self, k: HandleKey) -> bool {
        self.nodes.issued(k)
    }

    pub closed spec fn doc_issued(&self, k: HandleKey) -> bool {
        self.docs.issued(k)
    }

    pub closed spec fn subscription_issued(&self, k: HandleKey) -> bool {
        self.subscriptions.issued(k)
    }

    pub closed spec fn wf(&self) -> bool {
        &&& forall|k: HandleKey| #[trigger]
            self.docs.live().contains_key(k) ==> self.nodes.issued(self.docs.live()[k].node.key)
        &&& forall|k: HandleKey| #[trigger]
            self.docs.live().contains_key(k) && self.nodes.live().contains_key(
                self.docs.live()[k].node.key,
            ) ==> self.nodes.live()[self.docs.live()[k].node.key].docs_enabled
        &&& forall|k: HandleKey| #[trigger]
            self.subscriptions.live().contains_key(k) ==> self.subscriptions.live()[k].is_armed()
    }

    /// A table with nothing in it.
    pub fn new() -> (r: Self)
        ensures
            r.wf(),
            r.nodes() == Map::<HandleKey, NodeEntry<N>>::empty(),
            r.docs() == Map::<HandleKey, DocEntry<D>>::empty(),
            r.subscriptions() == Map::<HandleKey, SubscriptionControl>::empty(),
    {
        Boundary { nodes: HandleRegistry::new(), docs: HandleRegistry::new(), subscriptions: HandleRegistry::new() }
    }

    /// Hands a new node to the caller.
    pub fn register_node(&mut self, native: N, docs_enabled: bool) -> (h: IrohNodeHandle)
        requires
            old(self).wf(),
        ensures
            final(self).wf(),
            !old(self).node_issued(h.key),
            final(self).nodes() == old(self).nodes().insert(h.key, NodeEntry { native, docs_enabled }),
            final(self).docs() == old(self).docs(),
            final(self).subscriptions() == old(self).subscriptions(),
    {
        let ghost pre = *self;
        let k = self.nodes.insert(NodeEntry { native, docs_enabled });
        proof {
            assert forall|j: HandleKey| #[trigger] self.docs.live().contains_key(j) implies self.nodes.issued(
                self.docs.live()[j].node.key,
            ) by {
                assert(pre.nodes.issued(pre.docs.live()[j].node.key));
            }
            assert forall|j: HandleKey| #[trigger]
                self.docs.live().contains_key(j) && self.nodes.live().contains_key(
                    self.docs.live()[j].node.key,
                ) implies self.nodes.live()[self.docs.live()[j].node.key].docs_enabled by {
                assert(pre.nodes.issued(pre.docs.live()[j].node.key));
            }
        }
        IrohNodeHandle { key: k }
    }

    /// Resolves a node handle.
    pub fn node(&self, h: Option<IrohNodeHandle>) -> (r: Result<&N, BridgeError>)
        ensures
            r is Ok == node_check(self.nodes(), h) is Ok,
            r is Err ==> r->Err_0 == node_check(self.nodes(), h)->Err_0,
            r is Ok ==> *r->Ok_0 == self.nodes()[h->Some_0.key].native,
    {
        match h {
            None => Err(BridgeError::NullArgument(ArgName::Handle)),
            Some(h) => match self.nodes.get(h.key) {
                Some(e) => Ok(&e.native),
                None => Err(BridgeError::StaleHandle(ArgName::Handle)),
            },
        }
    }

    /// Resolves the handle of a node on which document operations run.
    pub fn docs_node(&self, h: Option<IrohNodeHandle>) -> (r: Result<&N, BridgeError>)
        ensures
            r is Ok == docs_node_check(self.nodes(), h) is Ok,
            r is Err ==> r->Err_0 == docs_node_check(self.nodes(), h)->Err_0,
            r is Ok ==> *r->Ok_0 == self.nodes()[h->Some_0.key].native,
            r is Ok ==> self.nodes()[h->Some_0.key].docs_enabled,
    {
        match h {
            None => Err(BridgeError::NullArgument(ArgName::Handle)),
            Some(h) => match self.nodes.get(h.key) {
                Some(e) => if e.docs_enabled {
                    Ok(&e.native)
                } else {
                    Err(BridgeError::DocsNotEnabled)
                },
                None => Err(BridgeError::StaleHandle(ArgName::Handle)),
            },
        }
    }

    /// Takes a node back from the caller, best effort: a null or dead
    /// handle is a no-op.
    pub fn destroy_node(&mut self, h: Option<IrohNodeHandle>) -> (r: Option<N>)
        requires
            old(self).wf(),
        ensures
            final(self).wf(),
            r is Some == (h is Some && old(self).nodes().contains_key(h->Some_0.key)),
            r is Some ==> r->Some_0 == old(self).nodes()[h->Some_0.key].native,
            final(self).nodes() == (match h {
                Some(h) => old(self).nodes().remove(h.key),
                None => old(self).nodes(),
            }),
            final(self).docs() == old(self).docs(),
            final(self).subscriptions() == old(self).subscriptions(),
    {
        match h {
            None => None,
            Some(h) => {
                let ghost pre = *self;
                let r = self.nodes.remove(h.key);
                proof {
                    assert forall|j: HandleKey| #[trigger] self.docs.live().contains_key(j) implies self.nodes.issued(
                        self.docs.live()[j].node.key,
                    ) by {
                        assert(pre.nodes.issued(pre.docs.live()[j].node.key));
                    }
                }
                match r {
                    Some(e) => Some(e.native),
                    None => None,
                }
            },
        }
    }

    /// Takes a node back from the caller so that it can be shut down with
    /// its outcome reported. A null or dead handle is a usage error.
    pub fn close_node(&mut self, h: Option<IrohNodeHandle>) -> (r: Result<N, BridgeError>)
        requires
            old(self).wf(),
        ensures
            final(self).wf(),
            h is None ==> r == Err::<N, BridgeError>(BridgeError::NullArgument(ArgName::Handle)),
            h is Some && !old(self).nodes().contains_key(h->Some_0.key) ==> r == Err::<N, BridgeError>(
                BridgeError::StaleHandle(ArgName::Handle),
            ),
            r is Ok == (h is Some && old(self).nodes().contains_key(h->Some_0.key)),
            r is Ok ==> r->Ok_0 == old(self).nodes()[h->Some_0.key].native,
            final(self).nodes() == (match h {
                Some(h) => old(self).nodes().remove(h.key),
                None => old(self).nodes(),
            }),
            final(self).docs() == old(self).docs(),
            final(self).subscriptions() == old(self).subscriptions(),
    {
        match h {
            None => Err(BridgeError::NullArgument(ArgName::Handle)),
            Some(hk) => match self.destroy_node(h) {
                Some(n) => Ok(n),
                None => Err(BridgeError::StaleHandle(ArgName::Handle)),
            },
        }
    }

    /// Hands a document of node `node` to the caller.
    pub fn register_doc(&mut self, node: IrohNodeHandle, doc: D) -> (r: Result<IrohDocHandle, BridgeError>)
        requires
            old(self).wf(),
        ensures
            final(self).wf(),
            r is Ok == docs_node_check(old(self).nodes(), Some(node)) is Ok,
            r is Err ==> r->Err_0 == docs_node_check(old(self).nodes(), Some(node))->Err_0,
            r is Err ==> final(self).docs() == old(self).docs(),
            r is Ok ==> !old(self).doc_issued(r->Ok_0.key),
            r is Ok ==> final(self).docs() == old(self).docs().insert(r->Ok_0.key, DocEntry { doc, node }),
            final(self).nodes() == old(self).nodes(),
            final(self).subscriptions() == old(self).subscriptions(),
    {
        match self.nodes.get(node.key) {
            None => Err(BridgeError::StaleHandle(ArgName::Handle)),
            Some(e) => if !e.docs_enabled {
                Err(BridgeError::DocsNotEnabled)
            } else {
                let ghost pre = *self;
                let k = self.docs.insert(DocEntry { doc, node });
                proof {
                    assert forall|j: HandleKey| #[trigger] self.docs.live().contains_key(j) implies self.nodes.issued(
                        self.docs.live()[j].node.key,
                    ) by {
                        if j != k {
                            assert(pre.docs.live().contains_key(j));
                        } else {
                            pre.nodes.lemma_live_issued(node.key);
                        }
                    }
                    assert forall|j: HandleKey| #[trigger]
                        self.docs.live().contains_key(j) && self.nodes.live().contains_key(
                            self.docs.live()[j].node.key,
                        ) implies self.nodes.live()[self.docs.live()[j].node.key].docs_enabled by {
                        if j != k {
                            assert(pre.docs.live().contains_key(j));
                        }
                    }
                }
                Ok(IrohDocHandle { key: k })
            },
        }
    }

    /// Resolves a document handle to the document and its node.
    pub fn doc(&self, h: Option<IrohDocHandle>) -> (r: Result<(&D, &N), BridgeError>)
        requires
            self.wf(),
        ensures
            r is Ok == doc_check(self.nodes(), self.docs(), h) is Ok,
            r is Err ==> r->Err_0 == doc_check(self.nodes(), self.docs(), h)->Err_0,
            r is Ok ==> *r->Ok_0.0 == self.docs()[h->Some_0.key].doc,
            r is Ok ==> *r->Ok_0.1 == self.nodes()[self.docs()[h->Some_0.key].node.key].native,
            r is Ok ==> self.nodes()[self.docs()[h->Some_0.key].node.key].docs_enabled,
    {
        match h {
            None => Err(BridgeError::NullArgument(ArgName::DocHandle)),
            Some(h) => match self.docs.get(h.key) {
                None => Err(BridgeError::StaleHandle(ArgName::DocHandle)),
                Some(d) => match self.nodes.get(d.node.key) {
                    None => Err(BridgeError::StaleHandle(ArgName::Handle)),
                    Some(n) => {
                        assert(self.docs.live().contains_key(h.key));
                        Ok((&d.doc, &n.native))
                    },
                },
            },
        }
    }

    /// Takes a document back from the caller; a null or dead handle is a
    /// no-op.
    pub fn close_doc(&mut self, h: Option<IrohDocHandle>) -> (r: Option<D>)
        requires
            old(self).wf(),
        ensures
            final(self).wf(),
            r is Some == (h is Some && old(self).docs().contains_key(h->Some_0.key)),
            r is Some ==> r->Some_0 == old(self).docs()[h->Some_0.key].doc,
            final(self).docs() == (match h {
                Some(h) => old(self).docs().remove(h.key),
                None => old(self).docs(),
            }),
            final(self).nodes() == old(self).nodes(),
            final(self).subscriptions() == old(self).subscriptions(),
    {
        match h {
            None => None,
            Some(h) => {
                let ghost pre = *self;
                let r = self.docs.remove(h.key);
                proof {
                    assert forall|j: HandleKey| #[trigger] self.docs.live().contains_key(j) implies self.nodes.issued(
                        self.docs.live()[j].node.key,
                    ) by {
                        assert(pre.docs.live().contains_key(j));
                    }
                    assert forall|j: HandleKey| #[trigger]
                        self.docs.live().contains_key(j) && self.nodes.live().contains_key(
                            self.docs.live()[j].node.key,
                        ) implies self.nodes.live()[self.docs.live()[j].node.key].docs_enabled by {
                        assert(pre.docs.live().contains_key(j));
                    }
                }
                match r {
                    Some(e) => Some(e.doc),
                    None => None,
                }
            },
        }
    }

    /// Hands a running subscription's control to the caller.
    pub fn register_subscription(&mut self, control: SubscriptionControl) -> (h: IrohSubscriptionHandle)
        requires
            old(self).wf(),
            control.is_armed(),
        ensures
            final(self).wf(),
            !old(self).subscription_issued(h.key),
            final(self).subscriptions() == old(self).subscriptions().insert(h.key, control),
            final(self).nodes() == old(self).nodes(),
            final(self).docs() == old(self).docs(),
    {
        let ghost pre = *self;
        let k = self.subscriptions.insert(control);
        proof {
            assert forall|j: HandleKey| #[trigger] self.subscriptions.live().contains_key(j) implies self.subscriptions.live()[j].is_armed() by {
                if j != k {
                    assert(pre.subscriptions.live().contains_key(j));
                }
            }
        }
        IrohSubscriptionHandle { key: k }
    }

    /// Cancels a subscription and releases its handle. The signal is sent
    /// once, and the token that comes back is the proof of it; a repeated,
    /// null or unknown handle sends nothing.
    pub fn cancel_subscription(&mut self, h: Option<IrohSubscriptionHandle>) -> (sent: Option<SignalSent>)
        requires
            old(self).wf(),
        ensures
            final(self).wf(),
            sent is Some == cancel_sends(old(self).subscriptions(), h),
            final(self).subscriptions() == cancel_leaves(old(self).subscriptions(), h),
            final(self).nodes() == old(self).nodes(),
            final(self).docs() == old(self).docs(),
    {
        match h {
            None => None,
            Some(hk) => {
                let ghost pre = *self;
                let taken = self.subscriptions.remove(hk.key);
                proof {
                    assert forall|j: HandleKey| #[trigger] self.subscriptions.live().contains_key(j) implies self.subscriptions.live()[j].is_armed() by {
                        assert(pre.subscriptions.live().contains_key(j));
                    }
                }
                match taken {
                    Some(control) => {
                        let mut control = control;
                        control.cancel()
                    },
                    None => None,
                }
            },
        }
    }

    /// A subscription that has not been cancelled is armed: cancelling it
    /// sends the signal.
    pub proof fn lemma_live_subscription_armed(&self, k: HandleKey)
        requires
            self.wf(),
            self.subscriptions().contains_key(k),
        ensures
            self.subscriptions()[k].is_armed(),
            cancel_sends(self.subscriptions(), Some(IrohSubscriptionHandle { key: k })),
    {
    }
}

} // verus!
