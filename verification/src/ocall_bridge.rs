//! The components of the bridge through which the enclave calls out to the untrusted worker:
//! the remote-attestation API and the on-chain API. A factory builds them from the worker's
//! node-API factory and block gossiper.
use vstd::prelude::*;
use std::sync::Arc;

verus! {

/// Calls `Arc::clone`, which makes another pointer to the same allocation.
#[verifier::external_body]
fn arc_clone<T>(a: &Arc<T>) -> (c: Arc<T>)
    ensures
        c == *a,
{
    a.clone()
}

/// The remote-attestation component.
pub struct RemoteAttestationOCall {}

/// The on-chain component: it reaches the node through the node-API factory and gossips
/// blocks through the block gossiper.
pub struct WorkerOnChainOCall<N, B> {
    node_api_factory: Arc<N>,
    block_gossiper: Arc<B>,
}

impl<N, B> WorkerOnChainOCall<N, B> {
    pub closed spec fn spec_node_api_factory(&self) -> Arc<N> {
        self.node_api_factory
    }

    pub closed spec fn spec_block_gossiper(&self) -> Arc<B> {
        self.block_gossiper
    }

    /// An on-chain component over the given factory and gossiper.
    pub fn new(node_api_factory: Arc<N>, block_gossiper: Arc<B>) -> (c: Self)
        ensures
            c.spec_node_api_factory() == node_api_factory,
            c.spec_block_gossiper() == block_gossiper,
    {
        WorkerOnChainOCall { node_api_factory, block_gossiper }
    }

    /// The node-API factory.
    pub fn node_api_factory(&self) -> (f: &Arc<N>)
        ensures
            *f == self.spec_node_api_factory(),
    {
        &self.node_api_factory
    }

    /// The block gossiper.
    pub fn block_gossiper(&self) -> (g: &Arc<B>)
        ensures
            *g == self.spec_block_gossiper(),
    {
        &self.block_gossiper
    }
}

/// A factory of all the components of the bridge.
pub trait GetOCallBridgeComponents {
    type RemoteAttestationApi;

    type OnChainApi;

    /// The remote-attestation component.
    fn get_ra_api(&self) -> Arc<Self::RemoteAttestationApi>;

    /// The on-chain component.
    fn get_oc_api(&self) -> Arc<Self::OnChainApi>;
}

/// The factory of the bridge's components over the worker's node-API factory and block
/// gossiper.
pub struct OCallBridgeComponentFactory<N, B> {
    node_api_factory: Arc<N>,
    block_gossiper: Arc<B>,
}

impl<N, B> OCallBridgeComponentFactory<N, B> {
    pub closed spec fn spec_node_api_factory(&self) -> Arc<N> {
        self.node_api_factory
    }

    pub closed spec fn spec_block_gossiper(&self) -> Arc<B> {
        self.block_gossiper
    }

    /// A factory over the given node-API factory and block gossiper.
    pub fn new(node_api_factory: Arc<N>, block_gossiper: Arc<B>) -> (f: Self)
        ensures
            f.spec_node_api_factory() == node_api_factory,
            f.spec_block_gossiper() == block_gossiper,
    {
        OCallBridgeComponentFactory { node_api_factory, block_gossiper }
    }
}

impl<N, B> GetOCallBridgeComponents for OCallBridgeComponentFactory<N, B> {
    type RemoteAttestationApi = RemoteAttestationOCall;

    type OnChainApi = WorkerOnChainOCall<N, B>;

    fn get_ra_api(&self) -> (api: Arc<RemoteAttestationOCall>) {
        Arc::new(RemoteAttestationOCall {})
    }

    /// An on-chain component that shares the factory's node-API factory and gossiper.
    fn get_oc_api(&self) -> (api: Arc<WorkerOnChainOCall<N, B>>)
        ensures
            api.spec_node_api_factory() == self.spec_node_api_factory(),
            api.spec_block_gossiper() == self.spec_block_gossiper(),
    {
        Arc::new(
            WorkerOnChainOCall::new(arc_clone(&self.node_api_factory), arc_clone(&self.block_gossiper)),
        )
    }
}

} // verus!
