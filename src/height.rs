//! Block heights as the consensus node represents them.

use vstd::prelude::*;

verus! {

/// Whether a block height fits the node's height type, which is a signed
/// 64-bit integer.
pub open spec fn representable(h: u64) -> bool {
    h <= i64::MAX as u64
}

/// A block height accepted by the consensus node.
#[derive(Debug, Clone, Copy, PartialEq, Eq)]
pub struct NodeHeight {
    value: u64,
}

impl View for NodeHeight {
    type V = u64;

    closed spec fn view(&self) -> u64 {
        self.value
    }
}

impl NodeHeight {
    #[verifier::type_invariant]
    spec fn inv(&self) -> bool {
        representable(self.value)
    }

    /// The height as a plain number.
    pub fn value(&self) -> (r: u64)
        ensures
            r == self@,
            representable(r),
    {
        proof {
            use_type_invariant(self);
        }
        self.value
    }
}

/// Relies on tendermint's `TryFrom<u64>` for `block::Height`, which accepts
/// exactly the heights that convert to an `i64`, and on `Height::value`,
/// which returns the number it was made from.
#[verifier::external_body]
fn tendermint_height(h: u64) -> (r: Option<u64>)
    ensures
        r == (if representable(h) { Some(h) } else { None::<u64> }),
{
    tendermint::block::Height::try_from(h).ok().map(|v| v.value())
}

/// Converts a height to the node's representation; `None` when the node
/// cannot represent it.
pub fn to_node_height(h: u64) -> (r: Option<NodeHeight>)
    ensures
        r is Some <==> representable(h),
        r matches Some(n) ==> n@ == h,
{
    match tendermint_height(h) {
        Some(v) => Some(NodeHeight { value: v }),
        None => None,
    }
}

} // verus!
