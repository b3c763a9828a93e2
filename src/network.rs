use vstd::prelude::*;

verus! {

/// The venue network a session is bound to.
#[derive(Debug, Clone, Copy, PartialEq, Eq, Structural)]
pub enum BaseUrl {
    Mainnet,
    Testnet,
}


} // verus!
