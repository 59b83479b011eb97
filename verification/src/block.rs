use vstd::prelude::*;

verus! {

/// A position in the chain: a block's hash and its number.
#[derive(Clone, Debug, PartialEq, Eq)]
pub struct BlockPointer {
    pub hash: Vec<u8>,
    pub number: u64,
}

/// What a [`BlockPointer`] stands for in contracts.
pub struct BlockPointerView {
    pub hash: Seq<u8>,
    pub number: u64,
}

impl View for BlockPointer {
    type V = BlockPointerView;

    open spec fn view(&self) -> BlockPointerView {
        BlockPointerView { hash: self.hash@, number: self.number }
    }
}

impl DeepView for BlockPointer {
    type V = BlockPointerView;

    open spec fn deep_view(&self) -> BlockPointerView {
        self@
    }
}

} // verus!
