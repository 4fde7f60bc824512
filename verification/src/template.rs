//! The block template that workers prove against.
use vstd::prelude::*;

verus! {

/// A block template as the ledger hands it out. The pool reads the height and
/// the network's difficulty target; the rest (previous hash, transactions,
/// coinbase recipient, timestamps) travels to the workers as `payload`.
#[derive(Clone, Debug)]
pub struct BlockTemplate {
    /// Height that a block built from this template will have.
    pub block_height: u32,
    /// Difficulty target of the network: a lower hash is harder to find.
    pub difficulty_target: u64,
    /// What else a worker needs, in its encoded form.
    pub payload: Vec<u8>,
}

/// Mathematical value of a [`BlockTemplate`].
pub struct TemplateView {
    pub block_height: u32,
    pub difficulty_target: u64,
    pub payload: Seq<u8>,
}

impl View for BlockTemplate {
    type V = TemplateView;

    open spec fn view(&self) -> TemplateView {
        TemplateView {
            block_height: self.block_height,
            difficulty_target: self.difficulty_target,
            payload: self.payload@,
        }
    }
}

/// A fresh vector with the bytes of `bytes`.
pub fn copy_bytes(bytes: &Vec<u8>) -> (copy: Vec<u8>)
    ensures
        copy@ == bytes@,
{
    let mut copy: Vec<u8> = Vec::new();
    let mut i: usize = 0;
    while i < bytes.len()
        invariant
            i <= bytes@.len(),
            copy@ == bytes@.subrange(0, i as int),
        decreases bytes@.len() - i,
    {
        copy.push(bytes[i]);
        proof {
            assert(copy@ =~= bytes@.subrange(0, i + 1));
        }
        i += 1;
    }
    proof {
        assert(bytes@.subrange(0, bytes@.len() as int) =~= bytes@);
    }
    copy
}

impl BlockTemplate {
    /// A copy of the template, as it is sent to a worker.
    pub fn snapshot(&self) -> (copy: BlockTemplate)
        ensures
            copy@ == self@,
    {
        BlockTemplate {
            block_height: self.block_height,
            difficulty_target: self.difficulty_target,
            payload: copy_bytes(&self.payload),
        }
    }
}

} // verus!
