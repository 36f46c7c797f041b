//! Transactions, their instruction call-trees, and the pre-order walk over them.
use vstd::prelude::*;
use crate::bytes::{DecodeError, Pubkey};
use crate::codec::{base58, base58_of};

verus! {

broadcast use {vstd::std_specs::vec::group_vec_axioms, vstd::seq::group_seq_axioms};

/// One instruction of a transaction: the program that owns it, the accounts it
/// names, its raw payload and the instructions it invoked in turn (CPI).
pub struct Instruction {
    pub program_id: Pubkey,
    pub accounts: Vec<Pubkey>,
    pub data: Vec<u8>,
    pub inner: Vec<Instruction>,
}

/// A transaction as delivered by the block source.
pub struct Transaction {
    /// The transaction's first signature.
    pub signature: Vec<u8>,
    /// Set when the transaction failed on the ledger.
    pub failed: bool,
    /// Top-level instructions, in ledger order.
    pub instructions: Vec<Instruction>,
    /// Log lines, in emission order.
    pub logs: Vec<String>,
}

/// A block: its transactions in delivery order.
pub struct Block {
    pub transactions: Vec<Transaction>,
}

/// A visited instruction together with the top-level instruction it descends
/// from (itself, for a top-level instruction).
pub type Node<'a> = (&'a Instruction, &'a Instruction);

/// Pre-order walk of one instruction and its descendants.
pub open spec fn subtree(i: Instruction, top: Instruction) -> Seq<(Instruction, Instruction)>
    decreases i, 0nat,
{
    seq![(i, top)] + forest(i.inner@, top, i.inner@.len())
}

/// Pre-order walk of the first `n` instructions of `s`, one after the other.
pub open spec fn forest(s: Seq<Instruction>, top: Instruction, n: nat) -> Seq<
    (Instruction, Instruction),
>
    decreases s, n,
{
    if n == 0 || n > s.len() {
        seq![]
    } else {
        forest(s, top, (n - 1) as nat) + subtree(s[n - 1], top)
    }
}

/// Pre-order walk of the first `n` top-level instructions.
pub open spec fn walk(s: Seq<Instruction>, n: nat) -> Seq<(Instruction, Instruction)>
    decreases n,
{
    if n == 0 || n > s.len() {
        seq![]
    } else {
        walk(s, (n - 1) as nat) + subtree(s[n - 1], s[n - 1])
    }
}

/// Every instruction of the transaction in pre-order: a node before its
/// children, siblings in ledger order.
pub open spec fn flat(tx: Transaction) -> Seq<(Instruction, Instruction)> {
    walk(tx.instructions@, tx.instructions@.len())
}

pub open spec fn nodes_view(v: Seq<Node>) -> Seq<(Instruction, Instruction)> {
    v.map_values(|n: Node| (*n.0, *n.1))
}

fn push_subtree<'a>(i: &'a Instruction, top: &'a Instruction, out: &mut Vec<Node<'a>>)
    ensures
        nodes_view(final(out)@) == nodes_view(old(out)@) + subtree(*i, *top),
    decreases i, 0nat,
{
    out.push((i, top));
    let n = i.inner.len();
    let mut k: usize = 0;
    while k < n
        invariant
            n == i.inner@.len(),
            k <= n,
            nodes_view(out@) == nodes_view(old(out)@) + seq![(*i, *top)] + forest(i.inner@, *top, k as nat),
        decreases n - k,
    {
        assert(decreases_to!(*i => i.inner@[k as int]));
        push_subtree(&i.inner[k], top, out);
        k = k + 1;
    }
}

/// The transaction's instructions in pre-order, each with its top-level
/// ancestor.
pub fn flatten(tx: &Transaction) -> (r: Vec<Node<'_>>)
    ensures
        nodes_view(r@) == flat(*tx),
{
    let mut out: Vec<Node> = Vec::new();
    let n = tx.instructions.len();
    let mut k: usize = 0;
    while k < n
        invariant
            n == tx.instructions@.len(),
            k <= n,
            nodes_view(out@) == walk(tx.instructions@, k as nat),
        decreases n - k,
    {
        let ix = &tx.instructions[k];
        push_subtree(ix, ix, &mut out);
        k = k + 1;
    }
    out
}

/// An instruction that was recognized but could not be decoded: its position
/// in the pre-order walk, and why.
#[derive(Debug, Clone, Copy, PartialEq, Eq, Structural)]
pub struct Failure {
    pub index: usize,
    pub error: DecodeError,
}

impl Transaction {
    /// The signature's conventional text form: its base-58 encoding.
    pub fn signature_text(&self) -> (r: String)
        ensures
            r@ == base58_of(self.signature@),
    {
        base58(self.signature.as_slice())
    }
}

impl Instruction {
    /// The account at position `i` of the instruction's account list.
    pub open spec fn spec_account(self, i: int) -> Result<Pubkey, DecodeError> {
        if 0 <= i < self.accounts@.len() {
            Ok(self.accounts@[i])
        } else {
            Err(DecodeError::AccountIndexOutOfRange)
        }
    }

    pub fn account(&self, i: usize) -> (r: Result<Pubkey, DecodeError>)
        ensures
            r == self.spec_account(i as int),
            r is Ok <==> i < self.accounts@.len(),
    {
        if i < self.accounts.len() {
            Ok(self.accounts[i])
        } else {
            Err(DecodeError::AccountIndexOutOfRange)
        }
    }
}

/// The walk visits a node before its children and siblings in ledger order:
/// for top-level instructions `[a, b]` where `b` invoked `c`, it visits `a`,
/// then `b`, then `c` (with `b` as its top-level ancestor).
pub proof fn law_preorder(tx: Transaction, a: Instruction, b: Instruction, c: Instruction)
    requires
        tx.instructions@ == seq![a, b],
        a.inner@.len() == 0,
        b.inner@ == seq![c],
        c.inner@.len() == 0,
    ensures
        flat(tx) == seq![(a, a), (b, b), (c, b)],
{
    assert(forest(a.inner@, a, 0) =~= Seq::<(Instruction, Instruction)>::empty());
    assert(subtree(a, a) =~= seq![(a, a)]);
    assert(forest(c.inner@, b, 0) =~= Seq::<(Instruction, Instruction)>::empty());
    assert(subtree(c, b) =~= seq![(c, b)]);
    assert(b.inner@[0] == c);
    assert(forest(b.inner@, b, 0) =~= Seq::<(Instruction, Instruction)>::empty());
    assert(forest(b.inner@, b, 1) =~= seq![(c, b)]);
    assert(subtree(b, b) =~= seq![(b, b), (c, b)]);
    assert(tx.instructions@[0] == a && tx.instructions@[1] == b);
    assert(walk(tx.instructions@, 0) =~= Seq::<(Instruction, Instruction)>::empty());
    assert(walk(tx.instructions@, 1) =~= seq![(a, a)]);
    assert(walk(tx.instructions@, 2) =~= seq![(a, a), (b, b), (c, b)]);
}

proof fn lemma_walk_prefix(s1: Seq<Instruction>, s2: Seq<Instruction>, k: nat)
    requires
        k <= s1.len(),
    ensures
        walk(s1 + s2, k) == walk(s1, k),
    decreases k,
{
    if k > 0 {
        lemma_walk_prefix(s1, s2, (k - 1) as nat);
        assert((s1 + s2)[k - 1] == s1[k - 1]);
    }
}

/// Walking two runs of top-level instructions one after the other is walking
/// the first, then the second.
pub proof fn lemma_walk_concat(s1: Seq<Instruction>, s2: Seq<Instruction>, j: nat)
    requires
        j <= s2.len(),
    ensures
        walk(s1 + s2, s1.len() + j) == walk(s1, s1.len()) + walk(s2, j),
    decreases j,
{
    if j == 0 {
        lemma_walk_prefix(s1, s2, s1.len());
        assert(walk(s1, s1.len()) + walk(s2, 0) =~= walk(s1, s1.len()));
    } else {
        lemma_walk_concat(s1, s2, (j - 1) as nat);
        assert((s1 + s2)[s1.len() + j - 1] == s2[j - 1]);
        assert(walk(s1 + s2, s1.len() + j) =~= walk(s1, s1.len()) + walk(s2, j));
    }
}

} // verus!
