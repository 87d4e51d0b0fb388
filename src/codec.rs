//! The P and Q parity checks of a pack, through a caller-supplied code.
//!
//! Both codes are Reed-Solomon codes over GF(64): P covers all 24 symbols
//! of a pack (20 data, 4 parity), Q covers its first 4 (2 data, 2 parity).
//! The field arithmetic lives behind `BlockCode`; this module holds the
//! policy: P is checked and, if need be, corrected first; Q is then checked
//! on the result and only reported, never corrected.
use vstd::prelude::*;

use crate::layout::PACK_SIZE;

verus! {

/// Symbols of a pack covered by the Q code.
pub const Q_BLOCK_SIZE: usize = 4;

/// The codec could not resolve the errors in a block.
#[derive(Debug, Clone, Copy, PartialEq, Eq)]
pub struct Unrecoverable;

/// A block error-correcting code over fixed-size blocks of 6-bit symbols.
///
/// An implementation answers from the block alone: `accepts` and `repair`
/// name those answers, and nothing more is assumed of them.
pub trait BlockCode {
    /// Whether the code takes `block` for a codeword (a zero syndrome).
    spec fn accepts(&self, block: &[u8]) -> bool;

    /// What error correction makes of `block`: the corrected block, or
    /// `None` when its errors are more than the code can resolve.
    spec fn repair(&self, block: &[u8]) -> Option<Vec<u8>>;

    /// Whether the block has a zero syndrome.
    fn is_correct(&self, block: &[u8]) -> (r: bool)
        ensures
            r == self.accepts(block),
    ;

    /// The block with its symbol errors corrected, or `Unrecoverable` when
    /// they are more than the code can resolve.
    fn correct_errors(&self, block: &[u8]) -> (r: Result<Vec<u8>, Unrecoverable>)
        ensures
            r is Ok <==> self.repair(block) is Some,
            r is Ok ==> r->Ok_0@ == self.repair(block)->Some_0@,
    ;
}

/// Whether `p` accepts the block that holds the symbols `s`.
pub open spec fn accepts_seq<P: BlockCode>(p: P, s: Seq<u8>) -> bool {
    exists|b: &[u8]| b@ == s && #[trigger] p.accepts(b)
}

/// What `p` makes of the block that holds the symbols `s`.
pub open spec fn repair_seq<P: BlockCode>(p: P, s: Seq<u8>) -> Option<Seq<u8>> {
    if exists|b: &[u8]| b@ == s {
        let b = choose|b: &[u8]| b@ == s;
        match p.repair(b) {
            Some(v) => Some(v@),
            None => None,
        }
    } else {
        None
    }
}

/// A code answers alike for blocks that hold the same symbols.
pub proof fn lemma_answers_by_symbols<P: BlockCode>(p: P, b: &[u8])
    ensures
        accepts_seq(p, b@) == p.accepts(b),
        repair_seq(p, b@) == match p.repair(b) {
            Some(v) => Some(v@),
            None => None::<Seq<u8>>,
        },
{
    broadcast use vstd::slice::group_slice_axioms;

    assert forall|c: &[u8]| c@ == b@ implies c == b by {
        assert(c =~= b);
    }
    if accepts_seq(p, b@) {
        let c = choose|c: &[u8]| c@ == b@ && #[trigger] p.accepts(c);
        assert(c == b);
    }
    let c = choose|c: &[u8]| c@ == b@;
    assert(c == b);
}

/// What the P code made of a pack.
pub enum PCheck {
    /// The pack is a codeword.
    Valid,
    /// The pack was not a codeword; this is the corrected block.
    Repaired(Vec<u8>),
    /// The pack was not a codeword and could not be corrected.
    Unrecoverable,
}

/// The outcome of checking one pack.
#[derive(Debug, Clone, Copy, PartialEq, Eq)]
pub struct CorrectResult {
    pub p_corrected: bool,
    pub p_uncorrected: bool,
    pub q_error: bool,
}

/// The pack after a P check, and whether it was corrected or found
/// uncorrectable. A repair of the wrong size counts as uncorrectable.
pub open spec fn settle_p(pack: Seq<u8>, check: PCheck) -> (Seq<u8>, bool, bool) {
    match check {
        PCheck::Valid => (pack, false, false),
        PCheck::Repaired(v) => if v@.len() == 24 {
            (v@, true, false)
        } else {
            (pack, false, true)
        },
        PCheck::Unrecoverable => (pack, false, true),
    }
}

/// The pack after P: the repair where P rejected it and the repair has
/// the size of a pack, else the pack as it was.
pub open spec fn corrected_pack<P: BlockCode>(p: P, pack: Seq<u8>) -> Seq<u8> {
    if !accepts_seq(p, pack) && repair_seq(p, pack) is Some && repair_seq(p, pack)->Some_0.len()
        == 24 {
        repair_seq(p, pack)->Some_0
    } else {
        pack
    }
}

/// The flags that checking `pack` against P, then its first four symbols
/// (after P) against Q, raises.
pub open spec fn pack_outcome<P: BlockCode, Q: BlockCode>(p: P, q: Q, pack: Seq<u8>) -> CorrectResult {
    let repaired = !accepts_seq(p, pack) && repair_seq(p, pack) is Some && repair_seq(
        p,
        pack,
    )->Some_0.len() == 24;
    CorrectResult {
        p_corrected: repaired,
        p_uncorrected: !accepts_seq(p, pack) && !repaired,
        q_error: !accepts_seq(q, corrected_pack(p, pack).subrange(0, 4)),
    }
}

/// A second check of a pack that the first left without a P failure or a
/// Q error, and that P accepts as it now stands (as it does where P left it
/// unchanged, and where P's repairs are codewords), raises no flag and
/// changes nothing.
pub proof fn lemma_second_pass_reports_nothing<P: BlockCode, Q: BlockCode>(
    p: P,
    q: Q,
    pack: Seq<u8>,
)
    requires
        pack.len() == 24,
        !pack_outcome(p, q, pack).p_uncorrected,
        !pack_outcome(p, q, pack).q_error,
        !pack_outcome(p, q, pack).p_corrected || accepts_seq(p, corrected_pack(p, pack)),
    ensures
        corrected_pack(p, corrected_pack(p, pack)) == corrected_pack(p, pack),
        pack_outcome(p, q, corrected_pack(p, pack)) == (CorrectResult {
            p_corrected: false,
            p_uncorrected: false,
            q_error: false,
        }),
{
}

/// Applies the outcome of a P check to a pack: a repair replaces the
/// bytes, anything else leaves them as they are. Q is not looked at.
pub fn apply_p_check(pack: &mut Vec<u8>, check: PCheck) -> (r: CorrectResult)
    requires
        old(pack)@.len() == PACK_SIZE,
    ensures
        final(pack)@ == settle_p(old(pack)@, check).0,
        r.p_corrected == settle_p(old(pack)@, check).1,
        r.p_uncorrected == settle_p(old(pack)@, check).2,
        !r.q_error,
        final(pack)@.len() == PACK_SIZE,
{
    match check {
        PCheck::Valid => CorrectResult { p_corrected: false, p_uncorrected: false, q_error: false },
        PCheck::Repaired(v) => {
            if v.len() == PACK_SIZE {
                *pack = v;
                CorrectResult { p_corrected: true, p_uncorrected: false, q_error: false }
            } else {
                CorrectResult { p_corrected: false, p_uncorrected: true, q_error: false }
            }
        },
        PCheck::Unrecoverable => CorrectResult {
            p_corrected: false,
            p_uncorrected: true,
            q_error: false,
        },
    }
}

/// The first `Q_BLOCK_SIZE` symbols of a pack.
pub fn q_block(pack: &Vec<u8>) -> (r: Vec<u8>)
    requires
        pack@.len() == PACK_SIZE,
    ensures
        r@ == pack@.subrange(0, 4),
{
    let r = vec![pack[0], pack[1], pack[2], pack[3]];
    assert(r@ =~= pack@.subrange(0, 4));
    r
}

/// Checks a pack against P, correcting it when P finds errors it can
/// resolve, then checks its first four symbols against Q.
///
/// The pack is rewritten only when P corrected it, and is never both
/// corrected and uncorrectable; Q's verdict is on the pack after P.
pub fn correct_pack<P: BlockCode, Q: BlockCode>(pack: &mut Vec<u8>, p: &P, q: &Q) -> (r:
    CorrectResult)
    requires
        old(pack)@.len() == PACK_SIZE,
    ensures
        final(pack)@ == corrected_pack(*p, old(pack)@),
        r == pack_outcome(*p, *q, old(pack)@),
        final(pack)@.len() == PACK_SIZE,
        !(r.p_corrected && r.p_uncorrected),
        !r.p_corrected ==> final(pack)@ == old(pack)@,
{
    let block = pack.as_slice();
    proof {
        lemma_answers_by_symbols(*p, block);
    }
    let check = if p.is_correct(block) {
        PCheck::Valid
    } else {
        match p.correct_errors(block) {
            Ok(fixed) => PCheck::Repaired(fixed),
            Err(_) => PCheck::Unrecoverable,
        }
    };
    let mut result = apply_p_check(pack, check);
    let head = q_block(pack);
    let head_block = head.as_slice();
    proof {
        lemma_answers_by_symbols(*q, head_block);
    }
    // Q is only reported: whether to correct it, and whether before or
    // after P, is left open.
    if !q.is_correct(head_block) {
        result.q_error = true;
    }
    result
}

} // verus!
