//! The collateral invariant of the credit ledger: the bar-set locks mirror
//! the positions that hold bars, each position carries at most one pledge and
//! each pledge at most one line. The lemmas here show that each kind of
//! change the operations make to the collateral books keeps it.
use vstd::prelude::*;

use crate::primitives::Bytes32;
use super::state::adjustments::relocked;
use super::state::LedgerState;
use super::types::{CreditLine, LineStatus, Pledge, PledgeStatus, PositionStatus, VaultPosition};

verus! {

/// A position still holds its bars: it is neither released nor enforced.
pub open spec fn holds_bars(status: PositionStatus) -> bool {
    status != PositionStatus::Released && status != PositionStatus::Enforced
}

/// The position statuses a pledged position can have.
pub open spec fn past_earmark(status: PositionStatus) -> bool {
    status == PositionStatus::Pledged || status == PositionStatus::ReleasePending || status
        == PositionStatus::Released || status == PositionStatus::Enforced
}

/// The bar-set locks mirror the positions that hold bars: each such position
/// locks its serials to itself, and every lock belongs to such a position.
pub open spec fn locks_consistent(s: LedgerState) -> bool {
    &&& forall|pid: Bytes32| #[trigger]
        s.positions.contains_key(pid) && holds_bars(s.positions[pid].status) ==> s.bar_sets.contains_key(
            s.positions[pid].serials_hash,
        ) && s.bar_sets[s.positions[pid].serials_hash] == pid
    &&& forall|h: Bytes32| #[trigger]
        s.bar_sets.contains_key(h) ==> s.positions.contains_key(s.bar_sets[h]) && s.positions[s.bar_sets[h]].serials_hash
            == h && holds_bars(s.positions[s.bar_sets[h]].status)
}

/// Each pledge sits on a registered position that has been pledged, a pledge
/// not yet released or enforced on one that still holds its bars, and no two
/// pledges share a position.
pub open spec fn pledges_consistent(s: LedgerState) -> bool {
    &&& forall|p: Bytes32| #[trigger]
        s.pledges.contains_key(p) ==> {
            &&& s.positions.contains_key(s.pledges[p].position_id)
            &&& past_earmark(s.positions[s.pledges[p].position_id].status)
            &&& (s.pledges[p].status != PledgeStatus::Released && s.pledges[p].status
                != PledgeStatus::Enforced ==> holds_bars(s.positions[s.pledges[p].position_id].status))
        }
    &&& forall|p1: Bytes32, p2: Bytes32|
        #![trigger s.pledges[p1], s.pledges[p2]]
        s.pledges.contains_key(p1) && s.pledges.contains_key(p2) && s.pledges[p1].position_id
            == s.pledges[p2].position_id ==> p1 == p2
}

/// Each line is the one line bound to its pledge, and a Defaulted line's
/// pledge is Defaulted.
pub open spec fn lines_consistent(s: LedgerState) -> bool {
    &&& forall|id: Bytes32| #[trigger]
        s.lines.contains_key(id) ==> s.line_for_pledge.contains_key(s.lines[id].pledge_id)
            && s.line_for_pledge[s.lines[id].pledge_id] == id
    &&& forall|id: Bytes32| #[trigger]
        s.lines.contains_key(id) && s.lines[id].status == LineStatus::Defaulted ==> s.pledges.contains_key(
            s.lines[id].pledge_id,
        ) && s.pledges[s.lines[id].pledge_id].status == PledgeStatus::Defaulted
}

/// The collateral books hang together: bar-set locks, pledges and lines.
pub open spec fn collateral_consistent(s: LedgerState) -> bool {
    &&& locks_consistent(s)
    &&& pledges_consistent(s)
    &&& lines_consistent(s)
}

/// `a` and `b` agree on the collateral books.
pub open spec fn same_books(a: LedgerState, b: LedgerState) -> bool {
    &&& a.positions == b.positions
    &&& a.bar_sets == b.bar_sets
    &&& a.pledges == b.pledges
    &&& a.lines == b.lines
    &&& a.line_for_pledge == b.line_for_pledge
}

pub proof fn lemma_same_books(s: LedgerState, post: LedgerState)
    requires
        collateral_consistent(s),
        same_books(s, post),
    ensures
        collateral_consistent(post),
{
}

/// A line changes without moving to another pledge and without becoming
/// Defaulted.
pub proof fn lemma_line_update(s: LedgerState, post: LedgerState, id: Bytes32, l: CreditLine)
    requires
        collateral_consistent(s),
        s.lines.contains_key(id),
        l.pledge_id == s.lines[id].pledge_id,
        l.status == LineStatus::Defaulted ==> s.lines[id].status == LineStatus::Defaulted,
        post.lines == s.lines.insert(id, l),
        post.positions == s.positions,
        post.bar_sets == s.bar_sets,
        post.pledges == s.pledges,
        post.line_for_pledge == s.line_for_pledge,
    ensures
        collateral_consistent(post),
{
    assert forall|i: Bytes32| #[trigger]
        post.lines.contains_key(i) && post.lines[i].status == LineStatus::Defaulted implies post.pledges.contains_key(
            post.lines[i].pledge_id,
        ) && post.pledges[post.lines[i].pledge_id].status == PledgeStatus::Defaulted by {
        assert(s.lines.contains_key(i));
    }
    assert forall|i: Bytes32| #[trigger] post.lines.contains_key(i) implies post.line_for_pledge.contains_key(
        post.lines[i].pledge_id,
    ) && post.line_for_pledge[post.lines[i].pledge_id] == i by {
        assert(s.lines.contains_key(i));
    }
}

/// A position that holds bars changes status, keeps holding them, and moves
/// forward if it was pledged.
pub proof fn lemma_position_relabel(s: LedgerState, post: LedgerState, pid: Bytes32, st: PositionStatus)
    requires
        collateral_consistent(s),
        s.positions.contains_key(pid),
        holds_bars(s.positions[pid].status),
        holds_bars(st),
        past_earmark(s.positions[pid].status) ==> past_earmark(st),
        post.positions == s.positions.insert(pid, VaultPosition { status: st, ..s.positions[pid] }),
        post.bar_sets == s.bar_sets,
        post.pledges == s.pledges,
        post.lines == s.lines,
        post.line_for_pledge == s.line_for_pledge,
    ensures
        collateral_consistent(post),
{
    assert forall|q: Bytes32| #[trigger]
        post.positions.contains_key(q) && holds_bars(post.positions[q].status) implies post.bar_sets.contains_key(
            post.positions[q].serials_hash,
        ) && post.bar_sets[post.positions[q].serials_hash] == q by {
        assert(s.positions.contains_key(q));
    }
    assert forall|h: Bytes32| #[trigger] post.bar_sets.contains_key(h) implies post.positions.contains_key(
        post.bar_sets[h],
    ) && post.positions[post.bar_sets[h]].serials_hash == h && holds_bars(
        post.positions[post.bar_sets[h]].status,
    ) by {
        assert(s.bar_sets.contains_key(h));
    }
    assert forall|p: Bytes32| #[trigger] post.pledges.contains_key(p) implies {
        &&& post.positions.contains_key(post.pledges[p].position_id)
        &&& past_earmark(post.positions[post.pledges[p].position_id].status)
        &&& (post.pledges[p].status != PledgeStatus::Released && post.pledges[p].status
            != PledgeStatus::Enforced ==> holds_bars(post.positions[post.pledges[p].position_id].status))
    } by {
        assert(s.pledges.contains_key(p));
    }
}

/// A new position that holds bars is registered under serials no one locks.
pub proof fn lemma_register_position(s: LedgerState, post: LedgerState, pid: Bytes32, pos: VaultPosition)
    requires
        collateral_consistent(s),
        !s.positions.contains_key(pid),
        holds_bars(pos.status),
        !past_earmark(pos.status),
        !s.bar_sets.contains_key(pos.serials_hash),
        post.positions == s.positions.insert(pid, pos),
        post.bar_sets == s.bar_sets.insert(pos.serials_hash, pid),
        post.pledges == s.pledges,
        post.lines == s.lines,
        post.line_for_pledge == s.line_for_pledge,
    ensures
        collateral_consistent(post),
{
    assert forall|q: Bytes32| #[trigger]
        post.positions.contains_key(q) && holds_bars(post.positions[q].status) implies post.bar_sets.contains_key(
            post.positions[q].serials_hash,
        ) && post.bar_sets[post.positions[q].serials_hash] == q by {
        if q != pid {
            assert(s.positions.contains_key(q));
        }
    }
    assert forall|h: Bytes32| #[trigger] post.bar_sets.contains_key(h) implies post.positions.contains_key(
        post.bar_sets[h],
    ) && post.positions[post.bar_sets[h]].serials_hash == h && holds_bars(
        post.positions[post.bar_sets[h]].status,
    ) by {
        if h != pos.serials_hash {
            assert(s.bar_sets.contains_key(h));
        }
    }
    assert forall|p: Bytes32| #[trigger] post.pledges.contains_key(p) implies {
        &&& post.positions.contains_key(post.pledges[p].position_id)
        &&& past_earmark(post.positions[post.pledges[p].position_id].status)
        &&& (post.pledges[p].status != PledgeStatus::Released && post.pledges[p].status
            != PledgeStatus::Enforced ==> holds_bars(post.positions[post.pledges[p].position_id].status))
    } by {
        assert(s.pledges.contains_key(p));
    }
}

/// A pledge is activated on an Earmarked position, which becomes Pledged.
pub proof fn lemma_activate_pledge(
    s: LedgerState,
    post: LedgerState,
    pledge_id: Bytes32,
    pledge: Pledge,
)
    requires
        collateral_consistent(s),
        !s.pledges.contains_key(pledge_id),
        pledge.status == PledgeStatus::Active,
        s.positions.contains_key(pledge.position_id),
        s.positions[pledge.position_id].status == PositionStatus::Earmarked,
        post.positions == s.positions.insert(
            pledge.position_id,
            VaultPosition { status: PositionStatus::Pledged, ..s.positions[pledge.position_id] },
        ),
        post.pledges == s.pledges.insert(pledge_id, pledge),
        post.bar_sets == s.bar_sets,
        post.lines == s.lines,
        post.line_for_pledge == s.line_for_pledge,
    ensures
        collateral_consistent(post),
{
    let pid = pledge.position_id;
    assert forall|q: Bytes32| #[trigger]
        post.positions.contains_key(q) && holds_bars(post.positions[q].status) implies post.bar_sets.contains_key(
            post.positions[q].serials_hash,
        ) && post.bar_sets[post.positions[q].serials_hash] == q by {
        assert(s.positions.contains_key(q));
    }
    assert forall|h: Bytes32| #[trigger] post.bar_sets.contains_key(h) implies post.positions.contains_key(
        post.bar_sets[h],
    ) && post.positions[post.bar_sets[h]].serials_hash == h && holds_bars(
        post.positions[post.bar_sets[h]].status,
    ) by {
        assert(s.bar_sets.contains_key(h));
    }
    assert forall|p: Bytes32| #[trigger] post.pledges.contains_key(p) implies {
        &&& post.positions.contains_key(post.pledges[p].position_id)
        &&& past_earmark(post.positions[post.pledges[p].position_id].status)
        &&& (post.pledges[p].status != PledgeStatus::Released && post.pledges[p].status
            != PledgeStatus::Enforced ==> holds_bars(post.positions[post.pledges[p].position_id].status))
    } by {
        if p != pledge_id {
            assert(s.pledges.contains_key(p));
        }
    }
    assert forall|p1: Bytes32, p2: Bytes32|
        post.pledges.contains_key(p1) && post.pledges.contains_key(p2) && #[trigger] post.pledges[p1].position_id
            == #[trigger] post.pledges[p2].position_id implies p1 == p2 by {
        if p1 != pledge_id {
            assert(s.pledges.contains_key(p1));
        }
        if p2 != pledge_id {
            assert(s.pledges.contains_key(p2));
        }
    }
    assert forall|i: Bytes32| #[trigger]
        post.lines.contains_key(i) && post.lines[i].status == LineStatus::Defaulted implies post.pledges.contains_key(
            post.lines[i].pledge_id,
        ) && post.pledges[post.lines[i].pledge_id].status == PledgeStatus::Defaulted by {
        assert(s.lines.contains_key(i));
    }
}

/// A new Active line is bound to a pledge that had no line.
pub proof fn lemma_open_line(s: LedgerState, post: LedgerState, id: Bytes32, l: CreditLine)
    requires
        collateral_consistent(s),
        !s.lines.contains_key(id),
        !s.line_for_pledge.contains_key(l.pledge_id),
        l.status == LineStatus::Active,
        post.lines == s.lines.insert(id, l),
        post.line_for_pledge == s.line_for_pledge.insert(l.pledge_id, id),
        post.positions == s.positions,
        post.bar_sets == s.bar_sets,
        post.pledges == s.pledges,
    ensures
        collateral_consistent(post),
{
    assert forall|i: Bytes32| #[trigger] post.lines.contains_key(i) implies post.line_for_pledge.contains_key(
        post.lines[i].pledge_id,
    ) && post.line_for_pledge[post.lines[i].pledge_id] == i by {
        if i != id {
            assert(s.lines.contains_key(i));
        }
    }
    assert forall|i: Bytes32| #[trigger]
        post.lines.contains_key(i) && post.lines[i].status == LineStatus::Defaulted implies post.pledges.contains_key(
            post.lines[i].pledge_id,
        ) && post.pledges[post.lines[i].pledge_id].status == PledgeStatus::Defaulted by {
        assert(s.lines.contains_key(i));
    }
}

/// A position's bar list, serials and weight change; where it holds bars its
/// lock moves to the new serials, which no one locked.
pub proof fn lemma_relock(s: LedgerState, post: LedgerState, pid: Bytes32, pos1: VaultPosition)
    requires
        collateral_consistent(s),
        s.positions.contains_key(pid),
        pos1.status == s.positions[pid].status,
        holds_bars(s.positions[pid].status) || pos1.serials_hash == s.positions[pid].serials_hash,
        pos1.serials_hash != s.positions[pid].serials_hash ==> !s.bar_sets.contains_key(pos1.serials_hash),
        post.positions == s.positions.insert(pid, pos1),
        post.bar_sets == relocked(s.bar_sets, s.positions[pid].serials_hash, pos1.serials_hash, pid),
        post.pledges == s.pledges,
        post.lines == s.lines,
        post.line_for_pledge == s.line_for_pledge,
    ensures
        collateral_consistent(post),
{
    let old_h = s.positions[pid].serials_hash;
    assert forall|q: Bytes32| #[trigger]
        post.positions.contains_key(q) && holds_bars(post.positions[q].status) implies post.bar_sets.contains_key(
            post.positions[q].serials_hash,
        ) && post.bar_sets[post.positions[q].serials_hash] == q by {
        assert(s.positions.contains_key(q));
        if q != pid {
            assert(s.bar_sets[s.positions[q].serials_hash] == q);
        }
    }
    assert forall|h: Bytes32| #[trigger] post.bar_sets.contains_key(h) implies post.positions.contains_key(
        post.bar_sets[h],
    ) && post.positions[post.bar_sets[h]].serials_hash == h && holds_bars(
        post.positions[post.bar_sets[h]].status,
    ) by {
        if h != pos1.serials_hash {
            assert(s.bar_sets.contains_key(h));
        }
    }
    assert forall|p: Bytes32| #[trigger] post.pledges.contains_key(p) implies {
        &&& post.positions.contains_key(post.pledges[p].position_id)
        &&& past_earmark(post.positions[post.pledges[p].position_id].status)
        &&& (post.pledges[p].status != PledgeStatus::Released && post.pledges[p].status
            != PledgeStatus::Enforced ==> holds_bars(post.positions[post.pledges[p].position_id].status))
    } by {
        assert(s.pledges.contains_key(p));
    }
}

/// A pledge, its position and its line move together: the pledge and line
/// take new statuses, the position a new status (releasing its bars and its
/// lock when `unlock`).
pub proof fn lemma_pledge_move(
    s: LedgerState,
    post: LedgerState,
    pledge_id: Bytes32,
    pst: PledgeStatus,
    st: PositionStatus,
    unlock: bool,
    touches_line: bool,
    line_id: Bytes32,
    l: CreditLine,
)
    requires
        collateral_consistent(s),
        s.pledges.contains_key(pledge_id),
        s.pledges[pledge_id].status != PledgeStatus::Released,
        s.pledges[pledge_id].status != PledgeStatus::Enforced,
        past_earmark(st),
        unlock == !holds_bars(st),
        unlock ==> (pst == PledgeStatus::Released || pst == PledgeStatus::Enforced),
        post.pledges == s.pledges.insert(pledge_id, Pledge { status: pst, ..s.pledges[pledge_id] }),
        post.positions == s.positions.insert(
            s.pledges[pledge_id].position_id,
            VaultPosition { status: st, ..s.positions[s.pledges[pledge_id].position_id] },
        ),
        post.bar_sets == (if unlock {
            s.bar_sets.remove(s.positions[s.pledges[pledge_id].position_id].serials_hash)
        } else {
            s.bar_sets
        }),
        post.line_for_pledge == s.line_for_pledge,
        post.lines == (if touches_line {
            s.lines.insert(line_id, l)
        } else {
            s.lines
        }),
        touches_line ==> s.lines.contains_key(line_id) && s.lines[line_id].pledge_id == pledge_id
            && l.pledge_id == pledge_id,
        touches_line && l.status == LineStatus::Defaulted ==> pst == PledgeStatus::Defaulted,
        s.pledges[pledge_id].status == PledgeStatus::Defaulted && pst != PledgeStatus::Defaulted
            ==> touches_line && l.status != LineStatus::Defaulted,
    ensures
        collateral_consistent(post),
{
    let pid = s.pledges[pledge_id].position_id;
    let h = s.positions[pid].serials_hash;
    assert(s.positions.contains_key(pid));
    assert(holds_bars(s.positions[pid].status));
    assert(s.bar_sets[h] == pid);
    assert forall|q: Bytes32| #[trigger]
        post.positions.contains_key(q) && holds_bars(post.positions[q].status) implies post.bar_sets.contains_key(
            post.positions[q].serials_hash,
        ) && post.bar_sets[post.positions[q].serials_hash] == q by {
        assert(s.positions.contains_key(q));
        if q != pid {
            assert(s.bar_sets[s.positions[q].serials_hash] == q);
        }
    }
    assert forall|k: Bytes32| #[trigger] post.bar_sets.contains_key(k) implies post.positions.contains_key(
        post.bar_sets[k],
    ) && post.positions[post.bar_sets[k]].serials_hash == k && holds_bars(
        post.positions[post.bar_sets[k]].status,
    ) by {
        assert(s.bar_sets.contains_key(k));
    }
    assert forall|p: Bytes32| #[trigger] post.pledges.contains_key(p) implies {
        &&& post.positions.contains_key(post.pledges[p].position_id)
        &&& past_earmark(post.positions[post.pledges[p].position_id].status)
        &&& (post.pledges[p].status != PledgeStatus::Released && post.pledges[p].status
            != PledgeStatus::Enforced ==> holds_bars(post.positions[post.pledges[p].position_id].status))
    } by {
        assert(s.pledges.contains_key(p));
        if p != pledge_id {
            assert(s.pledges[p].position_id != pid);
        }
    }
    assert forall|p1: Bytes32, p2: Bytes32|
        post.pledges.contains_key(p1) && post.pledges.contains_key(p2) && #[trigger] post.pledges[p1].position_id
            == #[trigger] post.pledges[p2].position_id implies p1 == p2 by {
        assert(s.pledges.contains_key(p1));
        assert(s.pledges.contains_key(p2));
        assert(s.pledges[p1].position_id == s.pledges[p2].position_id);
    }
    assert forall|i: Bytes32| #[trigger] post.lines.contains_key(i) implies post.line_for_pledge.contains_key(
        post.lines[i].pledge_id,
    ) && post.line_for_pledge[post.lines[i].pledge_id] == i by {
        assert(s.lines.contains_key(i));
    }
    assert forall|i: Bytes32| #[trigger]
        post.lines.contains_key(i) && post.lines[i].status == LineStatus::Defaulted implies post.pledges.contains_key(
            post.lines[i].pledge_id,
        ) && post.pledges[post.lines[i].pledge_id].status == PledgeStatus::Defaulted by {
        assert(s.lines.contains_key(i));
        if !(touches_line && i == line_id) {
            assert(s.lines[i] == post.lines[i]);
            if touches_line && s.lines[i].pledge_id == pledge_id {
                assert(s.line_for_pledge[pledge_id] == i);
                assert(s.line_for_pledge[pledge_id] == line_id);
            }
        }
    }
}

} // verus!
