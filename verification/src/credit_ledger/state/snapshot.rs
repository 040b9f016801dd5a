//! The ledger's whole state as plain entry lists, so that it can be stored
//! between calls and restored exactly.
use vstd::prelude::*;

use crate::primitives::{Address, Bytes32};
use crate::table::{entries_map, key_at, lemma_entries_map_of_distinct, lemma_value_at, Table};
use crate::credit_ledger::event::FacilityContext;
use crate::credit_ledger::types::{
    CollateralAdjustment, CollateralSelection, ControlFramework, CreditLine, CustodyControl,
    DrawdownRecord, EnforcementReadiness, Grant, LineValuation, Pledge, RepaymentRecord,
    VaultPosition,
};
use super::{CreditLedger, LedgerState};

verus! {

/// Every record of the ledger, one list of (key, record) pairs per kind.
#[derive(Clone)]
pub struct CreditLedgerSnapshot {
    pub admin: Option<Address>,
    pub settlement_vault: Option<Address>,
    pub approvals: Vec<(Grant, bool)>,
    pub frameworks: Vec<(Bytes32, ControlFramework)>,
    pub positions: Vec<(Bytes32, VaultPosition)>,
    pub bar_sets: Vec<(Bytes32, Bytes32)>,
    pub selections: Vec<(Bytes32, CollateralSelection)>,
    pub controls: Vec<(Bytes32, CustodyControl)>,
    pub pledges: Vec<(Bytes32, Pledge)>,
    pub lines: Vec<(Bytes32, CreditLine)>,
    pub line_for_pledge: Vec<(Bytes32, Bytes32)>,
    pub valuations: Vec<(Bytes32, LineValuation)>,
    pub draws: Vec<(Bytes32, DrawdownRecord)>,
    pub repayments: Vec<(Bytes32, RepaymentRecord)>,
    pub adjustments: Vec<(Bytes32, CollateralAdjustment)>,
    pub readiness: Vec<(Bytes32, EnforcementReadiness)>,
    pub framework_seq: Vec<(Bytes32, u64)>,
    pub ctx_position: Vec<(Bytes32, Bytes32)>,
    pub ctx_pledge: Vec<(Bytes32, FacilityContext)>,
    pub ctx_line: Vec<(Bytes32, FacilityContext)>,
    pub ctx_adjustment: Vec<(Bytes32, FacilityContext)>,
}

/// The state a snapshot describes: each list read as a map, a later entry
/// winning over an earlier one with the same key.
pub open spec fn snapshot_state(s: CreditLedgerSnapshot) -> LedgerState {
    LedgerState {
        admin: s.admin,
        settlement_vault: s.settlement_vault,
        approvals: entries_map(s.approvals@),
        frameworks: entries_map(s.frameworks@),
        positions: entries_map(s.positions@),
        bar_sets: entries_map(s.bar_sets@),
        selections: entries_map(s.selections@),
        controls: entries_map(s.controls@),
        pledges: entries_map(s.pledges@),
        lines: entries_map(s.lines@),
        line_for_pledge: entries_map(s.line_for_pledge@),
        valuations: entries_map(s.valuations@),
        draws: entries_map(s.draws@),
        repayments: entries_map(s.repayments@),
        adjustments: entries_map(s.adjustments@),
        readiness: entries_map(s.readiness@),
        framework_seq: entries_map(s.framework_seq@),
        ctx_position: entries_map(s.ctx_position@),
        ctx_pledge: entries_map(s.ctx_pledge@),
        ctx_line: entries_map(s.ctx_line@),
        ctx_adjustment: entries_map(s.ctx_adjustment@),
    }
}

impl CreditLedger {
    /// The whole state as entry lists; restoring it gives this ledger back.
    pub fn snapshot(&self) -> (r: CreditLedgerSnapshot)
        requires
            self.wf(),
        ensures
            snapshot_state(r) == self@,
    {
        let r = CreditLedgerSnapshot {
            admin: self.admin,
            settlement_vault: self.settlement_vault,
            approvals: self.approvals.entries(),
            frameworks: self.frameworks.entries(),
            positions: self.positions.entries(),
            bar_sets: self.bar_sets.entries(),
            selections: self.selections.entries(),
            controls: self.controls.entries(),
            pledges: self.pledges.entries(),
            lines: self.lines.entries(),
            line_for_pledge: self.line_for_pledge.entries(),
            valuations: self.valuations.entries(),
            draws: self.draws.entries(),
            repayments: self.repayments.entries(),
            adjustments: self.adjustments.entries(),
            readiness: self.readiness.entries(),
            framework_seq: self.framework_seq.entries(),
            ctx_position: self.ctx_position.entries(),
            ctx_pledge: self.ctx_pledge.entries(),
            ctx_line: self.ctx_line.entries(),
            ctx_adjustment: self.ctx_adjustment.entries(),
        };
        proof {
            lemma_entries_map_of_distinct(r.approvals@);
            lemma_entries_map_of_distinct(r.frameworks@);
            lemma_entries_map_of_distinct(r.positions@);
            lemma_entries_map_of_distinct(r.bar_sets@);
            lemma_entries_map_of_distinct(r.selections@);
            lemma_entries_map_of_distinct(r.controls@);
            lemma_entries_map_of_distinct(r.pledges@);
            lemma_entries_map_of_distinct(r.lines@);
            lemma_entries_map_of_distinct(r.line_for_pledge@);
            lemma_entries_map_of_distinct(r.valuations@);
            lemma_entries_map_of_distinct(r.draws@);
            lemma_entries_map_of_distinct(r.repayments@);
            lemma_entries_map_of_distinct(r.adjustments@);
            lemma_entries_map_of_distinct(r.readiness@);
            lemma_entries_map_of_distinct(r.framework_seq@);
            lemma_entries_map_of_distinct(r.ctx_position@);
            lemma_entries_map_of_distinct(r.ctx_pledge@);
            lemma_entries_map_of_distinct(r.ctx_line@);
            lemma_entries_map_of_distinct(r.ctx_adjustment@);
            assert(snapshot_state(r) =~= self@);
        }
        r
    }

    /// The ledger a snapshot describes.
    pub fn restore(s: &CreditLedgerSnapshot) -> (r: CreditLedger)
        ensures
            r.wf(),
            r@ == snapshot_state(*s),
    {
        let r = CreditLedger {
            admin: s.admin,
            settlement_vault: s.settlement_vault,
            approvals: Table::from_entries(&s.approvals),
            frameworks: Table::from_entries(&s.frameworks),
            positions: Table::from_entries(&s.positions),
            bar_sets: Table::from_entries(&s.bar_sets),
            selections: Table::from_entries(&s.selections),
            controls: Table::from_entries(&s.controls),
            pledges: Table::from_entries(&s.pledges),
            lines: Table::from_entries(&s.lines),
            line_for_pledge: Table::from_entries(&s.line_for_pledge),
            valuations: Table::from_entries(&s.valuations),
            draws: Table::from_entries(&s.draws),
            repayments: Table::from_entries(&s.repayments),
            adjustments: Table::from_entries(&s.adjustments),
            readiness: Table::from_entries(&s.readiness),
            framework_seq: Table::from_entries(&s.framework_seq),
            ctx_position: Table::from_entries(&s.ctx_position),
            ctx_pledge: Table::from_entries(&s.ctx_pledge),
            ctx_line: Table::from_entries(&s.ctx_line),
            ctx_adjustment: Table::from_entries(&s.ctx_adjustment),
        };
        proof {
            assert(r@ =~= snapshot_state(*s));
        }
        r
    }

    /// Whether every framework's event sequence can still be incremented.
    /// This implies the bound each event-publishing operation requires (that
    /// the sequence of the framework its event goes to can be incremented),
    /// whichever framework that is.
    pub fn has_seq_headroom(&self) -> (r: bool)
        requires
            self.wf(),
        ensures
            r == self@.seq_headroom(),
    {
        let es = self.framework_seq.entries();
        let n = es.len();
        let mut i: usize = 0;
        while i < n
            invariant
                n == es@.len(),
                i <= n,
                crate::table::distinct_keys(es@),
                crate::table::seq_map(es@) == self@.framework_seq,
                forall|j: int| 0 <= j < i ==> es@[j].1 < u64::MAX,
            decreases n - i,
        {
            if es[i].1 == u64::MAX {
                proof {
                    lemma_value_at(es@, i as int, es@[i as int].0);
                    assert(self@.framework_seq.contains_key(es@[i as int].0));
                }
                return false;
            }
            i = i + 1;
        }
        proof {
            assert forall|f: Bytes32| #[trigger] self@.framework_seq.contains_key(f) implies self@.framework_seq[f]
                < u64::MAX by {
                let j = choose|j: int| #[trigger] key_at(es@, j, f);
                lemma_value_at(es@, j, f);
            }
        }
        true
    }
}

} // verus!
