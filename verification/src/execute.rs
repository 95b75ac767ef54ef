//! The command/result multiplexer's decisions: classifying and
//! accumulating result items, tracking the failed-pending flag, and
//! resolving the final outcome of one execution.
use vstd::prelude::*;

verus! {

use crate::convert::i32_from_le;
use crate::convert::le_i32_val;
use crate::error::Error;
use crate::result_set::ResultSet;
use crate::result_set::Rows;
use crate::result_set::SybResult;

/// Accumulates the result items and diagnostics of one command execution
/// as the driver reports them, and remembers whether a failure signal was
/// seen.
pub struct ExecBuilder {
    pub results: Vec<SybResult>,
    pub messages: Vec<Error>,
    pub failed: bool,
}

/// The status code embedded in a status result: the single cell of its
/// single row, read as a 32-bit integer.
pub open spec fn status_cell(rows: Rows) -> Option<Seq<u8>> {
    if rows.rows@.len() >= 1 && rows.rows@[0].buffers@.len() >= 1 {
        match rows.rows@[0].buffers@[0] {
            None => None,
            Some(b) => Some(b@),
        }
    } else {
        None
    }
}

/// The diagnostic that explains a failed execution: the most severe
/// message, the last among equals, a missing severity ordering below
/// every present one.
pub open spec fn best_error(msgs: Seq<Error>) -> Error
    recommends
        msgs.len() > 0,
    decreases msgs.len(),
{
    if msgs.len() <= 1 {
        msgs[0]
    } else {
        let prior = best_error(msgs.drop_last());
        if sev_gt(prior.severity, msgs.last().severity) {
            prior
        } else {
            msgs.last()
        }
    }
}

pub open spec fn sev_gt(a: Option<i32>, b: Option<i32>) -> bool {
    match (a, b) {
        (Some(x), Some(y)) => x > y,
        (Some(_), None) => true,
        _ => false,
    }
}

fn sev_gt_x(a: Option<i32>, b: Option<i32>) -> (r: bool)
    ensures
        r == sev_gt(a, b),
{
    match (a, b) {
        (Some(x), Some(y)) => x > y,
        (Some(_), None) => true,
        _ => false,
    }
}

impl ExecBuilder {
    /// Every accumulated row-bearing item is well formed.
    pub open spec fn wf(&self) -> bool {
        forall|i: int|
            0 <= i < self.results@.len() ==> ((#[trigger] self.results@[i]) matches
                SybResult::Rows(rw) ==> rw.wf())
    }

    pub fn new() -> (r: Self)
        ensures
            r.wf(),
            r.results@.len() == 0,
            r.messages@.len() == 0,
            !r.failed,
    {
        ExecBuilder { results: Vec::new(), messages: Vec::new(), failed: false }
    }

    /// Appends diagnostics drained from the driver since the last step.
    pub fn add_messages(&mut self, msgs: Vec<Error>)
        ensures
            final(self).results == old(self).results,
            final(self).failed == old(self).failed,
            final(self).messages@ == old(self).messages@ + msgs@,
    {
        let mut m = msgs;
        self.messages.append(&mut m);
    }

    /// Appends a materialized row-bearing result.
    pub fn on_row_result(&mut self, rows: Rows)
        requires
            rows.wf(),
        ensures
            final(self).messages == old(self).messages,
            final(self).failed == old(self).failed,
            final(self).results@ == old(self).results@.push(SybResult::Rows(rows)),
            old(self).wf() ==> final(self).wf(),
    {
        self.results.push(SybResult::Rows(rows));
    }

    /// Extracts the 32-bit status code of a status result and appends it;
    /// a non-zero status marks the execution failed-pending.
    pub fn on_status_result(&mut self, rows: Rows) -> (r: Result<(), Error>)
        ensures
            old(self).wf() ==> final(self).wf(),
            final(self).messages == old(self).messages,
            ({
                match status_cell(rows) {
                    Some(b) => {
                        if b.len() == 4 {
                            r is Ok && final(self).results@ == old(self).results@.push(
                                SybResult::Status(le_i32_val(b) as i32),
                            ) && final(self).failed == (old(self).failed || le_i32_val(b) != 0)
                        } else {
                            r matches Err(e) && e.desc@ == "Invalid status result"@
                                && final(self).results == old(self).results
                                && final(self).failed == old(self).failed
                        }
                    },
                    None => r matches Err(e) && e.desc@ == "Invalid status result"@
                        && final(self).results == old(self).results
                        && final(self).failed == old(self).failed,
                }
            }),
    {
        if rows.rows.len() < 1 {
            return Err(Error::from_message("Invalid status result"));
        }
        let row = &rows.rows[0];
        if row.buffers.len() < 1 {
            return Err(Error::from_message("Invalid status result"));
        }
        let b = match &row.buffers[0] {
            None => {
                return Err(Error::from_message("Invalid status result"));
            },
            Some(b) => b,
        };
        if b.len() != 4 {
            return Err(Error::from_message("Invalid status result"));
        }
        let status = i32_from_le(b);
        self.results.push(SybResult::Status(status));
        if status != 0 {
            self.failed = true;
        }
        Ok(())
    }

    /// Marks the execution failed-pending after a command-failed signal;
    /// draining continues so later results and diagnostics still arrive.
    pub fn on_command_fail(&mut self)
        ensures
            final(self).results == old(self).results,
            final(self).messages == old(self).messages,
            final(self).failed,
            old(self).wf() ==> final(self).wf(),
    {
        self.failed = true;
    }

    /// Records the affected-row count of a completed command; the
    /// sentinel "no count" value appends nothing.
    pub fn on_command_done(&mut self, row_count: i64)
        ensures
            final(self).messages == old(self).messages,
            final(self).failed == old(self).failed,
            row_count >= 0 ==> final(self).results@ == old(self).results@.push(
                SybResult::UpdateCount(row_count as u64),
            ),
            row_count < 0 ==> final(self).results == old(self).results,
            old(self).wf() ==> final(self).wf(),
    {
        if row_count >= 0 {
            self.results.push(SybResult::UpdateCount(row_count as u64));
        }
    }

    /// Closes the execution: a failure surfaces the most severe (earliest
    /// among equals) diagnostic, or a generic report when none arrived;
    /// otherwise the accumulated items become the caller's result set.
    pub fn finish(self) -> (r: Result<ResultSet, Error>)
        requires
            self.wf(),
        ensures
            ({
                if !self.failed {
                    r matches Ok(rs) && rs.wf() && rs.results == self.results && rs.messages
                        == self.messages && rs.pos is None && rs.row_pos is None
                } else if self.messages@.len() == 0 {
                    r matches Err(e) && e.desc@ == "Query execution resulted in error"@
                } else {
                    r == Err::<ResultSet, Error>(best_error(self.messages@))
                }
            }),
    {
        if !self.failed {
            let rs = ResultSet::new(self.results, self.messages);
            return Ok(rs);
        }
        if self.messages.len() == 0 {
            return Err(Error::from_message("Query execution resulted in error"));
        }
        let msgs = self.messages;
        let mut best = msgs[0].clone();
        let mut i: usize = 1;
        proof {
            assert(msgs@.take(1).drop_last() =~= Seq::<Error>::empty());
            assert(msgs@.take(1)[0] == msgs@[0]);
            assert(best == best_error(msgs@.take(1)));
        }
        while i < msgs.len()
            invariant
                1 <= i <= msgs@.len(),
                best == best_error(msgs@.take(i as int)),
            decreases msgs@.len() - i,
        {
            proof {
                assert(msgs@.take(i + 1).drop_last() =~= msgs@.take(i as int));
                assert(msgs@.take(i + 1).last() == msgs@[i as int]);
            }
            if !sev_gt_x(best.severity(), msgs[i].severity()) {
                best = msgs[i].clone();
            }
            i = i + 1;
        }
        proof {
            assert(msgs@.take(msgs@.len() as int) =~= msgs@);
        }
        Err(best)
    }
}

} // verus!
