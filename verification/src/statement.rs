//! A reusable statement: compiled query text plus bound parameter slots.
use vstd::prelude::*;

verus! {

use crate::column_id::ColumnId;
use crate::opt_name_view;
use crate::parse_query;
use crate::spec_parse;
use crate::value::Value;
use crate::ParsedQuery;

/// A compiled query together with one value slot per placeholder.
pub struct Statement {
    pub text: String,
    pub query: ParsedQuery,
    pub params: Vec<Value>,
}

impl Statement {
    /// One value slot per placeholder, each slot a name of the query's
    /// parameter table.
    pub open spec fn wf(&self) -> bool {
        self.query.wf() && self.params@.len() == self.query.params@.len()
    }

    /// Compiles `text`; every parameter slot starts as SQL NULL.
    pub fn new(text: &str) -> (r: Statement)
        ensures
            r.wf(),
            r.text@ == text@,
            r.query@ == spec_parse(text@),
            forall|i: int| 0 <= i < r.params@.len() ==> r.params@[i] == Value::Null,
    {
        let query = parse_query(text);
        let n = query.params.len();
        let mut params: Vec<Value> = Vec::new();
        while params.len() < n
            invariant
                params@.len() <= n,
                forall|i: int| 0 <= i < params@.len() ==> params@[i] == Value::Null,
            decreases n - params@.len(),
        {
            params.push(Value::Null);
        }
        Statement { text: text.to_owned(), query, params }
    }

    /// Binds `value` to the slot at a position, or to every slot whose
    /// recorded name matches.
    pub fn set_param(&mut self, id: ColumnId, value: Value)
        requires
            old(self).wf(),
            id matches ColumnId::I32(i) ==> 0 <= i && (i as int) < old(self).params@.len(),
        ensures
            final(self).wf(),
            final(self).text == old(self).text,
            final(self).query == old(self).query,
            final(self).params@.len() == old(self).params@.len(),
            match id {
                ColumnId::I32(i) => final(self).params@ == old(self).params@.update(
                    i as int,
                    value,
                ),
                ColumnId::String(s) => forall|j: int|
                    0 <= j < old(self).params@.len() ==> (if opt_name_view(
                        old(self).query.params@[j],
                    ) == Some(s@) {
                        crate::value::veq(final(self).params@[j], value)
                    } else {
                        final(self).params@[j] == old(self).params@[j]
                    }),
            },
    {
        match id {
            ColumnId::I32(i) => {
                let idx = i as usize;
                self.params[idx] = value;
            },
            ColumnId::String(s) => {
                let mut j: usize = 0;
                while j < self.params.len()
                    invariant
                        old(self).wf(),
                        self.text == old(self).text,
                        self.query == old(self).query,
                        self.params@.len() == old(self).params@.len(),
                        j <= self.params@.len(),
                        forall|k: int|
                            0 <= k < j ==> (if opt_name_view(old(self).query.params@[k]) == Some(
                                s@,
                            ) {
                                crate::value::veq(self.params@[k], value)
                            } else {
                                self.params@[k] == old(self).params@[k]
                            }),
                        forall|k: int|
                            j <= k < self.params@.len() ==> self.params@[k] == old(
                                self,
                            ).params@[k],
                    decreases self.params@.len() - j,
                {
                    let matched = match &self.query.params[j] {
                        Some(n) => crate::str_eq(n.as_str(), s.as_str()),
                        None => false,
                    };
                    if matched {
                        let v = value.clone();
                        self.params[j] = v;
                    }
                    j = j + 1;
                }
            },
        }
    }

    /// The original query text.
    pub fn text(&self) -> (r: &str)
        ensures
            r@ == self.text@,
    {
        self.text.as_str()
    }

    /// The number of parameter slots.
    pub fn param_count(&self) -> (r: usize)
        ensures
            r == self.params@.len(),
    {
        self.params.len()
    }
}

} // verus!
