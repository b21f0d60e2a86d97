//! Accumulates the SET clauses and parameters of a task update statement.

use vstd::prelude::*;
use vstd::string::*;
use crate::text::{join_spec, join_strings};

verus! {

/// A SQL parameter value.
#[derive(Clone, Debug)]
pub enum SqlValue {
    Null,
    Integer(i64),
    Text(String),
    Blob(Vec<u8>),
}

/// A SQL parameter's content, with text reduced to its view.
pub ghost enum ParamV {
    Null,
    Int(int),
    Text(Seq<char>),
    Blob(Seq<u8>),
}

/// The content of one parameter value.
pub open spec fn param_view(v: SqlValue) -> ParamV {
    match v {
        SqlValue::Null => ParamV::Null,
        SqlValue::Integer(i) => ParamV::Int(i as int),
        SqlValue::Text(t) => ParamV::Text(t@),
        SqlValue::Blob(b) => ParamV::Blob(b@),
    }
}

/// The contents of a parameter list.
pub open spec fn params_content(s: Seq<SqlValue>) -> Seq<ParamV> {
    s.map_values(|v: SqlValue| param_view(v))
}

/// Builder for a task `UPDATE` statement: SET clauses with their parameters,
/// and whether `updated_at` still has to be touched.
pub struct TaskUpdateBuilder {
    sets: Vec<String>,
    params: Vec<SqlValue>,
    touch_updated_at: bool,
    updated_at_written: bool,
}

impl TaskUpdateBuilder {
    /// The accumulated SET clauses.
    pub closed spec fn sets_view(&self) -> Seq<Seq<char>> {
        self.sets@.map_values(|s: String| s@)
    }

    /// The accumulated parameters.
    pub closed spec fn params_view(&self) -> Seq<SqlValue> {
        self.params@
    }

    /// Whether a change was recorded that must bump `updated_at`.
    pub closed spec fn touches_updated_at(&self) -> bool {
        self.touch_updated_at
    }

    /// Whether an `updated_at` clause has been appended.
    pub closed spec fn updated_at_written_view(&self) -> bool {
        self.updated_at_written
    }

    /// An empty builder.
    pub fn new() -> (r: TaskUpdateBuilder)
        ensures
            r.sets_view() == Seq::<Seq<char>>::empty(),
            r.params_view() == Seq::<SqlValue>::empty(),
            !r.touches_updated_at(),
            !r.updated_at_written_view(),
    {
        TaskUpdateBuilder {
            sets: Vec::new(),
            params: Vec::new(),
            touch_updated_at: false,
            updated_at_written: false,
        }
    }

    /// Record one SET clause with its parameter.
    pub fn add_set(&mut self, set_clause: &str, value: SqlValue)
        ensures
            final(self).sets_view() == old(self).sets_view().push(set_clause@),
            final(self).params_view() == old(self).params_view().push(value),
            final(self).touches_updated_at(),
            final(self).updated_at_written_view() == old(self).updated_at_written_view(),
    {
        self.sets.push(set_clause.to_owned());
        self.params.push(value);
        self.touch_updated_at = true;
        proof {
            assert(self.sets@.map_values(|s: String| s@) =~= old(self).sets_view().push(
                set_clause@,
            ));
        }
    }

    /// Record one SET clause that needs no parameter.
    pub fn add_raw_set(&mut self, set_clause: &str)
        ensures
            final(self).sets_view() == old(self).sets_view().push(set_clause@),
            final(self).params_view() == old(self).params_view(),
            final(self).touches_updated_at(),
            final(self).updated_at_written_view() == old(self).updated_at_written_view(),
    {
        self.sets.push(set_clause.to_owned());
        self.touch_updated_at = true;
        proof {
            assert(self.sets@.map_values(|s: String| s@) =~= old(self).sets_view().push(
                set_clause@,
            ));
        }
    }

    /// Whether any SET clause has been recorded.
    pub fn has_sets(&self) -> (r: bool)
        ensures
            r == (self.sets_view().len() > 0),
    {
        self.sets.len() > 0
    }

    /// Whether an `updated_at` clause has been appended.
    pub fn updated_at_written(&self) -> (r: bool)
        ensures
            r == self.updated_at_written_view(),
    {
        self.updated_at_written
    }

    /// Append the `updated_at` clause once, when some recorded change calls
    /// for it and it has not been written yet.
    pub fn finalize_updated_at(&mut self, now: i64)
        ensures
            ({
                if old(self).touches_updated_at() && !old(self).updated_at_written_view() && old(
                    self,
                ).sets_view().len() > 0 {
                    &&& final(self).sets_view() == old(self).sets_view().push("updated_at = ?"@)
                    &&& final(self).params_view() == old(self).params_view().push(
                        SqlValue::Integer(now),
                    )
                    &&& final(self).updated_at_written_view()
                    &&& final(self).touches_updated_at() == old(self).touches_updated_at()
                } else {
                    *final(self) == *old(self)
                }
            }),
    {
        if self.touch_updated_at && !self.updated_at_written && self.has_sets() {
            self.sets.push("updated_at = ?".to_owned());
            self.params.push(SqlValue::Integer(now));
            self.updated_at_written = true;
            proof {
                assert(self.sets@.map_values(|s: String| s@) =~= old(self).sets_view().push(
                    "updated_at = ?"@,
                ));
            }
        }
    }

    /// The finished statement and its parameters, with the row id appended
    /// as the last parameter; nothing when no SET clause was recorded.
    pub fn build(self, id: &str) -> (r: Option<(String, Vec<SqlValue>)>)
        ensures
            match r {
                None => self.sets_view().len() == 0,
                Some((sql, params)) => {
                    &&& self.sets_view().len() > 0
                    &&& sql@ == "UPDATE tasks SET "@ + join_spec(self.sets_view(), ", "@)
                        + " WHERE id = ?"@
                    &&& params@.len() == self.params_view().len() + 1
                    &&& forall|i: int|
                        0 <= i < self.params_view().len() ==> params@[i] == self.params_view()[i]
                    &&& params@.last() matches SqlValue::Text(t) && t@ == id@
                },
            },
    {
        if self.sets.len() == 0 {
            return None;
        }
        let mut sql = "UPDATE tasks SET ".to_owned();
        let joined = join_strings(&self.sets, ", ");
        sql.append(joined.as_str());
        sql.append(" WHERE id = ?");
        let mut params = self.params;
        params.push(SqlValue::Text(id.to_owned()));
        Some((sql, params))
    }
}

} // verus!
