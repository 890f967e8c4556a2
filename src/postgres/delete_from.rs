use vstd::prelude::*;

use crate::postgres::fragments::{Condition, OutputExpression, TableName};
use crate::postgres::with::{with_prefix, UsableInWithQuery, WithClause, WithQueryModel};
use crate::tools::arity::views;
use crate::tools::display::{clause, push_clause, texts};
use crate::tools::{IntoFragment, IntoIteratorOfSameType};

verus! {

/// Model of a `DELETE FROM` statement.
pub struct DeleteFromModel {
    pub with: Option<Seq<WithQueryModel>>,
    pub table_name: Seq<char>,
    pub where_: Seq<Seq<char>>,
    pub returning: Seq<Seq<char>>,
}

/// `[WITH ...] DELETE FROM <table> [WHERE ... AND ...] [RETURNING ...]`
pub open spec fn delete_from_text(m: DeleteFromModel) -> Seq<char> {
    with_prefix(m.with) + "DELETE FROM "@ + m.table_name + clause(" WHERE "@, m.where_, " AND "@)
        + clause(" RETURNING "@, m.returning, ", "@)
}

/// Adds `WHERE` conditions to the model.
pub open spec fn delete_where(m: DeleteFromModel, conditions: Seq<Seq<char>>) -> DeleteFromModel {
    DeleteFromModel { where_: m.where_ + conditions, ..m }
}

/// Adds `RETURNING` expressions to the model.
pub open spec fn delete_returning(m: DeleteFromModel, outputs: Seq<Seq<char>>) -> DeleteFromModel {
    DeleteFromModel { returning: m.returning + outputs, ..m }
}

/// `where_` and `returning` can be called in either order: the statement, and so its
/// text, is the same.
pub proof fn lemma_delete_from_order(
    m: DeleteFromModel,
    conditions: Seq<Seq<char>>,
    outputs: Seq<Seq<char>>,
)
    ensures
        delete_returning(delete_where(m, conditions), outputs) == delete_where(
            delete_returning(m, outputs),
            conditions,
        ),
        delete_from_text(delete_returning(delete_where(m, conditions), outputs))
            == delete_from_text(delete_where(delete_returning(m, outputs), conditions)),
{
}

/// `where_` and `returning` only accumulate: two calls with `x` and then `y` give the
/// same statement as one call with `x` followed by `y`.
pub proof fn lemma_delete_from_accumulates(m: DeleteFromModel, x: Seq<Seq<char>>, y: Seq<Seq<char>>)
    ensures
        delete_where(delete_where(m, x), y) == delete_where(m, x + y),
        delete_returning(delete_returning(m, x), y) == delete_returning(m, x + y),
{
    assert(m.where_ + x + y =~= m.where_ + (x + y));
    assert(m.returning + x + y =~= m.returning + (x + y));
}

/// A `DELETE FROM` statement.
#[must_use]
#[derive(Debug, Clone)]
pub struct DeleteFrom {
    table_name: TableName,
    with: Option<WithClause>,
    where_: Vec<Condition>,
    returning: Vec<OutputExpression>,
}

impl View for DeleteFrom {
    type V = DeleteFromModel;

    closed spec fn view(&self) -> DeleteFromModel {
        DeleteFromModel {
            with: match self.with {
                Some(w) => Some(w@),
                None => None,
            },
            table_name: self.table_name@,
            where_: texts(self.where_@),
            returning: texts(self.returning@),
        }
    }
}

fn start(table_name: TableName, with: Option<WithClause>) -> (r: DeleteFrom)
    ensures
        r@ == (DeleteFromModel {
            with: match with {
                Some(w) => Some(w@),
                None => None,
            },
            table_name: table_name@,
            where_: Seq::empty(),
            returning: Seq::empty(),
        }),
{
    let r = DeleteFrom { table_name, with, where_: Vec::new(), returning: Vec::new() };
    assert(r@.where_ =~= Seq::<Seq<char>>::empty());
    assert(r@.returning =~= Seq::<Seq<char>>::empty());
    r
}

/// Starts a `DELETE FROM` statement on the given table.
pub fn delete_from<N: IntoFragment<TableName>>(table_name: N) -> (r: DeleteFrom)
    ensures
        r@ == (DeleteFromModel {
            with: None,
            table_name: table_name.fragment(),
            where_: Seq::empty(),
            returning: Seq::empty(),
        }),
{
    start(table_name.into_fragment(), None)
}

pub(crate) fn delete_from_with(table_name: TableName, with: WithClause) -> (r: DeleteFrom)
    ensures
        r@ == (DeleteFromModel {
            with: Some(with@),
            table_name: table_name@,
            where_: Seq::empty(),
            returning: Seq::empty(),
        }),
{
    start(table_name, Some(with))
}

impl DeleteFrom {
    /// Adds `WHERE` conditions, joined with `AND` to each other and to earlier ones.
    pub fn where_<C: IntoIteratorOfSameType<Condition>>(self, conditions: C) -> (r: DeleteFrom)
        ensures
            r@ == delete_where(self@, conditions.items()),
    {
        let mut s = self;
        let mut more = conditions.into_some_iter();
        let ghost (before, added) = (s.where_@, more@);
        s.where_.append(&mut more);
        assert(texts(s.where_@) =~= texts(before) + views(added));
        s
    }

    /// Adds `RETURNING` expressions.
    pub fn returning<E: IntoIteratorOfSameType<OutputExpression>>(self, expressions: E) -> (r:
        DeleteFrom)
        ensures
            r@ == delete_returning(self@, expressions.items()),
    {
        let mut s = self;
        let mut more = expressions.into_some_iter();
        let ghost (before, added) = (s.returning@, more@);
        s.returning.append(&mut more);
        assert(texts(s.returning@) =~= texts(before) + views(added));
        s
    }

    /// Renders the statement.
    pub fn to_string(&self) -> (r: String)
        ensures
            r@ == delete_from_text(self@),
    {
        let mut s = WithClause::render_prefix(&self.with);
        s.append("DELETE FROM ");
        s.append(self.table_name.as_str());
        push_clause(&mut s, " WHERE ", &self.where_, " AND ");
        push_clause(&mut s, " RETURNING ", &self.returning, ", ");
        assert(s@ =~= delete_from_text(self@));
        s
    }
}

impl UsableInWithQuery for DeleteFrom {
    open spec fn statement_text(&self) -> Seq<char> {
        delete_from_text(self@)
    }

    fn render(&self) -> (r: String) {
        self.to_string()
    }
}

} // verus!
