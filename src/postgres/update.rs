use vstd::prelude::*;

use crate::postgres::fragments::{
    pair_text, Column, ColumnValuePair, Condition, Expression, OutputExpression, TableName,
};
use crate::postgres::with::{with_prefix, UsableInWithQuery, WithClause, WithQueryModel};
use crate::tools::arity::views;
use crate::tools::display::{clause, join_items, join_with, push_clause, texts};
use crate::tools::{IntoFragment, IntoIteratorOfSameType};

verus! {

/// Model of an `UPDATE` statement with no `SET` pair yet.
pub struct BareUpdateModel {
    pub with: Option<Seq<WithQueryModel>>,
    pub table_name: Seq<char>,
}

/// Model of an `UPDATE` statement.
pub struct UpdateModel {
    pub with: Option<Seq<WithQueryModel>>,
    pub table_name: Seq<char>,
    pub values: Seq<(Seq<char>, Seq<char>)>,
    pub where_: Seq<Seq<char>>,
    pub returning: Seq<Seq<char>>,
}

/// The texts of a list of `<column> = <expression>` pairs.
pub open spec fn pair_texts(pairs: Seq<(Seq<char>, Seq<char>)>) -> Seq<Seq<char>> {
    pairs.map_values(|p: (Seq<char>, Seq<char>)| pair_text(p))
}

/// `[WITH ...] UPDATE <table> SET <col> = <expr>, ... [WHERE ... AND ...] [RETURNING ...]`
pub open spec fn update_text(m: UpdateModel) -> Seq<char> {
    with_prefix(m.with) + "UPDATE "@ + m.table_name + " SET "@ + join_with(
        pair_texts(m.values),
        ", "@,
    ) + clause(" WHERE "@, m.where_, " AND "@) + clause(" RETURNING "@, m.returning, ", "@)
}

/// Adds a `SET` pair to the model.
pub open spec fn update_set(m: UpdateModel, pair: (Seq<char>, Seq<char>)) -> UpdateModel {
    UpdateModel { values: m.values.push(pair), ..m }
}

/// Adds `WHERE` conditions to the model.
pub open spec fn update_where(m: UpdateModel, conditions: Seq<Seq<char>>) -> UpdateModel {
    UpdateModel { where_: m.where_ + conditions, ..m }
}

/// Adds `RETURNING` expressions to the model.
pub open spec fn update_returning(m: UpdateModel, outputs: Seq<Seq<char>>) -> UpdateModel {
    UpdateModel { returning: m.returning + outputs, ..m }
}

/// `set`, `where_` and `returning` touch different clauses, so they can be called in
/// any order: the statement, and so its text, is the same.
pub proof fn lemma_update_order(
    m: UpdateModel,
    pair: (Seq<char>, Seq<char>),
    conditions: Seq<Seq<char>>,
    outputs: Seq<Seq<char>>,
)
    ensures
        update_returning(update_where(m, conditions), outputs) == update_where(
            update_returning(m, outputs),
            conditions,
        ),
        update_set(update_where(m, conditions), pair) == update_where(update_set(m, pair), conditions),
        update_set(update_returning(m, outputs), pair) == update_returning(
            update_set(m, pair),
            outputs,
        ),
        update_text(update_returning(update_where(m, conditions), outputs)) == update_text(
            update_where(update_returning(m, outputs), conditions),
        ),
{
}

/// `where_` and `returning` only accumulate: two calls with `x` and then `y` give the
/// same statement as one call with `x` followed by `y`.
pub proof fn lemma_update_accumulates(m: UpdateModel, x: Seq<Seq<char>>, y: Seq<Seq<char>>)
    ensures
        update_where(update_where(m, x), y) == update_where(m, x + y),
        update_returning(update_returning(m, x), y) == update_returning(m, x + y),
{
    assert(m.where_ + x + y =~= m.where_ + (x + y));
    assert(m.returning + x + y =~= m.returning + (x + y));
}

/// An `UPDATE` statement before its first `SET` pair: it cannot be rendered yet.
#[must_use]
#[derive(Debug)]
pub struct BareUpdate {
    table_name: TableName,
    with: Option<WithClause>,
}

impl View for BareUpdate {
    type V = BareUpdateModel;

    closed spec fn view(&self) -> BareUpdateModel {
        BareUpdateModel {
            with: match self.with {
                Some(w) => Some(w@),
                None => None,
            },
            table_name: self.table_name@,
        }
    }
}

/// Starts an `UPDATE` statement on the given table.
pub fn update<N: IntoFragment<TableName>>(table_name: N) -> (r: BareUpdate)
    ensures
        r@ == (BareUpdateModel { with: None, table_name: table_name.fragment() }),
{
    BareUpdate { table_name: table_name.into_fragment(), with: None }
}

pub(crate) fn update_with(table_name: TableName, with: WithClause) -> (r: BareUpdate)
    ensures
        r@ == (BareUpdateModel { with: Some(with@), table_name: table_name@ }),
{
    BareUpdate { table_name, with: Some(with) }
}

impl BareUpdate {
    /// Adds the first `<column> = <value>` pair, which makes the statement usable.
    pub fn set<C: IntoFragment<Column>, E: IntoFragment<Expression>>(self, column: C, value: E) -> (r:
        Update)
        ensures
            r@ == (UpdateModel {
                with: self@.with,
                table_name: self@.table_name,
                values: seq![(column.fragment(), value.fragment())],
                where_: Seq::empty(),
                returning: Seq::empty(),
            }),
    {
        let mut values: Vec<ColumnValuePair> = Vec::new();
        values.push(ColumnValuePair::new(column.into_fragment(), value.into_fragment()));
        let r = Update {
            table_name: self.table_name,
            with: self.with,
            values,
            where_: Vec::new(),
            returning: Vec::new(),
        };
        assert(r@.values =~= seq![(column.fragment(), value.fragment())]);
        assert(r@.where_ =~= Seq::<Seq<char>>::empty());
        assert(r@.returning =~= Seq::<Seq<char>>::empty());
        r
    }
}

/// An `UPDATE` statement with at least one `SET` pair.
#[must_use]
#[derive(Debug, Clone)]
pub struct Update {
    table_name: TableName,
    with: Option<WithClause>,
    values: Vec<ColumnValuePair>,
    where_: Vec<Condition>,
    returning: Vec<OutputExpression>,
}

impl View for Update {
    type V = UpdateModel;

    closed spec fn view(&self) -> UpdateModel {
        UpdateModel {
            with: match self.with {
                Some(w) => Some(w@),
                None => None,
            },
            table_name: self.table_name@,
            values: views(self.values@),
            where_: texts(self.where_@),
            returning: texts(self.returning@),
        }
    }
}

impl Update {
    /// Adds a `<column> = <value>` pair to the `SET` clause.
    pub fn set<C: IntoFragment<Column>, E: IntoFragment<Expression>>(self, column: C, value: E) -> (r:
        Update)
        ensures
            r@ == update_set(self@, (column.fragment(), value.fragment())),
    {
        let mut s = self;
        let ghost before = s.values@;
        let pair = ColumnValuePair::new(column.into_fragment(), value.into_fragment());
        s.values.push(pair);
        assert(views(s.values@) =~= views(before).push((column.fragment(), value.fragment())));
        s
    }

    /// Adds `WHERE` conditions, joined with `AND` to each other and to earlier ones.
    pub fn where_<C: IntoIteratorOfSameType<Condition>>(self, conditions: C) -> (r: Update)
        ensures
            r@ == update_where(self@, conditions.items()),
    {
        let mut s = self;
        let mut more = conditions.into_some_iter();
        let ghost (before, added) = (s.where_@, more@);
        s.where_.append(&mut more);
        assert(texts(s.where_@) =~= texts(before) + views(added));
        s
    }

    /// Adds `RETURNING` expressions.
    pub fn returning<E: IntoIteratorOfSameType<OutputExpression>>(self, expressions: E) -> (r:
        Update)
        ensures
            r@ == update_returning(self@, expressions.items()),
    {
        let mut s = self;
        let mut more = expressions.into_some_iter();
        let ghost (before, added) = (s.returning@, more@);
        s.returning.append(&mut more);
        assert(texts(s.returning@) =~= texts(before) + views(added));
        s
    }

    /// Renders the statement.
    pub fn to_string(&self) -> (r: String)
        ensures
            r@ == update_text(self@),
    {
        let mut pairs: Vec<String> = Vec::new();
        let mut i: usize = 0;
        while i < self.values.len()
            invariant
                i <= self.values@.len(),
                texts(pairs@) == pair_texts(views(self.values@)).take(i as int),
            decreases self.values@.len() - i,
        {
            let ghost before = pairs@;
            pairs.push(self.values[i].to_string());
            assert(texts(pairs@) =~= texts(before).push(pair_text(self.values@[i as int]@)));
            assert(texts(pairs@) =~= pair_texts(views(self.values@)).take(i as int + 1));
            i = i + 1;
        }
        assert(pair_texts(views(self.values@)).take(i as int) =~= pair_texts(views(self.values@)));
        let mut s = WithClause::render_prefix(&self.with);
        s.append("UPDATE ");
        s.append(self.table_name.as_str());
        s.append(" SET ");
        let list = join_items(&pairs, ", ");
        s.append(list.as_str());
        push_clause(&mut s, " WHERE ", &self.where_, " AND ");
        push_clause(&mut s, " RETURNING ", &self.returning, ", ");
        assert(s@ =~= update_text(self@));
        s
    }
}

impl UsableInWithQuery for Update {
    open spec fn statement_text(&self) -> Seq<char> {
        update_text(self@)
    }

    fn render(&self) -> (r: String) {
        self.to_string()
    }
}

} // verus!
