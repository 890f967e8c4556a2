use vstd::prelude::*;

use crate::postgres::fragments::{
    pair_text, Column, ColumnValuePair, Expression, OutputExpression, TableName,
};
use crate::postgres::update::pair_texts;
use crate::postgres::with::{with_prefix, UsableInWithQuery, WithClause, WithQueryModel};
use crate::tools::arity::{array_into_vec, views};
use crate::tools::display::{clause, join_items, join_with, joined, push_clause, texts};
use crate::tools::{IntoFragment, IntoIteratorOfSameType, IntoNonZeroArray};

verus! {

/// `(<value>, <value>, ...)`
pub open spec fn row_text(row: Seq<Seq<char>>) -> Seq<char> {
    "("@ + join_with(row, ", "@) + ")"@
}

/// The texts of a list of rows.
pub open spec fn row_texts(rows: Seq<Seq<Seq<char>>>) -> Seq<Seq<char>> {
    rows.map_values(|row: Seq<Seq<char>>| row_text(row))
}

/// `(<row>), (<row>), ...`
pub open spec fn rows_text(rows: Seq<Seq<Seq<char>>>) -> Seq<char> {
    join_with(row_texts(rows), ", "@)
}

/// The models of rows of `N` expressions.
pub open spec fn row_views<const N: usize>(rows: Seq<[Expression; N]>) -> Seq<Seq<Seq<char>>> {
    rows.map_values(|row: [Expression; N]| views(row@))
}

/// The rows that an array of row arguments stands for.
pub open spec fn rows_of<T: IntoNonZeroArray<Expression, N>, const N: usize>(rows: Seq<T>) -> Seq<
    Seq<Seq<char>>,
> {
    rows.map_values(|t: T| t.row())
}

/// The `VALUES` part of an `INSERT INTO`: one of three exclusive shapes.
pub trait Values: View + Sized {
    spec fn values_text(m: Self::V) -> Seq<char>;

    fn render_values(&self) -> (r: String)
        ensures
            r@ == Self::values_text(self@),
    ;
}

/// `DEFAULT VALUES`
#[derive(Debug)]
pub struct DefaultValues;

impl View for DefaultValues {
    type V = ();

    open spec fn view(&self) -> () {
        ()
    }
}

impl Values for DefaultValues {
    open spec fn values_text(m: ()) -> Seq<char> {
        "DEFAULT VALUES"@
    }

    fn render_values(&self) -> (r: String) {
        "DEFAULT VALUES".to_owned()
    }
}

/// `VALUES (...), ...` with no column list; every row has `N` values.
#[derive(Debug)]
pub struct WithoutColumns<const N: usize> {
    values: Vec<[Expression; N]>,
}

impl<const N: usize> View for WithoutColumns<N> {
    type V = Seq<Seq<Seq<char>>>;

    closed spec fn view(&self) -> Seq<Seq<Seq<char>>> {
        row_views(self.values@)
    }
}

impl<const N: usize> Values for WithoutColumns<N> {
    open spec fn values_text(m: Seq<Seq<Seq<char>>>) -> Seq<char> {
        "VALUES "@ + rows_text(m)
    }

    fn render_values(&self) -> (r: String) {
        let mut s = "VALUES ".to_owned();
        let rows = render_rows(&self.values);
        s.append(rows.as_str());
        s
    }
}

/// Model of a `VALUES` part with a column list.
pub struct WithColumnsModel {
    pub columns: Seq<Seq<char>>,
    pub rows: Seq<Seq<Seq<char>>>,
}

/// `(<columns>) VALUES (...), ...`; the column list and every row have `N` items.
#[derive(Debug)]
pub struct WithColumns<const N: usize> {
    columns: [Column; N],
    values: Vec<[Expression; N]>,
}

impl<const N: usize> View for WithColumns<N> {
    type V = WithColumnsModel;

    closed spec fn view(&self) -> WithColumnsModel {
        WithColumnsModel { columns: views(self.columns@), rows: row_views(self.values@) }
    }
}

impl<const N: usize> Values for WithColumns<N> {
    open spec fn values_text(m: WithColumnsModel) -> Seq<char> {
        "("@ + join_with(m.columns, ", "@) + ") VALUES "@ + rows_text(m.rows)
    }

    fn render_values(&self) -> (r: String) {
        let mut names: Vec<String> = Vec::new();
        let mut i: usize = 0;
        while i < N
            invariant
                i <= N,
                self.columns@.len() == N,
                texts(names@) == views(self.columns@).take(i as int),
            decreases N - i,
        {
            let ghost before = names@;
            names.push(self.columns[i].as_str().to_owned());
            assert(texts(names@) =~= texts(before).push(self.columns@[i as int]@));
            assert(texts(names@) =~= views(self.columns@).take(i as int + 1));
            i = i + 1;
        }
        assert(views(self.columns@).take(N as int) =~= views(self.columns@));
        let mut s = "(".to_owned();
        let list = join_items(&names, ", ");
        s.append(list.as_str());
        s.append(") VALUES ");
        let rows = render_rows(&self.values);
        s.append(rows.as_str());
        s
    }
}

fn render_row<const N: usize>(row: &[Expression; N]) -> (r: String)
    ensures
        r@ == row_text(views(row@)),
{
    let mut items: Vec<String> = Vec::new();
    let mut i: usize = 0;
    while i < N
        invariant
            i <= N,
            row@.len() == N,
            texts(items@) == views(row@).take(i as int),
        decreases N - i,
    {
        let ghost before = items@;
        items.push(row[i].as_str().to_owned());
        assert(texts(items@) =~= texts(before).push(row@[i as int]@));
        assert(texts(items@) =~= views(row@).take(i as int + 1));
        i = i + 1;
    }
    assert(views(row@).take(N as int) =~= views(row@));
    let mut s = "(".to_owned();
    let list = join_items(&items, ", ");
    s.append(list.as_str());
    s.append(")");
    s
}

fn render_rows<const N: usize>(rows: &Vec<[Expression; N]>) -> (r: String)
    ensures
        r@ == rows_text(row_views(rows@)),
{
    let mut parts: Vec<String> = Vec::new();
    let mut i: usize = 0;
    while i < rows.len()
        invariant
            i <= rows@.len(),
            texts(parts@) == row_texts(row_views(rows@)).take(i as int),
        decreases rows@.len() - i,
    {
        let ghost before = parts@;
        parts.push(render_row(&rows[i]));
        assert(texts(parts@) =~= texts(before).push(row_text(views(rows@[i as int]@))));
        assert(texts(parts@) =~= row_texts(row_views(rows@)).take(i as int + 1));
        i = i + 1;
    }
    assert(row_texts(row_views(rows@)).take(i as int) =~= row_texts(row_views(rows@)));
    join_items(&parts, ", ")
}

/// Converts each row argument into a row of `N` expressions, keeping their order.
fn convert_rows<T: IntoNonZeroArray<Expression, N>, const N: usize, const M: usize>(rows: [T; M]) -> (r:
    Vec<[Expression; N]>)
    ensures
        row_views(r@) == rows_of(rows@),
{
    let ghost all = rows@;
    let mut pending = array_into_vec(rows);
    let mut out: Vec<[Expression; N]> = Vec::new();
    while pending.len() > 0
        invariant
            row_views(out@) + rows_of(pending@) == rows_of(all),
        decreases pending@.len(),
    {
        let ghost (done, rest) = (out@, pending@);
        let t = pending.remove(0);
        let row = t.into_non_zero_array();
        out.push(row);
        assert(row_views(out@) =~= row_views(done).push(t.row()));
        assert(rows_of(rest) =~= seq![t.row()] + rows_of(pending@));
        assert(row_views(out@) + rows_of(pending@) =~= row_views(done) + rows_of(rest));
    }
    assert(row_views(out@) + rows_of(pending@) =~= row_views(out@));
    out
}

/// Model of a conflict action.
pub enum ConflictActionModel {
    DoNothing,
    DoUpdateSet(Seq<(Seq<char>, Seq<char>)>),
}

/// `DO NOTHING` or `DO UPDATE SET <col> = <expr>, ...`
pub open spec fn conflict_action_text(a: ConflictActionModel) -> Seq<char> {
    match a {
        ConflictActionModel::DoNothing => "DO NOTHING"@,
        ConflictActionModel::DoUpdateSet(pairs) => "DO UPDATE SET "@ + join_with(
            pair_texts(pairs),
            ", "@,
        ),
    }
}

/// The action of an `ON CONFLICT` clause.
#[derive(Debug, Clone)]
pub enum ConflictAction {
    DoNothing,
    DoUpdateSet(Vec<ColumnValuePair>),
}

impl View for ConflictAction {
    type V = ConflictActionModel;

    closed spec fn view(&self) -> ConflictActionModel {
        match self {
            ConflictAction::DoNothing => ConflictActionModel::DoNothing,
            ConflictAction::DoUpdateSet(pairs) => ConflictActionModel::DoUpdateSet(views(pairs@)),
        }
    }
}

impl ConflictAction {
    /// Renders the action.
    pub fn to_string(&self) -> (r: String)
        ensures
            r@ == conflict_action_text(self@),
    {
        match self {
            ConflictAction::DoNothing => "DO NOTHING".to_owned(),
            ConflictAction::DoUpdateSet(pairs) => {
                let mut parts: Vec<String> = Vec::new();
                let mut i: usize = 0;
                while i < pairs.len()
                    invariant
                        i <= pairs@.len(),
                        texts(parts@) == pair_texts(views(pairs@)).take(i as int),
                    decreases pairs@.len() - i,
                {
                    let ghost before = parts@;
                    parts.push(pairs[i].to_string());
                    assert(texts(parts@) =~= texts(before).push(pair_text(pairs@[i as int]@)));
                    assert(texts(parts@) =~= pair_texts(views(pairs@)).take(i as int + 1));
                    i = i + 1;
                }
                assert(pair_texts(views(pairs@)).take(i as int) =~= pair_texts(views(pairs@)));
                let mut s = "DO UPDATE SET ".to_owned();
                let list = joined(&parts, ", ");
                s.append(list.as_str());
                s
            },
        }
    }
}

/// An `ON CONFLICT` clause.
#[derive(Debug, Clone)]
pub struct OnConflictClause {
    action: ConflictAction,
}

impl View for OnConflictClause {
    type V = ConflictActionModel;

    closed spec fn view(&self) -> ConflictActionModel {
        self.action@
    }
}

/// Model of an `INSERT INTO` statement, over the model of its `VALUES` part.
pub struct InsertIntoModel<M> {
    pub with: Option<Seq<WithQueryModel>>,
    pub table_name: Seq<char>,
    pub values: M,
    pub on_conflict: Option<ConflictActionModel>,
    pub returning: Seq<Seq<char>>,
}

/// `[WITH ...] INSERT INTO <table> <values> [ON CONFLICT <action>] [RETURNING ...]`
pub open spec fn insert_into_text<Vs: Values>(m: InsertIntoModel<Vs::V>) -> Seq<char> {
    with_prefix(m.with) + "INSERT INTO "@ + m.table_name + " "@ + Vs::values_text(m.values)
        + match m.on_conflict {
        Some(a) => " ON CONFLICT "@ + conflict_action_text(a),
        None => Seq::empty(),
    } + clause(" RETURNING "@, m.returning, ", "@)
}

/// Adds `RETURNING` expressions to the model.
pub open spec fn insert_returning<M>(m: InsertIntoModel<M>, outputs: Seq<Seq<char>>) -> InsertIntoModel<M> {
    InsertIntoModel { returning: m.returning + outputs, ..m }
}

/// Sets the `ON CONFLICT` action of the model.
pub open spec fn insert_on_conflict<M>(m: InsertIntoModel<M>, action: ConflictActionModel) -> InsertIntoModel<M> {
    InsertIntoModel { on_conflict: Some(action), ..m }
}

/// Adds rows to the model of a statement with a column list.
pub open spec fn insert_rows_with_columns(
    m: InsertIntoModel<WithColumnsModel>,
    rows: Seq<Seq<Seq<char>>>,
) -> InsertIntoModel<WithColumnsModel> {
    InsertIntoModel {
        values: WithColumnsModel { columns: m.values.columns, rows: m.values.rows + rows },
        ..m
    }
}

/// Adds rows to the model of a statement without a column list.
pub open spec fn insert_rows_without_columns(
    m: InsertIntoModel<Seq<Seq<Seq<char>>>>,
    rows: Seq<Seq<Seq<char>>>,
) -> InsertIntoModel<Seq<Seq<Seq<char>>>> {
    InsertIntoModel { values: m.values + rows, ..m }
}

/// Rows, `RETURNING` expressions and the `ON CONFLICT` action can be given in any order:
/// the statement, and so its text, is the same.
pub proof fn lemma_insert_into_order<const N: usize>(
    m: InsertIntoModel<WithColumnsModel>,
    rows: Seq<Seq<Seq<char>>>,
    outputs: Seq<Seq<char>>,
    action: ConflictActionModel,
)
    ensures
        insert_returning(insert_rows_with_columns(m, rows), outputs) == insert_rows_with_columns(
            insert_returning(m, outputs),
            rows,
        ),
        insert_on_conflict(insert_rows_with_columns(m, rows), action) == insert_rows_with_columns(
            insert_on_conflict(m, action),
            rows,
        ),
        insert_on_conflict(insert_returning(m, outputs), action) == insert_returning(
            insert_on_conflict(m, action),
            outputs,
        ),
        insert_into_text::<WithColumns<N>>(insert_on_conflict(insert_returning(m, outputs), action))
            == insert_into_text::<WithColumns<N>>(
            insert_returning(insert_on_conflict(m, action), outputs),
        ),
{
}

/// Rows and `RETURNING` expressions only accumulate: two calls with `x` and then `y` give
/// the same statement as one call with `x` followed by `y`.
pub proof fn lemma_insert_into_accumulates(
    m: InsertIntoModel<WithColumnsModel>,
    n: InsertIntoModel<Seq<Seq<Seq<char>>>>,
    x: Seq<Seq<Seq<char>>>,
    y: Seq<Seq<Seq<char>>>,
    a: Seq<Seq<char>>,
    b: Seq<Seq<char>>,
)
    ensures
        insert_rows_with_columns(insert_rows_with_columns(m, x), y) == insert_rows_with_columns(
            m,
            x + y,
        ),
        insert_rows_without_columns(insert_rows_without_columns(n, x), y)
            == insert_rows_without_columns(n, x + y),
        insert_returning(insert_returning(m, a), b) == insert_returning(m, a + b),
{
    assert(m.values.rows + x + y =~= m.values.rows + (x + y));
    assert(n.values + x + y =~= n.values + (x + y));
    assert(m.returning + a + b =~= m.returning + (a + b));
}

/// In a `VALUES` part with a column list there are `N` columns and every row has `N`
/// values, however many rows were added.
pub proof fn lemma_rows_match_columns<const N: usize>(v: &WithColumns<N>)
    ensures
        v@.columns.len() == N,
        forall|i: int| 0 <= i < v@.rows.len() ==> #[trigger] v@.rows[i].len() == N,
{
    assert forall|i: int| 0 <= i < v@.rows.len() implies #[trigger] v@.rows[i].len() == N by {
        assert(v@.rows[i] == views(v.values@[i]@));
    }
}

/// In a `VALUES` part without a column list every row has `N` values.
pub proof fn lemma_rows_have_arity<const N: usize>(v: &WithoutColumns<N>)
    ensures
        forall|i: int| 0 <= i < v@.len() ==> #[trigger] v@[i].len() == N,
{
    assert forall|i: int| 0 <= i < v@.len() implies #[trigger] v@[i].len() == N by {
        assert(v@[i] == views(v.values@[i]@));
    }
}

/// An `INSERT INTO` statement with a column list of `N` columns holds only rows of `N`
/// values.
pub proof fn lemma_insert_rows_match_columns<const N: usize>(s: &InsertInto<WithColumns<N>>)
    ensures
        s@.values.columns.len() == N,
        forall|i: int| 0 <= i < s@.values.rows.len() ==> #[trigger] s@.values.rows[i].len() == N,
{
    lemma_rows_match_columns(&s.values);
}

/// Model of an `INSERT INTO` statement whose `VALUES` part is not chosen yet.
pub struct BareInsertIntoModel {
    pub with: Option<Seq<WithQueryModel>>,
    pub table_name: Seq<char>,
}

/// An `INSERT INTO` statement whose `VALUES` part is not chosen yet: it cannot be
/// rendered.
#[must_use]
#[derive(Debug)]
pub struct BareInsertInto {
    table_name: TableName,
    with: Option<WithClause>,
}

impl View for BareInsertInto {
    type V = BareInsertIntoModel;

    closed spec fn view(&self) -> BareInsertIntoModel {
        BareInsertIntoModel {
            with: match self.with {
                Some(w) => Some(w@),
                None => None,
            },
            table_name: self.table_name@,
        }
    }
}

/// Starts an `INSERT INTO` statement on the given table.
pub fn insert_into<N: IntoFragment<TableName>>(table_name: N) -> (r: BareInsertInto)
    ensures
        r@ == (BareInsertIntoModel { with: None, table_name: table_name.fragment() }),
{
    BareInsertInto { table_name: table_name.into_fragment(), with: None }
}

pub(crate) fn insert_into_with(table_name: TableName, with: WithClause) -> (r: BareInsertInto)
    ensures
        r@ == (BareInsertIntoModel { with: Some(with@), table_name: table_name@ }),
{
    BareInsertInto { table_name, with: Some(with) }
}

/// The model of a fresh statement with the given `VALUES` part.
pub open spec fn insert_start<M>(bare: BareInsertIntoModel, values: M) -> InsertIntoModel<M> {
    InsertIntoModel {
        with: bare.with,
        table_name: bare.table_name,
        values,
        on_conflict: None,
        returning: Seq::empty(),
    }
}

impl BareInsertInto {
    fn finish<Vs: Values>(self, values: Vs) -> (r: InsertInto<Vs>)
        ensures
            r@ == insert_start(self@, values@),
    {
        let r = InsertInto {
            table_name: self.table_name,
            with: self.with,
            values,
            on_conflict: None,
            returning: Vec::new(),
        };
        assert(r@.returning =~= Seq::<Seq<char>>::empty());
        r
    }

    /// Chooses `DEFAULT VALUES`.
    pub fn default_values(self) -> (r: InsertInto<DefaultValues>)
        ensures
            r@ == insert_start(self@, ()),
    {
        self.finish(DefaultValues)
    }

    /// Chooses `VALUES (...), ...` without a column list; the rows have `N` values each.
    pub fn values<T: IntoNonZeroArray<Expression, N>, const N: usize, const M: usize>(
        self,
        rows: [T; M],
    ) -> (r: InsertInto<WithoutColumns<N>>)
        requires
            N > 0,
        ensures
            r@ == insert_start(self@, rows_of(rows@)),
    {
        let values = WithoutColumns { values: convert_rows(rows) };
        self.finish(values)
    }

    /// Names `N` columns; the rows that follow must have `N` values each.
    pub fn columns<C: IntoNonZeroArray<Column, N>, const N: usize>(self, columns: C) -> (r:
        InsertIntoColumnsBuilder<N>)
        requires
            N > 0,
        ensures
            r@ == (InsertIntoColumnsBuilderModel { bare: self@, columns: columns.row() }),
    {
        InsertIntoColumnsBuilder {
            table_name: self.table_name,
            with: self.with,
            columns: columns.into_non_zero_array(),
        }
    }
}

/// Model of a statement with a column list that still needs its first rows.
pub struct InsertIntoColumnsBuilderModel {
    pub bare: BareInsertIntoModel,
    pub columns: Seq<Seq<char>>,
}

/// An `INSERT INTO` statement with `N` named columns that still needs its first rows.
#[must_use]
#[derive(Debug)]
pub struct InsertIntoColumnsBuilder<const N: usize> {
    table_name: TableName,
    with: Option<WithClause>,
    columns: [Column; N],
}

impl<const N: usize> View for InsertIntoColumnsBuilder<N> {
    type V = InsertIntoColumnsBuilderModel;

    closed spec fn view(&self) -> InsertIntoColumnsBuilderModel {
        InsertIntoColumnsBuilderModel {
            bare: BareInsertIntoModel {
                with: match self.with {
                    Some(w) => Some(w@),
                    None => None,
                },
                table_name: self.table_name@,
            },
            columns: views(self.columns@),
        }
    }
}

impl<const N: usize> InsertIntoColumnsBuilder<N> {
    /// Adds the first rows, of `N` values each.
    pub fn values<T: IntoNonZeroArray<Expression, N>, const M: usize>(self, rows: [T; M]) -> (r:
        InsertInto<WithColumns<N>>)
        ensures
            r@ == insert_start(
                self@.bare,
                WithColumnsModel { columns: self@.columns, rows: rows_of(rows@) },
            ),
    {
        let bare = BareInsertInto { table_name: self.table_name, with: self.with };
        let values = WithColumns { columns: self.columns, values: convert_rows(rows) };
        bare.finish(values)
    }
}

/// An `INSERT INTO` statement with its `VALUES` part chosen.
#[must_use]
#[derive(Debug)]
pub struct InsertInto<Vs: Values> {
    table_name: TableName,
    with: Option<WithClause>,
    values: Vs,
    on_conflict: Option<OnConflictClause>,
    returning: Vec<OutputExpression>,
}

impl<Vs: Values> View for InsertInto<Vs> {
    type V = InsertIntoModel<Vs::V>;

    closed spec fn view(&self) -> InsertIntoModel<Vs::V> {
        InsertIntoModel {
            with: match self.with {
                Some(w) => Some(w@),
                None => None,
            },
            table_name: self.table_name@,
            values: self.values@,
            on_conflict: match self.on_conflict {
                Some(c) => Some(c@),
                None => None,
            },
            returning: texts(self.returning@),
        }
    }
}

impl<Vs: Values> InsertInto<Vs> {
    /// Adds `RETURNING` expressions.
    pub fn returning<E: IntoIteratorOfSameType<OutputExpression>>(self, expressions: E) -> (r:
        InsertInto<Vs>)
        ensures
            r@ == insert_returning(self@, expressions.items()),
    {
        let mut s = self;
        let mut more = expressions.into_some_iter();
        let ghost (before, added) = (s.returning@, more@);
        s.returning.append(&mut more);
        assert(texts(s.returning@) =~= texts(before) + views(added));
        s
    }

    /// Starts an `ON CONFLICT` clause, which needs an action.
    pub fn on_conflict(self) -> (r: OnConflictClauseBuilder<Vs>)
        ensures
            r@ == self@,
    {
        OnConflictClauseBuilder { statement: self }
    }

    /// Renders the statement.
    pub fn to_string(&self) -> (r: String)
        ensures
            r@ == insert_into_text::<Vs>(self@),
    {
        let mut s = WithClause::render_prefix(&self.with);
        s.append("INSERT INTO ");
        s.append(self.table_name.as_str());
        s.append(" ");
        let values = self.values.render_values();
        s.append(values.as_str());
        let ghost head = s@;
        match &self.on_conflict {
            Some(c) => {
                s.append(" ON CONFLICT ");
                let action = c.action.to_string();
                s.append(action.as_str());
            },
            None => {},
        }
        let ghost middle = s@;
        push_clause(&mut s, " RETURNING ", &self.returning, ", ");
        proof {
            let m = self@;
            assert(middle =~= head + match m.on_conflict {
                Some(a) => " ON CONFLICT "@ + conflict_action_text(a),
                None => Seq::empty(),
            });
            assert(s@ =~= insert_into_text::<Vs>(m));
        }
        s
    }
}

impl<const N: usize> InsertInto<WithColumns<N>> {
    /// Adds more rows of `N` values each.
    pub fn values<T: IntoNonZeroArray<Expression, N>, const M: usize>(self, rows: [T; M]) -> (r:
        InsertInto<WithColumns<N>>)
        ensures
            r@ == insert_rows_with_columns(self@, rows_of(rows@)),
    {
        let mut s = self;
        let mut more = convert_rows(rows);
        let ghost (before, added) = (s.values.values@, more@);
        s.values.values.append(&mut more);
        assert(row_views(s.values.values@) =~= row_views(before) + row_views(added));
        s
    }
}

impl<const N: usize> InsertInto<WithoutColumns<N>> {
    /// Adds more rows of `N` values each.
    pub fn values<T: IntoNonZeroArray<Expression, N>, const M: usize>(self, rows: [T; M]) -> (r:
        InsertInto<WithoutColumns<N>>)
        ensures
            r@ == insert_rows_without_columns(self@, rows_of(rows@)),
    {
        let mut s = self;
        let mut more = convert_rows(rows);
        let ghost (before, added) = (s.values.values@, more@);
        s.values.values.append(&mut more);
        assert(row_views(s.values.values@) =~= row_views(before) + row_views(added));
        s
    }
}

impl<Vs: Values> UsableInWithQuery for InsertInto<Vs> {
    open spec fn statement_text(&self) -> Seq<char> {
        insert_into_text::<Vs>(self@)
    }

    fn render(&self) -> (r: String) {
        self.to_string()
    }
}

/// An `ON CONFLICT` clause that still needs its action.
pub struct OnConflictClauseBuilder<Vs: Values> {
    statement: InsertInto<Vs>,
}

impl<Vs: Values> View for OnConflictClauseBuilder<Vs> {
    type V = InsertIntoModel<Vs::V>;

    closed spec fn view(&self) -> InsertIntoModel<Vs::V> {
        self.statement@
    }
}

impl<Vs: Values> OnConflictClauseBuilder<Vs> {
    /// Sets the action `DO NOTHING` and returns to the statement.
    pub fn do_nothing(self) -> (r: InsertInto<Vs>)
        ensures
            r@ == insert_on_conflict(self@, ConflictActionModel::DoNothing),
    {
        let mut statement = self.statement;
        statement.on_conflict = Some(OnConflictClause { action: ConflictAction::DoNothing });
        statement
    }

    /// Sets the action `DO UPDATE SET <pairs>` and returns to the statement.
    pub fn do_update_set<P: IntoIteratorOfSameType<ColumnValuePair>>(self, pairs: P) -> (r:
        InsertInto<Vs>)
        ensures
            r@ == insert_on_conflict(self@, ConflictActionModel::DoUpdateSet(pairs.items())),
    {
        let mut statement = self.statement;
        let list = pairs.into_some_iter();
        statement.on_conflict = Some(
            OnConflictClause { action: ConflictAction::DoUpdateSet(list) },
        );
        statement
    }
}

} // verus!
