use vstd::prelude::*;

use crate::postgres::fragments::{expression_texts, Alias, Aliasable, Condition, Expression};
use crate::postgres::from_item::{from_item_texts, render_from_items, FromItem, FromItemModel};
use crate::postgres::order_by::{order_by_texts, render_order_bys, OrderBy, OrderByModel};
use crate::postgres::with::{with_prefix, UsableInWithQuery, WithClause, WithQueryModel};
use crate::tools::arity::views;
use crate::tools::display::{clause, decimal, decimal_text, join_with, push_clause, texts};
use crate::tools::IntoIteratorOfSameType;

verus! {

/// Model of the distinct-mode of a `SELECT`.
pub enum DistinctModel {
    All,
    Distinct,
    DistinctOn(Seq<Seq<char>>),
}

/// `ALL`, `DISTINCT` or `DISTINCT ON (<expressions>)`
pub open spec fn distinct_text(d: DistinctModel) -> Seq<char> {
    match d {
        DistinctModel::All => "ALL"@,
        DistinctModel::Distinct => "DISTINCT"@,
        DistinctModel::DistinctOn(es) => "DISTINCT ON ("@ + join_with(es, ", "@) + ")"@,
    }
}

/// An `ALL` | `DISTINCT` | `DISTINCT ON (...)` clause of a `SELECT`.
#[derive(Debug, Clone)]
pub enum Distinct {
    All,
    Distinct,
    DistinctOn(Vec<Expression>),
}

impl View for Distinct {
    type V = DistinctModel;

    closed spec fn view(&self) -> DistinctModel {
        match self {
            Distinct::All => DistinctModel::All,
            Distinct::Distinct => DistinctModel::Distinct,
            Distinct::DistinctOn(es) => DistinctModel::DistinctOn(views(es@)),
        }
    }
}

impl Distinct {
    /// Renders the distinct-mode.
    pub fn to_string(&self) -> (r: String)
        ensures
            r@ == distinct_text(self@),
    {
        match self {
            Distinct::All => "ALL".to_owned(),
            Distinct::Distinct => "DISTINCT".to_owned(),
            Distinct::DistinctOn(es) => {
                let mut s = "DISTINCT ON (".to_owned();
                let items = expression_texts(es);
                let list = crate::tools::display::joined(&items, ", ");
                s.append(list.as_str());
                s.append(")");
                s
            },
        }
    }
}

/// Model of a `SELECT` statement: what each clause has accumulated.
pub struct SelectModel {
    pub with: Option<Seq<WithQueryModel>>,
    pub expressions: Seq<Seq<char>>,
    pub from: Seq<FromItemModel>,
    pub where_: Seq<Seq<char>>,
    pub group_by: Seq<Seq<char>>,
    pub having: Seq<Seq<char>>,
    pub order_by: Seq<OrderByModel>,
    pub limit: Option<u64>,
    pub offset: Option<u64>,
    pub distinct: Option<DistinctModel>,
}

/// A `SELECT` with the given prefix and expressions, and every other clause empty.
pub open spec fn select_start(
    with: Option<Seq<WithQueryModel>>,
    expressions: Seq<Seq<char>>,
) -> SelectModel {
    SelectModel {
        with,
        expressions,
        from: Seq::empty(),
        where_: Seq::empty(),
        group_by: Seq::empty(),
        having: Seq::empty(),
        order_by: Seq::empty(),
        limit: None,
        offset: None,
        distinct: None,
    }
}

/// `<keyword><n>` when a number is set, nothing otherwise.
pub open spec fn number_clause(keyword: Seq<char>, n: Option<u64>) -> Seq<char> {
    match n {
        Some(v) => keyword + decimal(v as nat),
        None => Seq::empty(),
    }
}

/// The text of a `SELECT`: the optional `WITH` prefix, `SELECT`, the distinct-mode, the
/// expressions, then `FROM`, `WHERE`, `GROUP BY`, `HAVING`, `ORDER BY`, `LIMIT` and
/// `OFFSET`, each left out when it is empty or unset.
pub open spec fn select_text(m: SelectModel) -> Seq<char> {
    with_prefix(m.with) + "SELECT"@ + match m.distinct {
        Some(d) => " "@ + distinct_text(d),
        None => Seq::empty(),
    } + clause(" "@, m.expressions, ", "@) + clause(" FROM "@, from_item_texts(m.from), ", "@)
        + clause(" WHERE "@, m.where_, " AND "@) + clause(" GROUP BY "@, m.group_by, ", "@)
        + clause(" HAVING "@, m.having, " AND "@) + clause(
        " ORDER BY "@,
        order_by_texts(m.order_by),
        ", "@,
    ) + number_clause(" LIMIT "@, m.limit) + number_clause(" OFFSET "@, m.offset)
}

/// One call of a clause method of `Select`, with the models of its arguments.
pub enum SelectStep {
    Expressions(Seq<Seq<char>>),
    From(Seq<FromItemModel>),
    Where(Seq<Seq<char>>),
    GroupBy(Seq<Seq<char>>),
    Having(Seq<Seq<char>>),
    OrderBy(Seq<OrderByModel>),
    Limit(u64),
    Offset(u64),
    Distinct(DistinctModel),
}

/// What one clause method does to the model: the list clauses grow at their end, the
/// distinct-mode, the limit and the offset are replaced.
pub open spec fn apply_step(m: SelectModel, step: SelectStep) -> SelectModel {
    match step {
        SelectStep::Expressions(e) => SelectModel { expressions: m.expressions + e, ..m },
        SelectStep::From(f) => SelectModel { from: m.from + f, ..m },
        SelectStep::Where(c) => SelectModel { where_: m.where_ + c, ..m },
        SelectStep::GroupBy(g) => SelectModel { group_by: m.group_by + g, ..m },
        SelectStep::Having(c) => SelectModel { having: m.having + c, ..m },
        SelectStep::OrderBy(o) => SelectModel { order_by: m.order_by + o, ..m },
        SelectStep::Limit(n) => SelectModel { limit: Some(n), ..m },
        SelectStep::Offset(n) => SelectModel { offset: Some(n), ..m },
        SelectStep::Distinct(d) => SelectModel { distinct: Some(d), ..m },
    }
}

/// The clause that a step touches, as its position in the rendered statement.
pub open spec fn step_clause(step: SelectStep) -> int {
    match step {
        SelectStep::Distinct(_) => 0,
        SelectStep::Expressions(_) => 1,
        SelectStep::From(_) => 2,
        SelectStep::Where(_) => 3,
        SelectStep::GroupBy(_) => 4,
        SelectStep::Having(_) => 5,
        SelectStep::OrderBy(_) => 6,
        SelectStep::Limit(_) => 7,
        SelectStep::Offset(_) => 8,
    }
}

/// Two steps on the same list clause, taken as one step with both argument lists.
pub open spec fn merged_step(a: SelectStep, b: SelectStep) -> Option<SelectStep> {
    match (a, b) {
        (SelectStep::Expressions(x), SelectStep::Expressions(y)) => Some(SelectStep::Expressions(x + y)),
        (SelectStep::From(x), SelectStep::From(y)) => Some(SelectStep::From(x + y)),
        (SelectStep::Where(x), SelectStep::Where(y)) => Some(SelectStep::Where(x + y)),
        (SelectStep::GroupBy(x), SelectStep::GroupBy(y)) => Some(SelectStep::GroupBy(x + y)),
        (SelectStep::Having(x), SelectStep::Having(y)) => Some(SelectStep::Having(x + y)),
        (SelectStep::OrderBy(x), SelectStep::OrderBy(y)) => Some(SelectStep::OrderBy(x + y)),
        _ => None,
    }
}

/// Calls on different clauses can come in any order: the statement, and so its text,
/// is the same either way.
pub proof fn lemma_select_steps_commute(m: SelectModel, a: SelectStep, b: SelectStep)
    requires
        step_clause(a) != step_clause(b),
    ensures
        apply_step(apply_step(m, a), b) == apply_step(apply_step(m, b), a),
        select_text(apply_step(apply_step(m, a), b)) == select_text(apply_step(apply_step(m, b), a)),
{
    let ab = apply_step(apply_step(m, a), b);
    let ba = apply_step(apply_step(m, b), a);
    assert(ab == ba) by {
        match a {
            SelectStep::Expressions(_) => {},
            SelectStep::From(_) => {},
            SelectStep::Where(_) => {},
            SelectStep::GroupBy(_) => {},
            SelectStep::Having(_) => {},
            SelectStep::OrderBy(_) => {},
            SelectStep::Limit(_) => {},
            SelectStep::Offset(_) => {},
            SelectStep::Distinct(_) => {},
        }
    }
}

/// The list clauses only accumulate: two calls with `x` and then `y` give the same
/// statement as one call with `x` followed by `y`.
pub proof fn lemma_select_steps_accumulate(m: SelectModel, a: SelectStep, b: SelectStep)
    requires
        merged_step(a, b) is Some,
    ensures
        apply_step(apply_step(m, a), b) == apply_step(m, merged_step(a, b).unwrap()),
{
    match (a, b) {
        (SelectStep::Expressions(x), SelectStep::Expressions(y)) => {
            assert(m.expressions + x + y =~= m.expressions + (x + y));
        },
        (SelectStep::From(x), SelectStep::From(y)) => {
            assert(m.from + x + y =~= m.from + (x + y));
        },
        (SelectStep::Where(x), SelectStep::Where(y)) => {
            assert(m.where_ + x + y =~= m.where_ + (x + y));
        },
        (SelectStep::GroupBy(x), SelectStep::GroupBy(y)) => {
            assert(m.group_by + x + y =~= m.group_by + (x + y));
        },
        (SelectStep::Having(x), SelectStep::Having(y)) => {
            assert(m.having + x + y =~= m.having + (x + y));
        },
        (SelectStep::OrderBy(x), SelectStep::OrderBy(y)) => {
            assert(m.order_by + x + y =~= m.order_by + (x + y));
        },
        _ => {},
    }
}

/// `all()`, `distinct()` and `distinct_on(...)` exclude each other: the statement holds
/// one distinct-mode, and the last one set wins. The same holds of `limit` and `offset`.
pub proof fn lemma_select_last_write_wins(m: SelectModel, a: SelectStep, b: SelectStep)
    requires
        step_clause(a) == step_clause(b),
        step_clause(a) == 0 || step_clause(a) == 7 || step_clause(a) == 8,
    ensures
        apply_step(apply_step(m, a), b) == apply_step(m, b),
{
}

/// A `SELECT` statement. Every clause method adds to what was there before, except the
/// distinct-mode, `LIMIT` and `OFFSET`, which are replaced.
#[must_use]
#[derive(Debug)]
pub struct Select {
    with: Option<WithClause>,
    expressions: Vec<Expression>,
    from: Vec<FromItem>,
    where_: Vec<Condition>,
    group_by: Vec<Expression>,
    having: Vec<Condition>,
    order_by: Vec<OrderBy>,
    limit: Option<u64>,
    offset: Option<u64>,
    distinct: Option<Distinct>,
}

impl View for Select {
    type V = SelectModel;

    closed spec fn view(&self) -> SelectModel {
        SelectModel {
            with: match self.with {
                Some(w) => Some(w@),
                None => None,
            },
            expressions: views(self.expressions@),
            from: views(self.from@),
            where_: texts(self.where_@),
            group_by: views(self.group_by@),
            having: texts(self.having@),
            order_by: views(self.order_by@),
            limit: self.limit,
            offset: self.offset,
            distinct: match self.distinct {
                Some(d) => Some(d@),
                None => None,
            },
        }
    }
}

fn start(with: Option<WithClause>, expressions: Vec<Expression>) -> (r: Select)
    ensures
        r@ == select_start(
            match with {
                Some(w) => Some(w@),
                None => None,
            },
            views(expressions@),
        ),
{
    let r = Select {
        with,
        expressions,
        from: Vec::new(),
        where_: Vec::new(),
        group_by: Vec::new(),
        having: Vec::new(),
        order_by: Vec::new(),
        limit: None,
        offset: None,
        distinct: None,
    };
    assert(r@.from =~= Seq::<FromItemModel>::empty());
    assert(r@.where_ =~= Seq::<Seq<char>>::empty());
    assert(r@.group_by =~= Seq::<Seq<char>>::empty());
    assert(r@.having =~= Seq::<Seq<char>>::empty());
    assert(r@.order_by =~= Seq::<OrderByModel>::empty());
    r
}

/// Starts a `SELECT` statement with the given expressions.
pub fn select<E: IntoIteratorOfSameType<Expression>>(expressions: E) -> (r: Select)
    ensures
        r@ == select_start(None, expressions.items()),
{
    start(None, expressions.into_some_iter())
}

pub(crate) fn select_with(expressions: Vec<Expression>, with: WithClause) -> (r: Select)
    ensures
        r@ == select_start(Some(with@), views(expressions@)),
{
    start(Some(with), expressions)
}

impl Select {
    /// Adds more expressions to be selected.
    pub fn and_select<E: IntoIteratorOfSameType<Expression>>(self, expressions: E) -> (r: Select)
        ensures
            r@ == apply_step(self@, SelectStep::Expressions(expressions.items())),
    {
        let mut s = self;
        let mut more = expressions.into_some_iter();
        let ghost (before, added) = (s.expressions@, more@);
        s.expressions.append(&mut more);
        assert(views(s.expressions@) =~= views(before) + views(added));
        s
    }

    /// Sets the distinct-mode to `ALL`.
    pub fn all(self) -> (r: Select)
        ensures
            r@ == apply_step(self@, SelectStep::Distinct(DistinctModel::All)),
    {
        Select { distinct: Some(Distinct::All), ..self }
    }

    /// Sets the distinct-mode to `DISTINCT`.
    pub fn distinct(self) -> (r: Select)
        ensures
            r@ == apply_step(self@, SelectStep::Distinct(DistinctModel::Distinct)),
    {
        Select { distinct: Some(Distinct::Distinct), ..self }
    }

    /// Sets the distinct-mode to `DISTINCT ON (<expressions>)`.
    pub fn distinct_on<E: IntoIteratorOfSameType<Expression>>(self, expressions: E) -> (r: Select)
        ensures
            r@ == apply_step(
                self@,
                SelectStep::Distinct(DistinctModel::DistinctOn(expressions.items())),
            ),
    {
        Select { distinct: Some(Distinct::DistinctOn(expressions.into_some_iter())), ..self }
    }

    /// Adds items to the `FROM` clause.
    pub fn from<F: IntoIteratorOfSameType<FromItem>>(self, from: F) -> (r: Select)
        ensures
            r@ == apply_step(self@, SelectStep::From(from.items())),
    {
        let mut s = self;
        let mut more = from.into_some_iter();
        let ghost (before, added) = (s.from@, more@);
        s.from.append(&mut more);
        assert(views(s.from@) =~= views(before) + views(added));
        s
    }

    /// Adds `WHERE` conditions, joined with `AND` to each other and to earlier ones.
    pub fn where_<C: IntoIteratorOfSameType<Condition>>(self, conditions: C) -> (r: Select)
        ensures
            r@ == apply_step(self@, SelectStep::Where(conditions.items())),
    {
        let mut s = self;
        let mut more = conditions.into_some_iter();
        let ghost (before, added) = (s.where_@, more@);
        s.where_.append(&mut more);
        assert(texts(s.where_@) =~= texts(before) + views(added));
        s
    }

    /// Adds `GROUP BY` expressions.
    pub fn group_by<E: IntoIteratorOfSameType<Expression>>(self, groupings: E) -> (r: Select)
        ensures
            r@ == apply_step(self@, SelectStep::GroupBy(groupings.items())),
    {
        let mut s = self;
        let mut more = groupings.into_some_iter();
        let ghost (before, added) = (s.group_by@, more@);
        s.group_by.append(&mut more);
        assert(views(s.group_by@) =~= views(before) + views(added));
        s
    }

    /// Adds `HAVING` conditions, joined with `AND`.
    pub fn having<C: IntoIteratorOfSameType<Condition>>(self, conditions: C) -> (r: Select)
        ensures
            r@ == apply_step(self@, SelectStep::Having(conditions.items())),
    {
        let mut s = self;
        let mut more = conditions.into_some_iter();
        let ghost (before, added) = (s.having@, more@);
        s.having.append(&mut more);
        assert(texts(s.having@) =~= texts(before) + views(added));
        s
    }

    /// Adds `ORDER BY` entries.
    pub fn order_by<O: IntoIteratorOfSameType<OrderBy>>(self, order_bys: O) -> (r: Select)
        ensures
            r@ == apply_step(self@, SelectStep::OrderBy(order_bys.items())),
    {
        let mut s = self;
        let mut more = order_bys.into_some_iter();
        let ghost (before, added) = (s.order_by@, more@);
        s.order_by.append(&mut more);
        assert(views(s.order_by@) =~= views(before) + views(added));
        s
    }

    /// Sets the `LIMIT`.
    pub fn limit(self, n: u64) -> (r: Select)
        ensures
            r@ == apply_step(self@, SelectStep::Limit(n)),
    {
        Select { limit: Some(n), ..self }
    }

    /// Sets the `OFFSET`.
    pub fn offset(self, n: u64) -> (r: Select)
        ensures
            r@ == apply_step(self@, SelectStep::Offset(n)),
    {
        Select { offset: Some(n), ..self }
    }

    /// Renders the statement.
    pub fn to_string(&self) -> (r: String)
        ensures
            r@ == select_text(self@),
    {
        let mut s = WithClause::render_prefix(&self.with);
        s.append("SELECT");
        let ghost after_keyword = s@;
        match &self.distinct {
            Some(d) => {
                s.append(" ");
                let text = d.to_string();
                s.append(text.as_str());
            },
            None => {},
        }
        let ghost after_distinct = s@;
        let expressions = expression_texts(&self.expressions);
        push_clause(&mut s, " ", &expressions, ", ");
        let from = render_from_items(&self.from);
        push_clause(&mut s, " FROM ", &from, ", ");
        push_clause(&mut s, " WHERE ", &self.where_, " AND ");
        let group_by = expression_texts(&self.group_by);
        push_clause(&mut s, " GROUP BY ", &group_by, ", ");
        push_clause(&mut s, " HAVING ", &self.having, " AND ");
        let order_by = render_order_bys(&self.order_by);
        push_clause(&mut s, " ORDER BY ", &order_by, ", ");
        let ghost after_lists = s@;
        match self.limit {
            Some(n) => {
                s.append(" LIMIT ");
                let text = decimal_text(n);
                s.append(text.as_str());
            },
            None => {},
        }
        let ghost after_limit = s@;
        match self.offset {
            Some(n) => {
                s.append(" OFFSET ");
                let text = decimal_text(n);
                s.append(text.as_str());
            },
            None => {},
        }
        proof {
            let m = self@;
            assert(after_distinct =~= after_keyword + match m.distinct {
                Some(d) => " "@ + distinct_text(d),
                None => Seq::empty(),
            });
            assert(after_limit =~= after_lists + number_clause(" LIMIT "@, m.limit));
            assert(s@ =~= after_limit + number_clause(" OFFSET "@, m.offset));
            assert(s@ =~= select_text(m));
        }
        s
    }
}

impl UsableInWithQuery for Select {
    open spec fn statement_text(&self) -> Seq<char> {
        select_text(self@)
    }

    fn render(&self) -> (r: String) {
        self.to_string()
    }
}

impl Aliasable for Select {
    /// A sub-select is written in parentheses before `AS`.
    open spec fn aliased_text(self) -> Seq<char> {
        "("@ + select_text(self@) + ")"@
    }

    fn as_(self, alias: &str) -> (r: Alias) {
        let mut s = "(".to_owned();
        let text = self.to_string();
        s.append(text.as_str());
        s.append(")");
        Alias::new(s, alias)
    }
}

} // verus!
