use vstd::prelude::*;

use crate::postgres::fragments::{column_texts, Column, Expression, TableName};
use crate::postgres::delete_from::{delete_from_with, DeleteFrom, DeleteFromModel};
use crate::postgres::insert_into::{insert_into_with, BareInsertInto, BareInsertIntoModel};
use crate::postgres::select::{select_start, select_with, Select};
use crate::postgres::update::{update_with, BareUpdate, BareUpdateModel};
use crate::tools::arity::views;
use crate::tools::display::{join_items, join_with, texts};
use crate::tools::{IntoFragment, IntoIteratorOfSameType};

verus! {

/// Model of one named statement of a `WITH` clause.
pub struct WithQueryModel {
    pub name: Seq<char>,
    pub columns: Seq<Seq<char>>,
    pub statement: Seq<char>,
}

/// `<name>[(<columns>)] AS (<statement>)`
pub open spec fn with_query_text(q: WithQueryModel) -> Seq<char> {
    q.name + (if q.columns.len() > 0 {
        "("@ + join_with(q.columns, ", "@) + ")"@
    } else {
        Seq::empty()
    }) + " AS ("@ + q.statement + ")"@
}

/// The texts of a list of `WITH` entries.
pub open spec fn with_query_texts(qs: Seq<WithQueryModel>) -> Seq<Seq<char>> {
    qs.map_values(|q: WithQueryModel| with_query_text(q))
}

/// `WITH <query>, <query>, ...`
pub open spec fn with_clause_text(qs: Seq<WithQueryModel>) -> Seq<char> {
    "WITH "@ + join_with(with_query_texts(qs), ", "@)
}

/// What a statement carrying an optional `WITH` clause renders before its own keyword.
pub open spec fn with_prefix(w: Option<Seq<WithQueryModel>>) -> Seq<char> {
    match w {
        Some(qs) => with_clause_text(qs) + " "@,
        None => Seq::empty(),
    }
}

/// A statement that can define a table of a `WITH` clause.
pub trait UsableInWithQuery {
    /// The text of the statement.
    spec fn statement_text(&self) -> Seq<char>;

    fn render(&self) -> (r: String)
        ensures
            r@ == self.statement_text(),
    ;
}

/// A named statement of a `WITH` clause.
#[derive(Debug, Clone)]
pub struct WithQuery {
    name: TableName,
    columns: Vec<Column>,
    as_: String,
}

impl View for WithQuery {
    type V = WithQueryModel;

    closed spec fn view(&self) -> WithQueryModel {
        WithQueryModel { name: self.name@, columns: views(self.columns@), statement: self.as_@ }
    }
}

impl WithQuery {
    /// Renders `<name>[(<columns>)] AS (<statement>)`.
    pub(crate) fn to_string(&self) -> (r: String)
        ensures
            r@ == with_query_text(self@),
    {
        let mut s = self.name.clone();
        if self.columns.len() > 0 {
            let names = column_texts(&self.columns);
            let list = join_items(&names, ", ");
            s.append("(");
            s.append(list.as_str());
            s.append(")");
        }
        s.append(" AS (");
        s.append(self.as_.as_str());
        s.append(")");
        proof {
            assert(s@ =~= with_query_text(self@));
        }
        s
    }
}

/// An ordered chain of named statements, to be placed before one statement.
#[derive(Debug, Clone)]
pub struct WithClause {
    queries: Vec<WithQuery>,
}

impl View for WithClause {
    type V = Seq<WithQueryModel>;

    closed spec fn view(&self) -> Seq<WithQueryModel> {
        views(self.queries@)
    }
}

/// Model of a `WITH` entry whose defining statement is still to come.
pub struct WithQueryBuilderModel {
    pub clause: Seq<WithQueryModel>,
    pub name: Seq<char>,
    pub columns: Seq<Seq<char>>,
}

/// A named entry of a `WITH` clause that still needs its defining statement.
#[derive(Debug)]
pub struct WithQueryBuilder {
    clause: WithClause,
    name: TableName,
    columns: Vec<Column>,
}

impl View for WithQueryBuilder {
    type V = WithQueryBuilderModel;

    closed spec fn view(&self) -> WithQueryBuilderModel {
        WithQueryBuilderModel {
            clause: self.clause@,
            name: self.name@,
            columns: views(self.columns@),
        }
    }
}

/// Starts a `WITH` clause with its first named entry.
pub fn with<N: IntoFragment<TableName>>(name: N) -> (r: WithQueryBuilder)
    ensures
        r@ == (WithQueryBuilderModel {
            clause: Seq::empty(),
            name: name.fragment(),
            columns: Seq::empty(),
        }),
{
    let clause = WithClause { queries: Vec::new() };
    assert(clause@ =~= Seq::<WithQueryModel>::empty());
    let r = WithQueryBuilder { clause, name: name.into_fragment(), columns: Vec::new() };
    assert(r@.columns =~= Seq::<Seq<char>>::empty());
    r
}

impl WithClause {
    /// Adds another named entry.
    pub fn and_with<N: IntoFragment<TableName>>(self, name: N) -> (r: WithQueryBuilder)
        ensures
            r@ == (WithQueryBuilderModel {
                clause: self@,
                name: name.fragment(),
                columns: Seq::empty(),
            }),
    {
        let r = WithQueryBuilder { clause: self, name: name.into_fragment(), columns: Vec::new() };
        assert(r@.columns =~= Seq::<Seq<char>>::empty());
        r
    }

    /// Starts a `SELECT` statement that carries this clause.
    pub fn select<E: IntoIteratorOfSameType<Expression>>(self, expressions: E) -> (r: Select)
        ensures
            r@ == select_start(Some(self@), expressions.items()),
    {
        select_with(expressions.into_some_iter(), self)
    }

    /// Starts a `DELETE FROM` statement that carries this clause.
    pub fn delete_from<N: IntoFragment<TableName>>(self, table_name: N) -> (r: DeleteFrom)
        ensures
            r@ == (DeleteFromModel {
                with: Some(self@),
                table_name: table_name.fragment(),
                where_: Seq::empty(),
                returning: Seq::empty(),
            }),
    {
        delete_from_with(table_name.into_fragment(), self)
    }

    /// Starts an `UPDATE` statement that carries this clause.
    pub fn update<N: IntoFragment<TableName>>(self, table_name: N) -> (r: BareUpdate)
        ensures
            r@ == (BareUpdateModel { with: Some(self@), table_name: table_name.fragment() }),
    {
        update_with(table_name.into_fragment(), self)
    }

    /// Starts an `INSERT INTO` statement that carries this clause.
    pub fn insert_into<N: IntoFragment<TableName>>(self, table_name: N) -> (r: BareInsertInto)
        ensures
            r@ == (BareInsertIntoModel { with: Some(self@), table_name: table_name.fragment() }),
    {
        insert_into_with(table_name.into_fragment(), self)
    }

    /// Renders `WITH <entries>`. A clause is only rendered as the prefix of a statement.
    pub(crate) fn to_string(&self) -> (r: String)
        ensures
            r@ == with_clause_text(self@),
    {
        let mut parts: Vec<String> = Vec::new();
        let mut i: usize = 0;
        while i < self.queries.len()
            invariant
                i <= self.queries@.len(),
                texts(parts@) == with_query_texts(self@).take(i as int),
            decreases self.queries@.len() - i,
        {
            let ghost before = parts@;
            parts.push(self.queries[i].to_string());
            assert(texts(parts@) =~= texts(before).push(with_query_text(self.queries@[i as int]@)));
            assert(texts(parts@) =~= with_query_texts(self@).take(i as int + 1));
            i = i + 1;
        }
        assert(with_query_texts(self@).take(i as int) =~= with_query_texts(self@));
        let mut s = "WITH ".to_owned();
        let list = crate::tools::display::joined(&parts, ", ");
        s.append(list.as_str());
        s
    }

    /// Renders the clause followed by a space, as it stands before a statement.
    pub(crate) fn render_prefix(with: &Option<WithClause>) -> (r: String)
        ensures
            r@ == with_prefix(match with {
                Some(w) => Some(w@),
                None => None,
            }),
    {
        match with {
            Some(w) => {
                let mut s = w.to_string();
                s.append(" ");
                s
            },
            None => String::new(),
        }
    }
}

impl WithQueryBuilder {
    /// Names the columns of the entry's table.
    pub fn columns<C: IntoIteratorOfSameType<Column>>(self, columns: C) -> (r: WithQueryBuilder)
        ensures
            r@ == (WithQueryBuilderModel { columns: self@.columns + columns.items(), ..self@ }),
    {
        let mut builder = self;
        let mut more = columns.into_some_iter();
        let ghost before = builder.columns@;
        let ghost added = more@;
        builder.columns.append(&mut more);
        assert(views(builder.columns@) =~= views(before) + views(added));
        builder
    }

    /// Gives the statement that defines the entry's table, and closes the entry.
    pub fn as_<S: UsableInWithQuery>(self, target: S) -> (r: WithClause)
        ensures
            r@ == self@.clause.push(
                WithQueryModel {
                    name: self@.name,
                    columns: self@.columns,
                    statement: target.statement_text(),
                },
            ),
    {
        let mut clause = self.clause;
        let query = WithQuery { name: self.name, columns: self.columns, as_: target.render() };
        let ghost before = clause.queries@;
        clause.queries.push(query);
        assert(views(clause.queries@) =~= views(before).push(query@));
        clause
    }
}

} // verus!
