use vstd::prelude::*;

use crate::tools::arity::views;
use crate::tools::display::{decimal, decimal_text, signed_decimal, signed_decimal_text, texts};
use crate::tools::IntoFragment;

verus! {

/// A condition of a `WHERE`, `HAVING` or `CHECK` clause.
pub type Condition = String;

/// An expression of a `RETURNING` clause.
pub type OutputExpression = String;

/// An expression of an `ORDER BY` entry.
pub type SortExpression = String;

/// The name of a table, possibly with an alias after it.
pub type TableName = String;

/// A value expression. Its model is its text.
#[derive(Debug, Clone)]
pub struct Expression(String);

impl View for Expression {
    type V = Seq<char>;

    closed spec fn view(&self) -> Seq<char> {
        self.0@
    }
}

impl Expression {
    /// The text of the expression.
    pub fn as_str(&self) -> (r: &str)
        ensures
            r@ == self@,
    {
        self.0.as_str()
    }
}

/// The texts of a list of expressions.
pub(crate) fn expression_texts(v: &Vec<Expression>) -> (r: Vec<String>)
    ensures
        texts(r@) == views(v@),
{
    let mut r: Vec<String> = Vec::new();
    let mut i: usize = 0;
    while i < v.len()
        invariant
            i <= v@.len(),
            texts(r@) == views(v@).take(i as int),
        decreases v@.len() - i,
    {
        let ghost before = r@;
        r.push(v[i].0.clone());
        assert(texts(r@) =~= texts(before).push(v@[i as int]@));
        assert(texts(r@) =~= views(v@).take(i as int + 1));
        i = i + 1;
    }
    assert(views(v@).take(i as int) =~= views(v@));
    r
}

/// The texts of a list of column names.
pub(crate) fn column_texts(v: &Vec<Column>) -> (r: Vec<String>)
    ensures
        texts(r@) == views(v@),
{
    let mut r: Vec<String> = Vec::new();
    let mut i: usize = 0;
    while i < v.len()
        invariant
            i <= v@.len(),
            texts(r@) == views(v@).take(i as int),
        decreases v@.len() - i,
    {
        let ghost before = r@;
        r.push(v[i].0.clone());
        assert(texts(r@) =~= texts(before).push(v@[i as int]@));
        assert(texts(r@) =~= views(v@).take(i as int + 1));
        i = i + 1;
    }
    assert(views(v@).take(i as int) =~= views(v@));
    r
}

/// A column name. Its model is its text.
#[derive(Debug, Clone)]
pub struct Column(String);

impl View for Column {
    type V = Seq<char>;

    closed spec fn view(&self) -> Seq<char> {
        self.0@
    }
}

impl Column {
    /// The text of the column name.
    pub fn as_str(&self) -> (r: &str)
        ensures
            r@ == self@,
    {
        self.0.as_str()
    }
}

/// `<expression> AS <alias>`. Its model is the pair of the two texts.
#[derive(Debug, Clone)]
pub struct Alias {
    aliased: String,
    alias: String,
}

impl View for Alias {
    type V = (Seq<char>, Seq<char>);

    closed spec fn view(&self) -> (Seq<char>, Seq<char>) {
        (self.aliased@, self.alias@)
    }
}

/// The text of an alias.
pub open spec fn alias_text(a: (Seq<char>, Seq<char>)) -> Seq<char> {
    a.0 + " AS "@ + a.1
}

impl Alias {
    pub(crate) fn new(aliased: String, alias: &str) -> (r: Alias)
        ensures
            r@ == (aliased@, alias@),
    {
        Alias { aliased, alias: alias.to_owned() }
    }

    /// Renders `<expression> AS <alias>`.
    pub fn to_string(&self) -> (r: String)
        ensures
            r@ == alias_text(self@),
    {
        let mut s = self.aliased.clone();
        s.append(" AS ");
        s.append(self.alias.as_str());
        s
    }
}

/// Things that can be given an alias with `AS`.
pub trait Aliasable: Sized {
    /// The text that stands before `AS`.
    spec fn aliased_text(self) -> Seq<char>;

    fn as_(self, alias: &str) -> (r: Alias)
        ensures
            r@ == (self.aliased_text(), alias@),
    ;
}

impl<'a> Aliasable for &'a str {
    open spec fn aliased_text(self) -> Seq<char> {
        self@
    }

    fn as_(self, alias: &str) -> (r: Alias) {
        Alias::new(self.to_owned(), alias)
    }
}

impl Aliasable for String {
    open spec fn aliased_text(self) -> Seq<char> {
        self@
    }

    fn as_(self, alias: &str) -> (r: Alias) {
        Alias::new(self, alias)
    }
}

/// `<column> = <expression>`, as in `SET` lists. Its model is the pair of the two texts.
#[derive(Debug, Clone)]
pub struct ColumnValuePair {
    column: Column,
    expression: Expression,
}

impl View for ColumnValuePair {
    type V = (Seq<char>, Seq<char>);

    closed spec fn view(&self) -> (Seq<char>, Seq<char>) {
        (self.column@, self.expression@)
    }
}

/// The text of a `<column> = <expression>` pair.
pub open spec fn pair_text(p: (Seq<char>, Seq<char>)) -> Seq<char> {
    p.0 + " = "@ + p.1
}

impl ColumnValuePair {
    pub(crate) fn new(column: Column, expression: Expression) -> (r: ColumnValuePair)
        ensures
            r@ == (column@, expression@),
    {
        ColumnValuePair { column, expression }
    }

    /// Renders `<column> = <expression>`.
    pub fn to_string(&self) -> (r: String)
        ensures
            r@ == pair_text(self@),
    {
        let mut s = self.column.as_str().to_owned();
        s.append(" = ");
        s.append(self.expression.as_str());
        s
    }
}

impl<C: IntoFragment<Column>, E: IntoFragment<Expression>> IntoFragment<ColumnValuePair> for (
    C,
    E,
) {
    open spec fn fragment(self) -> (Seq<char>, Seq<char>) {
        (self.0.fragment(), self.1.fragment())
    }

    fn into_fragment(self) -> (r: ColumnValuePair) {
        ColumnValuePair::new(self.0.into_fragment(), self.1.into_fragment())
    }
}

/* Conversions into expressions */

impl<'a> IntoFragment<Expression> for &'a str {
    open spec fn fragment(self) -> Seq<char> {
        self@
    }

    fn into_fragment(self) -> (r: Expression) {
        Expression(self.to_owned())
    }
}

impl IntoFragment<Expression> for String {
    open spec fn fragment(self) -> Seq<char> {
        self@
    }

    fn into_fragment(self) -> (r: Expression) {
        Expression(self)
    }
}

impl IntoFragment<Expression> for Expression {
    open spec fn fragment(self) -> Seq<char> {
        self@
    }

    fn into_fragment(self) -> (r: Expression) {
        self
    }
}

impl IntoFragment<Expression> for Column {
    open spec fn fragment(self) -> Seq<char> {
        self@
    }

    fn into_fragment(self) -> (r: Expression) {
        Expression(self.0)
    }
}

impl IntoFragment<Expression> for Alias {
    open spec fn fragment(self) -> Seq<char> {
        alias_text(self@)
    }

    fn into_fragment(self) -> (r: Expression) {
        Expression(self.to_string())
    }
}

impl IntoFragment<Expression> for i32 {
    open spec fn fragment(self) -> Seq<char> {
        signed_decimal(self as int)
    }

    fn into_fragment(self) -> (r: Expression) {
        Expression(signed_decimal_text(self as i64))
    }
}

impl IntoFragment<Expression> for i64 {
    open spec fn fragment(self) -> Seq<char> {
        signed_decimal(self as int)
    }

    fn into_fragment(self) -> (r: Expression) {
        Expression(signed_decimal_text(self))
    }
}

impl IntoFragment<Expression> for u32 {
    open spec fn fragment(self) -> Seq<char> {
        decimal(self as nat)
    }

    fn into_fragment(self) -> (r: Expression) {
        Expression(decimal_text(self as u64))
    }
}

impl IntoFragment<Expression> for u64 {
    open spec fn fragment(self) -> Seq<char> {
        decimal(self as nat)
    }

    fn into_fragment(self) -> (r: Expression) {
        Expression(decimal_text(self))
    }
}

impl IntoFragment<Expression> for usize {
    open spec fn fragment(self) -> Seq<char> {
        decimal(self as nat)
    }

    fn into_fragment(self) -> (r: Expression) {
        Expression(decimal_text(self as u64))
    }
}

/* Conversions into plain text fragments (conditions, output expressions, table names) */

impl<'a> IntoFragment<String> for &'a str {
    open spec fn fragment(self) -> Seq<char> {
        self@
    }

    fn into_fragment(self) -> (r: String) {
        self.to_owned()
    }
}

impl IntoFragment<String> for String {
    open spec fn fragment(self) -> Seq<char> {
        self@
    }

    fn into_fragment(self) -> (r: String) {
        self
    }
}

impl IntoFragment<String> for Alias {
    open spec fn fragment(self) -> Seq<char> {
        alias_text(self@)
    }

    fn into_fragment(self) -> (r: String) {
        self.to_string()
    }
}

/* Conversions into column names */

impl<'a> IntoFragment<Column> for &'a str {
    open spec fn fragment(self) -> Seq<char> {
        self@
    }

    fn into_fragment(self) -> (r: Column) {
        Column(self.to_owned())
    }
}

impl IntoFragment<Column> for String {
    open spec fn fragment(self) -> Seq<char> {
        self@
    }

    fn into_fragment(self) -> (r: Column) {
        Column(self)
    }
}

impl IntoFragment<Column> for Column {
    open spec fn fragment(self) -> Seq<char> {
        self@
    }

    fn into_fragment(self) -> (r: Column) {
        self
    }
}

} // verus!
