use vstd::prelude::*;

use crate::postgres::fragments::{column_texts, Column, Condition, Expression, TableName};
use crate::tools::arity::views;
use crate::tools::display::{join_with, joined, texts};
use crate::tools::{IntoFragment, IntoIteratorOfSameType};

verus! {

/// Model of a column constraint.
pub enum ColumnConstraintModel {
    Null,
    NotNull,
    PrimaryKey,
    Unique,
    Default(Seq<char>),
    References(Seq<char>, Seq<char>),
    Check(Seq<char>),
}

/// The SQL text of a column constraint.
pub open spec fn column_constraint_text(c: ColumnConstraintModel) -> Seq<char> {
    match c {
        ColumnConstraintModel::Null => "NULL"@,
        ColumnConstraintModel::NotNull => "NOT NULL"@,
        ColumnConstraintModel::PrimaryKey => "PRIMARY KEY"@,
        ColumnConstraintModel::Unique => "UNIQUE"@,
        ColumnConstraintModel::Default(e) => "DEFAULT "@ + e,
        ColumnConstraintModel::References(t, c) => "REFERENCES "@ + t + "("@ + c + ")"@,
        ColumnConstraintModel::Check(e) => "CHECK ("@ + e + ")"@,
    }
}

/// The texts of a list of column constraints.
pub open spec fn column_constraint_texts(cs: Seq<ColumnConstraintModel>) -> Seq<Seq<char>> {
    cs.map_values(|c: ColumnConstraintModel| column_constraint_text(c))
}

/// A constraint of one column.
#[derive(Debug, Clone)]
pub enum ColumnConstraint {
    Null,
    NotNull,
    PrimaryKey,
    Unique,
    Default(Expression),
    References(TableName, Column),
    Check(Condition),
}

impl View for ColumnConstraint {
    type V = ColumnConstraintModel;

    closed spec fn view(&self) -> ColumnConstraintModel {
        match self {
            ColumnConstraint::Null => ColumnConstraintModel::Null,
            ColumnConstraint::NotNull => ColumnConstraintModel::NotNull,
            ColumnConstraint::PrimaryKey => ColumnConstraintModel::PrimaryKey,
            ColumnConstraint::Unique => ColumnConstraintModel::Unique,
            ColumnConstraint::Default(e) => ColumnConstraintModel::Default(e@),
            ColumnConstraint::References(t, c) => ColumnConstraintModel::References(t@, c@),
            ColumnConstraint::Check(e) => ColumnConstraintModel::Check(e@),
        }
    }
}

impl ColumnConstraint {
    /// Renders the constraint.
    pub fn to_string(&self) -> (r: String)
        ensures
            r@ == column_constraint_text(self@),
    {
        match self {
            ColumnConstraint::Null => "NULL".to_owned(),
            ColumnConstraint::NotNull => "NOT NULL".to_owned(),
            ColumnConstraint::PrimaryKey => "PRIMARY KEY".to_owned(),
            ColumnConstraint::Unique => "UNIQUE".to_owned(),
            ColumnConstraint::Default(e) => {
                let mut s = "DEFAULT ".to_owned();
                s.append(e.as_str());
                s
            },
            ColumnConstraint::References(t, c) => {
                let mut s = "REFERENCES ".to_owned();
                s.append(t.as_str());
                s.append("(");
                s.append(c.as_str());
                s.append(")");
                s
            },
            ColumnConstraint::Check(e) => {
                let mut s = "CHECK (".to_owned();
                s.append(e.as_str());
                s.append(")");
                s
            },
        }
    }
}

/// A slot of one constraint category: empty, or holding one constraint.
pub trait IntoColumnConstraint: Sized {
    spec fn constraint(&self) -> Option<ColumnConstraintModel>;

    fn into_column_constraint(self) -> (r: Option<ColumnConstraint>)
        ensures
            match r {
                Some(c) => self.constraint() == Some(c@),
                None => self.constraint() is None,
            },
    ;
}

/// The marker of an empty slot.
#[derive(Debug)]
pub struct NoConstraint;

impl IntoColumnConstraint for NoConstraint {
    open spec fn constraint(&self) -> Option<ColumnConstraintModel> {
        None
    }

    fn into_column_constraint(self) -> (r: Option<ColumnConstraint>) {
        None
    }
}

/// The marker of a slot that no constraint can take.
#[derive(Debug)]
pub struct ImpossibleConstraint;

/// The category of a constraint, in the order in which categories are rendered:
/// nullability, primary key, unique, default, references, check.
pub open spec fn category(c: ColumnConstraintModel) -> int {
    match c {
        ColumnConstraintModel::Null => 0,
        ColumnConstraintModel::NotNull => 0,
        ColumnConstraintModel::PrimaryKey => 1,
        ColumnConstraintModel::Unique => 2,
        ColumnConstraintModel::Default(_) => 3,
        ColumnConstraintModel::References(_, _) => 4,
        ColumnConstraintModel::Check(_) => 5,
    }
}

/// A slot that is empty or holds a constraint of category `k`.
pub open spec fn slot_in(c: Option<ColumnConstraintModel>, k: int) -> bool {
    match c {
        Some(v) => category(v) == k,
        None => true,
    }
}

/// The nullability slot: empty, `NULL` or `NOT NULL`.
pub trait NullabilityConstraint: IntoColumnConstraint {
    proof fn lemma_category(&self)
        ensures
            slot_in(self.constraint(), 0),
    ;
}

/// The primary-key slot.
pub trait PrimaryKeyConstraint: IntoColumnConstraint {
    proof fn lemma_category(&self)
        ensures
            slot_in(self.constraint(), 1),
    ;
}

/// The uniqueness slot.
pub trait UniqueConstraint: IntoColumnConstraint {
    proof fn lemma_category(&self)
        ensures
            slot_in(self.constraint(), 2),
    ;
}

/// The default slot.
pub trait DefaultConstraint: IntoColumnConstraint {
    proof fn lemma_category(&self)
        ensures
            slot_in(self.constraint(), 3),
    ;
}

/// The foreign-key slot.
pub trait ReferencesConstraint: IntoColumnConstraint {
    proof fn lemma_category(&self)
        ensures
            slot_in(self.constraint(), 4),
    ;
}

/// The check slot.
pub trait CheckConstraint: IntoColumnConstraint {
    proof fn lemma_category(&self)
        ensures
            slot_in(self.constraint(), 5),
    ;
}

impl NullabilityConstraint for NoConstraint {
    proof fn lemma_category(&self) {
    }
}

impl PrimaryKeyConstraint for NoConstraint {
    proof fn lemma_category(&self) {
    }
}

impl UniqueConstraint for NoConstraint {
    proof fn lemma_category(&self) {
    }
}

impl DefaultConstraint for NoConstraint {
    proof fn lemma_category(&self) {
    }
}

impl ReferencesConstraint for NoConstraint {
    proof fn lemma_category(&self) {
    }
}

impl CheckConstraint for NoConstraint {
    proof fn lemma_category(&self) {
    }
}

/// `NULL`
#[derive(Debug)]
pub struct IsNull;

/// `NOT NULL`
#[derive(Debug)]
pub struct IsNotNull;

/// `PRIMARY KEY`
#[derive(Debug)]
pub struct IsPrimaryKey;

/// `UNIQUE`
#[derive(Debug)]
pub struct IsUnique;

/// `DEFAULT <expression>`
#[derive(Debug)]
pub struct HasDefault(Expression);

/// `REFERENCES <table>(<column>)`
#[derive(Debug)]
pub struct References(TableName, Column);

/// `CHECK (<condition>)`
#[derive(Debug)]
pub struct Check(Condition);

impl NullabilityConstraint for IsNull {
    proof fn lemma_category(&self) {
    }
}

impl NullabilityConstraint for IsNotNull {
    proof fn lemma_category(&self) {
    }
}

impl PrimaryKeyConstraint for IsPrimaryKey {
    proof fn lemma_category(&self) {
    }
}

impl UniqueConstraint for IsUnique {
    proof fn lemma_category(&self) {
    }
}

impl DefaultConstraint for HasDefault {
    proof fn lemma_category(&self) {
    }
}

impl ReferencesConstraint for References {
    proof fn lemma_category(&self) {
    }
}

impl CheckConstraint for Check {
    proof fn lemma_category(&self) {
    }
}

impl IntoColumnConstraint for IsNull {
    open spec fn constraint(&self) -> Option<ColumnConstraintModel> {
        Some(ColumnConstraintModel::Null)
    }

    fn into_column_constraint(self) -> (r: Option<ColumnConstraint>) {
        Some(ColumnConstraint::Null)
    }
}

impl IntoColumnConstraint for IsNotNull {
    open spec fn constraint(&self) -> Option<ColumnConstraintModel> {
        Some(ColumnConstraintModel::NotNull)
    }

    fn into_column_constraint(self) -> (r: Option<ColumnConstraint>) {
        Some(ColumnConstraint::NotNull)
    }
}

impl IntoColumnConstraint for IsPrimaryKey {
    open spec fn constraint(&self) -> Option<ColumnConstraintModel> {
        Some(ColumnConstraintModel::PrimaryKey)
    }

    fn into_column_constraint(self) -> (r: Option<ColumnConstraint>) {
        Some(ColumnConstraint::PrimaryKey)
    }
}

impl IntoColumnConstraint for IsUnique {
    open spec fn constraint(&self) -> Option<ColumnConstraintModel> {
        Some(ColumnConstraintModel::Unique)
    }

    fn into_column_constraint(self) -> (r: Option<ColumnConstraint>) {
        Some(ColumnConstraint::Unique)
    }
}

impl IntoColumnConstraint for HasDefault {
    closed spec fn constraint(&self) -> Option<ColumnConstraintModel> {
        Some(ColumnConstraintModel::Default(self.0@))
    }

    fn into_column_constraint(self) -> (r: Option<ColumnConstraint>) {
        Some(ColumnConstraint::Default(self.0))
    }
}

impl IntoColumnConstraint for References {
    closed spec fn constraint(&self) -> Option<ColumnConstraintModel> {
        Some(ColumnConstraintModel::References(self.0@, self.1@))
    }

    fn into_column_constraint(self) -> (r: Option<ColumnConstraint>) {
        Some(ColumnConstraint::References(self.0, self.1))
    }
}

impl IntoColumnConstraint for Check {
    closed spec fn constraint(&self) -> Option<ColumnConstraintModel> {
        Some(ColumnConstraintModel::Check(self.0@))
    }

    fn into_column_constraint(self) -> (r: Option<ColumnConstraint>) {
        Some(ColumnConstraint::Check(self.0))
    }
}

/// Model of a column definition.
pub struct ColumnDefinitionModel {
    pub name: Seq<char>,
    pub type_: Seq<char>,
    pub constraints: Seq<ColumnConstraintModel>,
}

/// `<name> <type> [<constraint> <constraint> ...]`
pub open spec fn column_definition_text(c: ColumnDefinitionModel) -> Seq<char> {
    c.name + " "@ + c.type_ + if c.constraints.len() > 0 {
        " "@ + join_with(column_constraint_texts(c.constraints), " "@)
    } else {
        Seq::empty()
    }
}

/// The texts of a list of column definitions.
pub open spec fn column_definition_texts(cs: Seq<ColumnDefinitionModel>) -> Seq<Seq<char>> {
    cs.map_values(|c: ColumnDefinitionModel| column_definition_text(c))
}

/// The definition of one column of a table.
#[derive(Debug, Clone)]
pub struct ColumnDefinition {
    name: String,
    type_: String,
    constraints: Vec<ColumnConstraint>,
}

impl View for ColumnDefinition {
    type V = ColumnDefinitionModel;

    closed spec fn view(&self) -> ColumnDefinitionModel {
        ColumnDefinitionModel {
            name: self.name@,
            type_: self.type_@,
            constraints: views(self.constraints@),
        }
    }
}

impl ColumnDefinition {
    /// Renders the definition.
    pub fn to_string(&self) -> (r: String)
        ensures
            r@ == column_definition_text(self@),
    {
        let mut s = self.name.clone();
        s.append(" ");
        s.append(self.type_.as_str());
        if self.constraints.len() > 0 {
            let mut parts: Vec<String> = Vec::new();
            let mut i: usize = 0;
            while i < self.constraints.len()
                invariant
                    i <= self.constraints@.len(),
                    texts(parts@) == column_constraint_texts(views(self.constraints@)).take(i as int),
                decreases self.constraints@.len() - i,
            {
                let ghost before = parts@;
                parts.push(self.constraints[i].to_string());
                assert(texts(parts@) =~= texts(before).push(
                    column_constraint_text(self.constraints@[i as int]@),
                ));
                assert(texts(parts@) =~= column_constraint_texts(views(self.constraints@)).take(
                    i as int + 1,
                ));
                i = i + 1;
            }
            assert(column_constraint_texts(views(self.constraints@)).take(i as int)
                =~= column_constraint_texts(views(self.constraints@)));
            s.append(" ");
            let list = joined(&parts, " ");
            s.append(list.as_str());
        }
        s
    }
}

/// The constraint of a slot as a sequence of zero or one items.
pub open spec fn slot(c: Option<ColumnConstraintModel>) -> Seq<ColumnConstraintModel> {
    match c {
        Some(v) => seq![v],
        None => Seq::empty(),
    }
}

/// Model of a column definition under construction: its name, its type, and one slot
/// per constraint category.
pub struct ColumnDefinitionBuilderModel {
    pub name: Seq<char>,
    pub type_: Seq<char>,
    pub nullability: Option<ColumnConstraintModel>,
    pub primary_key: Option<ColumnConstraintModel>,
    pub unique: Option<ColumnConstraintModel>,
    pub default: Option<ColumnConstraintModel>,
    pub references: Option<ColumnConstraintModel>,
    pub check: Option<ColumnConstraintModel>,
}

/// The definition that a builder yields: its occupied slots, in the fixed order
/// nullability, primary key, unique, default, references, check.
pub open spec fn finished(b: ColumnDefinitionBuilderModel) -> ColumnDefinitionModel {
    ColumnDefinitionModel {
        name: b.name,
        type_: b.type_,
        constraints: slot(b.nullability) + slot(b.primary_key) + slot(b.unique) + slot(b.default)
            + slot(b.references) + slot(b.check),
    }
}

/// Categories strictly increase along the sequence.
pub open spec fn increasing_categories(cs: Seq<ColumnConstraintModel>) -> bool {
    forall|i: int, j: int| 0 <= i < j < cs.len() ==> category(#[trigger] cs[i]) < category(#[trigger] cs[j])
}

proof fn lemma_extend_increasing(cs: Seq<ColumnConstraintModel>, c: Option<ColumnConstraintModel>, k: int)
    requires
        increasing_categories(cs),
        forall|i: int| 0 <= i < cs.len() ==> category(#[trigger] cs[i]) < k,
        slot_in(c, k),
    ensures
        increasing_categories(cs + slot(c)),
        forall|i: int| 0 <= i < (cs + slot(c)).len() ==> category(#[trigger] (cs + slot(c))[i]) < k + 1,
{
    let ext = cs + slot(c);
    assert forall|i: int| 0 <= i < ext.len() implies category(#[trigger] ext[i]) < k + 1 by {
        if i < cs.len() {
            assert(ext[i] == cs[i]);
        }
    }
    assert forall|i: int, j: int| 0 <= i < j < ext.len() implies category(#[trigger] ext[i]) < category(
        #[trigger] ext[j],
    ) by {
        assert(ext[i] == cs[i]);
        if j < cs.len() {
            assert(ext[j] == cs[j]);
        }
    }
}

/// A column definition holds at most one constraint of each category, and its
/// constraints come in category order: whatever setters were called, in whatever order,
/// no category can be set twice.
pub proof fn lemma_one_constraint_per_category<
    N: NullabilityConstraint,
    P: PrimaryKeyConstraint,
    U: UniqueConstraint,
    D: DefaultConstraint,
    R: ReferencesConstraint,
    C: CheckConstraint,
>(b: &ColumnDefinitionBuilder<N, P, U, D, R, C>)
    ensures
        increasing_categories(finished(b@).constraints),
{
    b.nullability.lemma_category();
    b.primary_key.lemma_category();
    b.unique.lemma_category();
    b.default.lemma_category();
    b.references.lemma_category();
    b.check.lemma_category();
    let m = b@;
    let s0 = Seq::<ColumnConstraintModel>::empty();
    lemma_extend_increasing(s0, m.nullability, 0);
    let s1 = s0 + slot(m.nullability);
    lemma_extend_increasing(s1, m.primary_key, 1);
    let s2 = s1 + slot(m.primary_key);
    lemma_extend_increasing(s2, m.unique, 2);
    let s3 = s2 + slot(m.unique);
    lemma_extend_increasing(s3, m.default, 3);
    let s4 = s3 + slot(m.default);
    lemma_extend_increasing(s4, m.references, 4);
    let s5 = s4 + slot(m.references);
    lemma_extend_increasing(s5, m.check, 5);
    assert(s1 =~= slot(m.nullability));
    assert(finished(m).constraints =~= s5 + slot(m.check));
}

/// A builder with a fresh name and type and every slot empty.
pub open spec fn fresh_builder(name: Seq<char>, type_: Seq<char>) -> ColumnDefinitionBuilderModel {
    ColumnDefinitionBuilderModel {
        name,
        type_,
        nullability: None,
        primary_key: None,
        unique: None,
        default: None,
        references: None,
        check: None,
    }
}

/// A column definition under construction. Each type parameter is the slot of one
/// constraint category; a setter exists only while its slot is `NoConstraint`, so no
/// category can be set twice.
#[derive(Debug)]
pub struct ColumnDefinitionBuilder<
    N = NoConstraint,
    P = NoConstraint,
    U = NoConstraint,
    D = NoConstraint,
    R = NoConstraint,
    C = NoConstraint,
> where
    N: NullabilityConstraint,
    P: PrimaryKeyConstraint,
    U: UniqueConstraint,
    D: DefaultConstraint,
    R: ReferencesConstraint,
    C: CheckConstraint,
 {
    name: String,
    type_: String,
    nullability: N,
    primary_key: P,
    unique: U,
    default: D,
    references: R,
    check: C,
}

impl<
    N: NullabilityConstraint,
    P: PrimaryKeyConstraint,
    U: UniqueConstraint,
    D: DefaultConstraint,
    R: ReferencesConstraint,
    C: CheckConstraint,
> View for ColumnDefinitionBuilder<N, P, U, D, R, C> {
    type V = ColumnDefinitionBuilderModel;

    closed spec fn view(&self) -> ColumnDefinitionBuilderModel {
        ColumnDefinitionBuilderModel {
            name: self.name@,
            type_: self.type_@,
            nullability: self.nullability.constraint(),
            primary_key: self.primary_key.constraint(),
            unique: self.unique.constraint(),
            default: self.default.constraint(),
            references: self.references.constraint(),
            check: self.check.constraint(),
        }
    }
}

impl<
    N: NullabilityConstraint,
    P: PrimaryKeyConstraint,
    U: UniqueConstraint,
    D: DefaultConstraint,
    R: ReferencesConstraint,
    C: CheckConstraint,
> ColumnDefinitionBuilder<N, P, U, D, R, C> {
    /// Turns the builder into a definition.
    pub fn finish(self) -> (r: ColumnDefinition)
        ensures
            r@ == finished(self@),
    {
        let ghost model = self@;
        let mut constraints: Vec<ColumnConstraint> = Vec::new();
        let ghost mut expected: Seq<ColumnConstraintModel> = Seq::empty();
        match self.nullability.into_column_constraint() {
            Some(c) => constraints.push(c),
            None => {},
        }
        proof {
            expected = expected + slot(model.nullability);
            assert(views(constraints@) =~= expected);
        }
        match self.primary_key.into_column_constraint() {
            Some(c) => constraints.push(c),
            None => {},
        }
        proof {
            expected = expected + slot(model.primary_key);
            assert(views(constraints@) =~= expected);
        }
        match self.unique.into_column_constraint() {
            Some(c) => constraints.push(c),
            None => {},
        }
        proof {
            expected = expected + slot(model.unique);
            assert(views(constraints@) =~= expected);
        }
        match self.default.into_column_constraint() {
            Some(c) => constraints.push(c),
            None => {},
        }
        proof {
            expected = expected + slot(model.default);
            assert(views(constraints@) =~= expected);
        }
        match self.references.into_column_constraint() {
            Some(c) => constraints.push(c),
            None => {},
        }
        proof {
            expected = expected + slot(model.references);
            assert(views(constraints@) =~= expected);
        }
        match self.check.into_column_constraint() {
            Some(c) => constraints.push(c),
            None => {},
        }
        proof {
            expected = expected + slot(model.check);
            assert(views(constraints@) =~= expected);
        }
        ColumnDefinition { name: self.name, type_: self.type_, constraints }
    }
}

impl ColumnDefinitionBuilder {
    fn new(name: String, type_: String) -> (r: ColumnDefinitionBuilder)
        ensures
            r@ == fresh_builder(name@, type_@),
    {
        ColumnDefinitionBuilder {
            name,
            type_,
            nullability: NoConstraint,
            primary_key: NoConstraint,
            unique: NoConstraint,
            default: NoConstraint,
            references: NoConstraint,
            check: NoConstraint,
        }
    }
}

impl<P: PrimaryKeyConstraint, U: UniqueConstraint, D: DefaultConstraint, R: ReferencesConstraint, C: CheckConstraint> ColumnDefinitionBuilder<NoConstraint, P, U, D, R, C> {
    /// Sets the nullability slot to `NULL`.
    pub fn null(self) -> (r: ColumnDefinitionBuilder<IsNull, P, U, D, R, C>)
        ensures
            r@ == (ColumnDefinitionBuilderModel { nullability: Some(ColumnConstraintModel::Null), ..self@ }),
    {
        ColumnDefinitionBuilder {
            name: self.name,
            type_: self.type_,
            nullability: IsNull,
            primary_key: self.primary_key,
            unique: self.unique,
            default: self.default,
            references: self.references,
            check: self.check,
        }
    }

    /// Sets the nullability slot to `NOT NULL`.
    pub fn not_null(self) -> (r: ColumnDefinitionBuilder<IsNotNull, P, U, D, R, C>)
        ensures
            r@ == (ColumnDefinitionBuilderModel { nullability: Some(ColumnConstraintModel::NotNull), ..self@ }),
    {
        ColumnDefinitionBuilder {
            name: self.name,
            type_: self.type_,
            nullability: IsNotNull,
            primary_key: self.primary_key,
            unique: self.unique,
            default: self.default,
            references: self.references,
            check: self.check,
        }
    }
}

impl<N: NullabilityConstraint, U: UniqueConstraint, D: DefaultConstraint, R: ReferencesConstraint, C: CheckConstraint> ColumnDefinitionBuilder<N, NoConstraint, U, D, R, C> {
    /// Sets the primary key slot to `PRIMARY KEY`.
    pub fn primary_key(self) -> (r: ColumnDefinitionBuilder<N, IsPrimaryKey, U, D, R, C>)
        ensures
            r@ == (ColumnDefinitionBuilderModel { primary_key: Some(ColumnConstraintModel::PrimaryKey), ..self@ }),
    {
        ColumnDefinitionBuilder {
            name: self.name,
            type_: self.type_,
            nullability: self.nullability,
            primary_key: IsPrimaryKey,
            unique: self.unique,
            default: self.default,
            references: self.references,
            check: self.check,
        }
    }
}

impl<N: NullabilityConstraint, P: PrimaryKeyConstraint, D: DefaultConstraint, R: ReferencesConstraint, C: CheckConstraint> ColumnDefinitionBuilder<N, P, NoConstraint, D, R, C> {
    /// Sets the unique slot to `UNIQUE`.
    pub fn unique(self) -> (r: ColumnDefinitionBuilder<N, P, IsUnique, D, R, C>)
        ensures
            r@ == (ColumnDefinitionBuilderModel { unique: Some(ColumnConstraintModel::Unique), ..self@ }),
    {
        ColumnDefinitionBuilder {
            name: self.name,
            type_: self.type_,
            nullability: self.nullability,
            primary_key: self.primary_key,
            unique: IsUnique,
            default: self.default,
            references: self.references,
            check: self.check,
        }
    }
}

impl<N: NullabilityConstraint, P: PrimaryKeyConstraint, U: UniqueConstraint, R: ReferencesConstraint, C: CheckConstraint> ColumnDefinitionBuilder<N, P, U, NoConstraint, R, C> {
    /// Sets the default slot to `DEFAULT <expression>`.
    pub fn default<E: IntoFragment<Expression>>(self, expr: E) -> (r: ColumnDefinitionBuilder<N, P, U, HasDefault, R, C>)
        ensures
            r@ == (ColumnDefinitionBuilderModel { default: Some(ColumnConstraintModel::Default(expr.fragment())), ..self@ }),
    {
        ColumnDefinitionBuilder {
            name: self.name,
            type_: self.type_,
            nullability: self.nullability,
            primary_key: self.primary_key,
            unique: self.unique,
            default: HasDefault(expr.into_fragment()),
            references: self.references,
            check: self.check,
        }
    }
}

impl<N: NullabilityConstraint, P: PrimaryKeyConstraint, U: UniqueConstraint, D: DefaultConstraint, C: CheckConstraint> ColumnDefinitionBuilder<N, P, U, D, NoConstraint, C> {
    /// Sets the references slot to `REFERENCES <table>(<column>)`.
    pub fn references<T: IntoFragment<TableName>, K: IntoFragment<Column>>(self, table_name: T, column: K) -> (r: ColumnDefinitionBuilder<N, P, U, D, References, C>)
        ensures
            r@ == (ColumnDefinitionBuilderModel { references: Some(ColumnConstraintModel::References(table_name.fragment(), column.fragment())), ..self@ }),
    {
        ColumnDefinitionBuilder {
            name: self.name,
            type_: self.type_,
            nullability: self.nullability,
            primary_key: self.primary_key,
            unique: self.unique,
            default: self.default,
            references: References(table_name.into_fragment(), column.into_fragment()),
            check: self.check,
        }
    }
}

impl<N: NullabilityConstraint, P: PrimaryKeyConstraint, U: UniqueConstraint, D: DefaultConstraint, R: ReferencesConstraint> ColumnDefinitionBuilder<N, P, U, D, R, NoConstraint> {
    /// Sets the check slot to `CHECK (<condition>)`.
    pub fn check<E: IntoFragment<Condition>>(self, cond: E) -> (r: ColumnDefinitionBuilder<N, P, U, D, R, Check>)
        ensures
            r@ == (ColumnDefinitionBuilderModel { check: Some(ColumnConstraintModel::Check(cond.fragment())), ..self@ }),
    {
        ColumnDefinitionBuilder {
            name: self.name,
            type_: self.type_,
            nullability: self.nullability,
            primary_key: self.primary_key,
            unique: self.unique,
            default: self.default,
            references: self.references,
            check: Check(cond.into_fragment()),
        }
    }
}

/// A `(name, type)` pair, from which a column definition can be started by setting one
/// of its constraints.
pub trait ColumnDefinitionable: IntoFragment<ColumnDefinition> + Sized {
    /// The name and the type.
    spec fn name_and_type(self) -> (Seq<char>, Seq<char>);

    /// Starts a definition with `NULL`.
    fn null(self) -> (r: ColumnDefinitionBuilder<IsNull>)
        ensures
            r@ == (ColumnDefinitionBuilderModel {
                nullability: Some(ColumnConstraintModel::Null),
                ..fresh_builder(self.name_and_type().0, self.name_and_type().1)
            }),
    ;

    /// Starts a definition with `NOT NULL`.
    fn not_null(self) -> (r: ColumnDefinitionBuilder<IsNotNull>)
        ensures
            r@ == (ColumnDefinitionBuilderModel {
                nullability: Some(ColumnConstraintModel::NotNull),
                ..fresh_builder(self.name_and_type().0, self.name_and_type().1)
            }),
    ;

    /// Starts a definition with `PRIMARY KEY`.
    fn primary_key(self) -> (r: ColumnDefinitionBuilder<NoConstraint, IsPrimaryKey>)
        ensures
            r@ == (ColumnDefinitionBuilderModel {
                primary_key: Some(ColumnConstraintModel::PrimaryKey),
                ..fresh_builder(self.name_and_type().0, self.name_and_type().1)
            }),
    ;

    /// Starts a definition with `UNIQUE`.
    fn unique(self) -> (r: ColumnDefinitionBuilder<NoConstraint, NoConstraint, IsUnique>)
        ensures
            r@ == (ColumnDefinitionBuilderModel {
                unique: Some(ColumnConstraintModel::Unique),
                ..fresh_builder(self.name_and_type().0, self.name_and_type().1)
            }),
    ;

    /// Starts a definition with `DEFAULT <expression>`.
    fn default<E: IntoFragment<Expression>>(self, expr: E) -> (r: ColumnDefinitionBuilder<NoConstraint, NoConstraint, NoConstraint, HasDefault>)
        ensures
            r@ == (ColumnDefinitionBuilderModel {
                default: Some(ColumnConstraintModel::Default(expr.fragment())),
                ..fresh_builder(self.name_and_type().0, self.name_and_type().1)
            }),
    ;

    /// Starts a definition with `REFERENCES <table>(<column>)`.
    fn references<T: IntoFragment<TableName>, K: IntoFragment<Column>>(self, table_name: T, column: K) -> (r: ColumnDefinitionBuilder<NoConstraint, NoConstraint, NoConstraint, NoConstraint, References>)
        ensures
            r@ == (ColumnDefinitionBuilderModel {
                references: Some(ColumnConstraintModel::References(table_name.fragment(), column.fragment())),
                ..fresh_builder(self.name_and_type().0, self.name_and_type().1)
            }),
    ;

    /// Starts a definition with `CHECK (<condition>)`.
    fn check<E: IntoFragment<Condition>>(self, cond: E) -> (r: ColumnDefinitionBuilder<NoConstraint, NoConstraint, NoConstraint, NoConstraint, NoConstraint, Check>)
        ensures
            r@ == (ColumnDefinitionBuilderModel {
                check: Some(ColumnConstraintModel::Check(cond.fragment())),
                ..fresh_builder(self.name_and_type().0, self.name_and_type().1)
            }),
    ;
}

impl<A: IntoFragment<String>, B: IntoFragment<String>> ColumnDefinitionable for (A, B) {
    open spec fn name_and_type(self) -> (Seq<char>, Seq<char>) {
        (self.0.fragment(), self.1.fragment())
    }

    fn null(self) -> (r: ColumnDefinitionBuilder<IsNull>) {
        ColumnDefinitionBuilder::new(self.0.into_fragment(), self.1.into_fragment()).null()
    }

    fn not_null(self) -> (r: ColumnDefinitionBuilder<IsNotNull>) {
        ColumnDefinitionBuilder::new(self.0.into_fragment(), self.1.into_fragment()).not_null()
    }

    fn primary_key(self) -> (r: ColumnDefinitionBuilder<NoConstraint, IsPrimaryKey>) {
        ColumnDefinitionBuilder::new(self.0.into_fragment(), self.1.into_fragment()).primary_key()
    }

    fn unique(self) -> (r: ColumnDefinitionBuilder<NoConstraint, NoConstraint, IsUnique>) {
        ColumnDefinitionBuilder::new(self.0.into_fragment(), self.1.into_fragment()).unique()
    }

    fn default<E: IntoFragment<Expression>>(self, expr: E) -> (r: ColumnDefinitionBuilder<NoConstraint, NoConstraint, NoConstraint, HasDefault>) {
        ColumnDefinitionBuilder::new(self.0.into_fragment(), self.1.into_fragment()).default(expr)
    }

    fn references<T: IntoFragment<TableName>, K: IntoFragment<Column>>(self, table_name: T, column: K) -> (r: ColumnDefinitionBuilder<NoConstraint, NoConstraint, NoConstraint, NoConstraint, References>) {
        ColumnDefinitionBuilder::new(self.0.into_fragment(), self.1.into_fragment()).references(table_name, column)
    }

    fn check<E: IntoFragment<Condition>>(self, cond: E) -> (r: ColumnDefinitionBuilder<NoConstraint, NoConstraint, NoConstraint, NoConstraint, NoConstraint, Check>) {
        ColumnDefinitionBuilder::new(self.0.into_fragment(), self.1.into_fragment()).check(cond)
    }
}

impl<A: IntoFragment<String>, B: IntoFragment<String>> IntoFragment<ColumnDefinition> for (A, B) {
    open spec fn fragment(self) -> ColumnDefinitionModel {
        ColumnDefinitionModel {
            name: self.0.fragment(),
            type_: self.1.fragment(),
            constraints: Seq::empty(),
        }
    }

    fn into_fragment(self) -> (r: ColumnDefinition) {
        let r = ColumnDefinition {
            name: self.0.into_fragment(),
            type_: self.1.into_fragment(),
            constraints: Vec::new(),
        };
        assert(r@.constraints =~= Seq::<ColumnConstraintModel>::empty());
        r
    }
}

impl<
    N: NullabilityConstraint,
    P: PrimaryKeyConstraint,
    U: UniqueConstraint,
    D: DefaultConstraint,
    R: ReferencesConstraint,
    C: CheckConstraint,
> IntoFragment<ColumnDefinition> for ColumnDefinitionBuilder<N, P, U, D, R, C> {
    open spec fn fragment(self) -> ColumnDefinitionModel {
        finished(self@)
    }

    fn into_fragment(self) -> (r: ColumnDefinition) {
        self.finish()
    }
}

impl IntoFragment<ColumnDefinition> for ColumnDefinition {
    open spec fn fragment(self) -> ColumnDefinitionModel {
        self@
    }

    fn into_fragment(self) -> (r: ColumnDefinition) {
        self
    }
}

/// Model of a table constraint.
pub enum TableConstraintModel {
    Unique(Seq<Seq<char>>),
}

/// `UNIQUE (<columns>)`
pub open spec fn table_constraint_text(c: TableConstraintModel) -> Seq<char> {
    match c {
        TableConstraintModel::Unique(columns) => "UNIQUE ("@ + join_with(columns, ", "@) + ")"@,
    }
}

/// The texts of a list of table constraints.
pub open spec fn table_constraint_texts(cs: Seq<TableConstraintModel>) -> Seq<Seq<char>> {
    cs.map_values(|c: TableConstraintModel| table_constraint_text(c))
}

/// A constraint on a whole table.
#[derive(Debug, Clone)]
pub enum TableConstraint {
    Unique(Vec<Column>),
}

impl View for TableConstraint {
    type V = TableConstraintModel;

    closed spec fn view(&self) -> TableConstraintModel {
        match self {
            TableConstraint::Unique(columns) => TableConstraintModel::Unique(views(columns@)),
        }
    }
}

impl TableConstraint {
    /// Renders the constraint.
    pub fn to_string(&self) -> (r: String)
        ensures
            r@ == table_constraint_text(self@),
    {
        match self {
            TableConstraint::Unique(columns) => {
                let names = column_texts(columns);
                let mut s = "UNIQUE (".to_owned();
                let list = joined(&names, ", ");
                s.append(list.as_str());
                s.append(")");
                s
            },
        }
    }
}

/// Model of a `CREATE TABLE` statement.
pub struct CreateTableModel {
    pub name: Seq<char>,
    pub if_not_exists: bool,
    pub columns: Seq<ColumnDefinitionModel>,
    pub constraints: Seq<TableConstraintModel>,
}

/// `CREATE TABLE [IF NOT EXISTS] <name> (<column definitions>[, <table constraints>])`
pub open spec fn create_table_text(m: CreateTableModel) -> Seq<char> {
    "CREATE TABLE"@ + (if m.if_not_exists {
        " IF NOT EXISTS"@
    } else {
        Seq::empty()
    }) + " "@ + m.name + " ("@ + join_with(column_definition_texts(m.columns), ", "@) + (
    if m.constraints.len() > 0 {
        ", "@ + join_with(table_constraint_texts(m.constraints), ", "@)
    } else {
        Seq::empty()
    }) + ")"@
}

/// Model of a `CREATE TABLE` statement whose columns are still to come.
pub struct CreateTableBuilderModel {
    pub name: Seq<char>,
    pub if_not_exists: bool,
}

/// A `CREATE TABLE` statement whose columns are still to come.
pub struct CreateTableBuilder {
    table_name: TableName,
    if_not_exists: bool,
}

impl View for CreateTableBuilder {
    type V = CreateTableBuilderModel;

    closed spec fn view(&self) -> CreateTableBuilderModel {
        CreateTableBuilderModel { name: self.table_name@, if_not_exists: self.if_not_exists }
    }
}

/// Starts a `CREATE TABLE` statement.
pub fn create_table<N: IntoFragment<TableName>>(table_name: N) -> (r: CreateTableBuilder)
    ensures
        r@ == (CreateTableBuilderModel { name: table_name.fragment(), if_not_exists: false }),
{
    CreateTableBuilder { table_name: table_name.into_fragment(), if_not_exists: false }
}

impl CreateTableBuilder {
    /// Adds `IF NOT EXISTS`.
    pub fn if_not_exists(self) -> (r: CreateTableBuilder)
        ensures
            r@ == (CreateTableBuilderModel { if_not_exists: true, ..self@ }),
    {
        CreateTableBuilder { if_not_exists: true, ..self }
    }

    /// Gives the column definitions, all at once.
    pub fn columns<C: IntoIteratorOfSameType<ColumnDefinition>>(self, columns: C) -> (r:
        CreateTable)
        ensures
            r@ == (CreateTableModel {
                name: self@.name,
                if_not_exists: self@.if_not_exists,
                columns: columns.items(),
                constraints: Seq::empty(),
            }),
    {
        let r = CreateTable {
            name: self.table_name,
            if_not_exists: self.if_not_exists,
            columns: columns.into_some_iter(),
            constraints: Vec::new(),
        };
        assert(r@.constraints =~= Seq::<TableConstraintModel>::empty());
        r
    }
}

/// A `CREATE TABLE` statement.
#[derive(Debug, Clone)]
pub struct CreateTable {
    name: TableName,
    if_not_exists: bool,
    columns: Vec<ColumnDefinition>,
    constraints: Vec<TableConstraint>,
}

impl View for CreateTable {
    type V = CreateTableModel;

    closed spec fn view(&self) -> CreateTableModel {
        CreateTableModel {
            name: self.name@,
            if_not_exists: self.if_not_exists,
            columns: views(self.columns@),
            constraints: views(self.constraints@),
        }
    }
}

impl CreateTable {
    /// Adds a `UNIQUE (<columns>)` table constraint.
    pub fn unique<C: IntoIteratorOfSameType<Column>>(self, columns: C) -> (r: CreateTable)
        ensures
            r@ == (CreateTableModel {
                constraints: self@.constraints.push(TableConstraintModel::Unique(columns.items())),
                ..self@
            }),
    {
        let mut s = self;
        let ghost before = s.constraints@;
        let constraint = TableConstraint::Unique(columns.into_some_iter());
        s.constraints.push(constraint);
        assert(views(s.constraints@) =~= views(before).push(constraint@));
        s
    }

    /// Renders the statement.
    pub fn to_string(&self) -> (r: String)
        ensures
            r@ == create_table_text(self@),
    {
        let mut columns: Vec<String> = Vec::new();
        let mut i: usize = 0;
        while i < self.columns.len()
            invariant
                i <= self.columns@.len(),
                texts(columns@) == column_definition_texts(views(self.columns@)).take(i as int),
            decreases self.columns@.len() - i,
        {
            let ghost before = columns@;
            columns.push(self.columns[i].to_string());
            assert(texts(columns@) =~= texts(before).push(
                column_definition_text(self.columns@[i as int]@),
            ));
            assert(texts(columns@) =~= column_definition_texts(views(self.columns@)).take(
                i as int + 1,
            ));
            i = i + 1;
        }
        assert(column_definition_texts(views(self.columns@)).take(i as int)
            =~= column_definition_texts(views(self.columns@)));
        let mut constraints: Vec<String> = Vec::new();
        let mut j: usize = 0;
        while j < self.constraints.len()
            invariant
                j <= self.constraints@.len(),
                texts(constraints@) == table_constraint_texts(views(self.constraints@)).take(j as int),
            decreases self.constraints@.len() - j,
        {
            let ghost before = constraints@;
            constraints.push(self.constraints[j].to_string());
            assert(texts(constraints@) =~= texts(before).push(
                table_constraint_text(self.constraints@[j as int]@),
            ));
            assert(texts(constraints@) =~= table_constraint_texts(views(self.constraints@)).take(
                j as int + 1,
            ));
            j = j + 1;
        }
        assert(table_constraint_texts(views(self.constraints@)).take(j as int)
            =~= table_constraint_texts(views(self.constraints@)));
        let mut s = "CREATE TABLE".to_owned();
        if self.if_not_exists {
            s.append(" IF NOT EXISTS");
        }
        let ghost head = s@;
        s.append(" ");
        s.append(self.name.as_str());
        s.append(" (");
        let column_list = joined(&columns, ", ");
        s.append(column_list.as_str());
        let ghost body = s@;
        if self.constraints.len() > 0 {
            s.append(", ");
            let constraint_list = joined(&constraints, ", ");
            s.append(constraint_list.as_str());
        }
        let ghost tail = s@;
        s.append(")");
        proof {
            let m = self@;
            assert(head =~= "CREATE TABLE"@ + (if m.if_not_exists {
                " IF NOT EXISTS"@
            } else {
                Seq::empty()
            }));
            assert(tail =~= body + (if m.constraints.len() > 0 {
                ", "@ + join_with(table_constraint_texts(m.constraints), ", "@)
            } else {
                Seq::empty()
            }));
            assert(s@ =~= create_table_text(m));
        }
        s
    }
}

} // verus!
