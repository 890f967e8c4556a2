//! The PostgreSQL dialect: statement builders, the fragments they are built from, and
//! a generator of parameter placeholders.
//!
//! | Entry function   | Statement      |
//! |------------------|----------------|
//! | [`select`]       | `SELECT`       |
//! | [`insert_into`]  | `INSERT INTO`  |
//! | [`update`]       | `UPDATE`       |
//! | [`delete_from`]  | `DELETE FROM`  |
//! | [`create_table`] | `CREATE TABLE` |
//! | [`with`]         | `WITH` prefix  |
mod create_table;
mod delete_from;
mod fragments;
mod from_item;
mod insert_into;
mod order_by;
mod parameters;
mod select;
mod update;
mod with;

pub use create_table::{
    category, column_constraint_text, column_constraint_texts, column_definition_text,
    column_definition_texts, create_table, create_table_text, finished, fresh_builder,
    increasing_categories, lemma_one_constraint_per_category, slot, slot_in,
    table_constraint_text, table_constraint_texts, Check, CheckConstraint, ColumnConstraint,
    ColumnConstraintModel, ColumnDefinition, ColumnDefinitionBuilder,
    ColumnDefinitionBuilderModel, ColumnDefinitionModel, ColumnDefinitionable, CreateTable,
    CreateTableBuilder, CreateTableBuilderModel, CreateTableModel, DefaultConstraint, HasDefault,
    ImpossibleConstraint, IntoColumnConstraint, IsNotNull, IsNull, IsPrimaryKey, IsUnique,
    NoConstraint, NullabilityConstraint, PrimaryKeyConstraint, References, ReferencesConstraint,
    TableConstraint, TableConstraintModel, UniqueConstraint,
};
pub use delete_from::{
    delete_from, delete_from_text, delete_returning, delete_where, lemma_delete_from_accumulates,
    lemma_delete_from_order, DeleteFrom, DeleteFromModel,
};
pub use fragments::{
    alias_text, pair_text, Alias, Aliasable, Column, ColumnValuePair, Condition, Expression,
    OutputExpression, SortExpression, TableName,
};
pub use from_item::{
    from_item_text, from_item_texts, join_condition_text, join_text, join_type_text, joins_text,
    target_text, with_join, FromItem, FromItemModel, Join, JoinBuilder, JoinBuilderModel,
    JoinConditionModel, JoinModel, JoinType, Joinable,
};
pub use insert_into::{
    conflict_action_text, insert_into, insert_into_text, insert_on_conflict, insert_returning,
    insert_rows_with_columns, insert_rows_without_columns, insert_start,
    lemma_insert_into_accumulates, lemma_insert_into_order, lemma_insert_rows_match_columns,
    lemma_rows_have_arity, lemma_rows_match_columns, row_text, row_texts, row_views, rows_of,
    rows_text, BareInsertInto, BareInsertIntoModel, ConflictAction, ConflictActionModel,
    DefaultValues, InsertInto, InsertIntoColumnsBuilder, InsertIntoColumnsBuilderModel,
    InsertIntoModel, OnConflictClause, OnConflictClauseBuilder, Values, WithColumns,
    WithColumnsModel, WithoutColumns,
};
pub use order_by::{
    direction_text, nulls_text, order_by_text, order_by_texts, Direction, Nulls, OrderBy,
    OrderByModel, Orderable,
};
pub use parameters::{
    lemma_batches_disjoint, lemma_decimal_injective, lemma_placeholder_injective, placeholder,
    placeholders, Parameters,
};
pub use select::{
    apply_step, distinct_text, lemma_select_last_write_wins, lemma_select_steps_accumulate,
    lemma_select_steps_commute, merged_step, number_clause, select, select_start, select_text,
    step_clause, Distinct, DistinctModel, Select, SelectModel, SelectStep,
};
pub use update::{
    lemma_update_accumulates, lemma_update_order, pair_texts, update, update_returning,
    update_set, update_text, update_where, BareUpdate, BareUpdateModel, Update, UpdateModel,
};
pub use with::{
    with, with_clause_text, with_prefix, with_query_text, with_query_texts, UsableInWithQuery,
    WithClause, WithQuery, WithQueryBuilder, WithQueryBuilderModel, WithQueryModel,
};
