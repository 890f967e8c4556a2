use vstd::prelude::*;

use crate::postgres::fragments::{alias_text, Alias};
use crate::tools::arity::views;
use crate::tools::display::{join_items, join_with, texts};
use crate::tools::{IntoFragment, IntoIteratorOfSameType};

verus! {

/// The kind of a join.
#[derive(Debug, Clone, Copy, PartialEq, Eq, Structural)]
pub enum JoinType {
    Unspecified,
    Inner,
    Left,
    LeftOuter,
    Right,
    RightOuter,
    Full,
    FullOuter,
    Cross,
}

/// The keyword of a join kind.
pub open spec fn join_type_text(t: JoinType) -> Seq<char> {
    match t {
        JoinType::Unspecified => "JOIN"@,
        JoinType::Inner => "INNER JOIN"@,
        JoinType::Left => "LEFT JOIN"@,
        JoinType::LeftOuter => "LEFT OUTER JOIN"@,
        JoinType::Right => "RIGHT JOIN"@,
        JoinType::RightOuter => "RIGHT OUTER JOIN"@,
        JoinType::Full => "FULL JOIN"@,
        JoinType::FullOuter => "FULL OUTER JOIN"@,
        JoinType::Cross => "CROSS JOIN"@,
    }
}

fn join_type_str(t: JoinType) -> (r: &'static str)
    ensures
        r@ == join_type_text(t),
{
    match t {
        JoinType::Unspecified => "JOIN",
        JoinType::Inner => "INNER JOIN",
        JoinType::Left => "LEFT JOIN",
        JoinType::LeftOuter => "LEFT OUTER JOIN",
        JoinType::Right => "RIGHT JOIN",
        JoinType::RightOuter => "RIGHT OUTER JOIN",
        JoinType::Full => "FULL JOIN",
        JoinType::FullOuter => "FULL OUTER JOIN",
        JoinType::Cross => "CROSS JOIN",
    }
}

/// Model of the condition of a join.
pub enum JoinConditionModel {
    On(Seq<char>),
    Using(Seq<Seq<char>>),
}

/// `ON <condition>` or `USING (<columns>)`
pub open spec fn join_condition_text(c: JoinConditionModel) -> Seq<char> {
    match c {
        JoinConditionModel::On(e) => "ON "@ + e,
        JoinConditionModel::Using(columns) => "USING ("@ + join_with(columns, ", "@) + ")"@,
    }
}

/// Model of one join: its kind, its target item (which may carry joins of its own), and
/// its optional condition.
pub struct JoinModel {
    pub kind: JoinType,
    pub target: FromItemModel,
    pub condition: Option<JoinConditionModel>,
}

/// Model of a `FROM` item: its source and its joins in order.
pub struct FromItemModel {
    pub source: Seq<char>,
    pub joins: Seq<JoinModel>,
}

/// `<source> [<join> <join> ...]`
pub open spec fn from_item_text(f: FromItemModel) -> Seq<char>
    decreases f, f.joins.len() + 1,
{
    if f.joins.len() == 0 {
        f.source
    } else {
        f.source + " "@ + joins_text(f, f.joins.len() as int)
    }
}

/// The texts of the first `n` joins of `f`, separated by spaces.
pub open spec fn joins_text(f: FromItemModel, n: int) -> Seq<char>
    decreases f, n,
{
    if n <= 0 || n > f.joins.len() {
        Seq::empty()
    } else if n == 1 {
        join_text(f.joins[0])
    } else {
        joins_text(f, n - 1) + " "@ + join_text(f.joins[n - 1])
    }
}

/// `<KIND> <target> [<condition>]`
pub open spec fn join_text(j: JoinModel) -> Seq<char>
    decreases j, 0int,
{
    join_type_text(j.kind) + " "@ + target_text(j.target) + match j.condition {
        Some(c) => " "@ + join_condition_text(c),
        None => Seq::empty(),
    }
}

/// How an item is written as the target of a join: in parentheses when it has joins of
/// its own, so that its grouping is kept.
pub open spec fn target_text(f: FromItemModel) -> Seq<char>
    decreases f, f.joins.len() + 2,
{
    if f.joins.len() > 0 {
        "("@ + from_item_text(f) + ")"@
    } else {
        from_item_text(f)
    }
}

#[derive(Debug, Clone)]
enum JoinCondition {
    On(String),
    Using(Vec<String>),
}

impl View for JoinCondition {
    type V = JoinConditionModel;

    closed spec fn view(&self) -> JoinConditionModel {
        match self {
            JoinCondition::On(e) => JoinConditionModel::On(e@),
            JoinCondition::Using(columns) => JoinConditionModel::Using(texts(columns@)),
        }
    }
}

/// One join of a `FROM` item: its kind, the item joined to, and its condition.
#[derive(Debug)]
pub struct Join {
    type_: JoinType,
    to: FromItem,
    condition: Option<JoinCondition>,
}

spec fn condition_model(c: Option<JoinCondition>) -> Option<JoinConditionModel> {
    match c {
        Some(c) => Some(c@),
        None => None,
    }
}

/// The model of an item, down through the targets of its joins.
pub closed spec fn from_item_model(f: &FromItem) -> FromItemModel
    decreases f, 1int,
{
    FromItemModel {
        source: f.table_name@,
        joins: Seq::new(f.joins@.len(), |i: int| join_model_at(f, i)),
    }
}

/// The model of the join at position `i` of an item.
pub closed spec fn join_model_at(f: &FromItem, i: int) -> JoinModel
    decreases f, 0int,
{
    if 0 <= i < f.joins@.len() {
        JoinModel {
            kind: f.joins@[i].type_,
            target: from_item_model(&f.joins@[i].to),
            condition: condition_model(f.joins@[i].condition),
        }
    } else {
        arbitrary()
    }
}

impl View for Join {
    type V = JoinModel;

    closed spec fn view(&self) -> JoinModel {
        JoinModel { kind: self.type_, target: self.to@, condition: condition_model(self.condition) }
    }
}

impl Join {
    fn new(type_: JoinType, to: FromItem, condition: Option<JoinCondition>) -> (r: Join)
        ensures
            r@ == (JoinModel { kind: type_, target: to@, condition: condition_model(condition) }),
    {
        Join { type_, to, condition }
    }

    /// Renders the join.
    pub fn to_string(&self) -> (r: String)
        ensures
            r@ == join_text(self@),
        decreases self,
    {
        let mut s = join_type_str(self.type_).to_owned();
        s.append(" ");
        let target = self.to.to_string();
        if self.to.has_joins() {
            s.append("(");
            s.append(target.as_str());
            s.append(")");
        } else {
            s.append(target.as_str());
        }
        match &self.condition {
            Some(JoinCondition::On(e)) => {
                s.append(" ON ");
                s.append(e.as_str());
            },
            Some(JoinCondition::Using(columns)) => {
                s.append(" USING (");
                let list = join_items(columns, ", ");
                s.append(list.as_str());
                s.append(")");
            },
            None => {},
        }
        proof {
            reveal_strlit(" ON ");
            reveal_strlit("ON ");
            reveal_strlit(" USING (");
            reveal_strlit("USING (");
            reveal_strlit(" ");
            assert(s@ =~= join_text(self@));
        }
        s
    }
}

/// A source of a `FROM` clause, with the joins that follow it.
#[derive(Debug)]
pub struct FromItem {
    table_name: String,
    joins: Vec<Join>,
}

impl View for FromItem {
    type V = FromItemModel;

    closed spec fn view(&self) -> FromItemModel {
        from_item_model(self)
    }
}

impl FromItem {
    proof fn lemma_join_view(&self, i: int)
        requires
            0 <= i < self.joins@.len(),
        ensures
            self@.joins.len() == self.joins@.len(),
            self@.joins[i] == self.joins@[i]@,
    {
    }

    fn new(table_name: String) -> (r: FromItem)
        ensures
            r@ == (FromItemModel { source: table_name@, joins: Seq::empty() }),
    {
        let r = FromItem { table_name, joins: Vec::new() };
        assert(r@.joins =~= Seq::<JoinModel>::empty());
        r
    }

    /// Whether the item carries joins.
    pub fn has_joins(&self) -> (r: bool)
        ensures
            r == (self@.joins.len() > 0),
    {
        self.joins.len() > 0
    }

    /// Appends a join to the end of the chain.
    pub fn add_join(&mut self, join: Join)
        ensures
            final(self)@ == with_join(old(self)@, join@),
    {
        let ghost before = *self;
        self.joins.push(join);
        proof {
            assert forall|i: int| 0 <= i < before.joins@.len() implies #[trigger] join_model_at(
                self,
                i,
            ) == join_model_at(&before, i) by {
                assert(self.joins@[i] == before.joins@[i]);
            }
            assert(join_model_at(self, before.joins@.len() as int) == join@);
            assert(self@.joins =~= before@.joins.push(join@));
        }
    }

    /// Renders the item and its joins.
    pub fn to_string(&self) -> (r: String)
        ensures
            r@ == from_item_text(self@),
        decreases self,
    {
        let ghost m = self@;
        let mut s = self.table_name.clone();
        if self.joins.len() > 0 {
            let mut out = String::new();
            let mut i: usize = 0;
            while i < self.joins.len()
                invariant
                    i <= self.joins@.len(),
                    m == self@,
                    m.joins.len() == self.joins@.len(),
                    i == 0 ==> out@.len() == 0,
                    i > 0 ==> out@ == joins_text(m, i as int),
                decreases self.joins@.len() - i,
            {
                proof {
                    self.lemma_join_view(i as int);
                }
                let piece = self.joins[i].to_string();
                let ghost before = out@;
                if i > 0 {
                    out.append(" ");
                }
                out.append(piece.as_str());
                proof {
                    if i > 0 {
                        assert(out@ =~= before + " "@ + piece@);
                    } else {
                        assert(out@ =~= piece@);
                    }
                }
                i = i + 1;
            }
            s.append(" ");
            s.append(out.as_str());
        }
        s
    }
}

/// The texts of a list of items.
pub open spec fn from_item_texts(items: Seq<FromItemModel>) -> Seq<Seq<char>> {
    items.map_values(|f: FromItemModel| from_item_text(f))
}

/// The texts of a list of items.
pub(crate) fn render_from_items(v: &Vec<FromItem>) -> (r: Vec<String>)
    ensures
        texts(r@) == from_item_texts(views(v@)),
{
    let mut r: Vec<String> = Vec::new();
    let mut i: usize = 0;
    while i < v.len()
        invariant
            i <= v@.len(),
            texts(r@) == from_item_texts(views(v@)).take(i as int),
        decreases v@.len() - i,
    {
        let ghost before = r@;
        r.push(v[i].to_string());
        assert(texts(r@) =~= texts(before).push(from_item_text(v@[i as int]@)));
        assert(texts(r@) =~= from_item_texts(views(v@)).take(i as int + 1));
        i = i + 1;
    }
    assert(from_item_texts(views(v@)).take(i as int) =~= from_item_texts(views(v@)));
    r
}

/// Appends a join to the model of an item.
pub open spec fn with_join(f: FromItemModel, j: JoinModel) -> FromItemModel {
    FromItemModel { source: f.source, joins: f.joins.push(j) }
}

/// A join whose kind and target are chosen and whose condition is still to come.
pub struct JoinBuilder {
    from: FromItem,
    to: FromItem,
    type_: JoinType,
}

/// Model of a pending join: the item joined from, the target, and the kind.
pub struct JoinBuilderModel {
    pub from: FromItemModel,
    pub to: FromItemModel,
    pub kind: JoinType,
}

impl View for JoinBuilder {
    type V = JoinBuilderModel;

    closed spec fn view(&self) -> JoinBuilderModel {
        JoinBuilderModel { from: self.from@, to: self.to@, kind: self.type_ }
    }
}

impl JoinBuilder {
    /// Completes the join with an `ON` condition.
    pub fn on(self, condition: &str) -> (r: FromItem)
        ensures
            r@ == with_join(
                self@.from,
                JoinModel {
                    kind: self@.kind,
                    target: self@.to,
                    condition: Some(JoinConditionModel::On(condition@)),
                },
            ),
    {
        let mut from = self.from;
        let join = Join::new(self.type_, self.to, Some(JoinCondition::On(condition.to_owned())));
        from.add_join(join);
        from
    }

    /// Completes the join with a `USING (...)` list of columns.
    pub fn using<C: IntoIteratorOfSameType<String>>(self, columns: C) -> (r: FromItem)
        ensures
            r@ == with_join(
                self@.from,
                JoinModel {
                    kind: self@.kind,
                    target: self@.to,
                    condition: Some(JoinConditionModel::Using(columns.items())),
                },
            ),
    {
        let mut from = self.from;
        let list = columns.into_some_iter();
        let join = Join::new(self.type_, self.to, Some(JoinCondition::Using(list)));
        from.add_join(join);
        from
    }
}

/// Things that can be joined to other items.
pub trait Joinable: IntoFragment<FromItem> {
    fn join<F: IntoFragment<FromItem>>(self, to: F) -> (r: JoinBuilder)
        ensures
            r@ == (JoinBuilderModel { from: self.fragment(), to: to.fragment(), kind: JoinType::Unspecified }),
    ;

    fn inner_join<F: IntoFragment<FromItem>>(self, to: F) -> (r: JoinBuilder)
        ensures
            r@ == (JoinBuilderModel { from: self.fragment(), to: to.fragment(), kind: JoinType::Inner }),
    ;

    fn left_join<F: IntoFragment<FromItem>>(self, to: F) -> (r: JoinBuilder)
        ensures
            r@ == (JoinBuilderModel { from: self.fragment(), to: to.fragment(), kind: JoinType::Left }),
    ;

    fn left_outer_join<F: IntoFragment<FromItem>>(self, to: F) -> (r: JoinBuilder)
        ensures
            r@ == (JoinBuilderModel { from: self.fragment(), to: to.fragment(), kind: JoinType::LeftOuter }),
    ;

    fn right_join<F: IntoFragment<FromItem>>(self, to: F) -> (r: JoinBuilder)
        ensures
            r@ == (JoinBuilderModel { from: self.fragment(), to: to.fragment(), kind: JoinType::Right }),
    ;

    fn right_outer_join<F: IntoFragment<FromItem>>(self, to: F) -> (r: JoinBuilder)
        ensures
            r@ == (JoinBuilderModel { from: self.fragment(), to: to.fragment(), kind: JoinType::RightOuter }),
    ;

    fn full_join<F: IntoFragment<FromItem>>(self, to: F) -> (r: JoinBuilder)
        ensures
            r@ == (JoinBuilderModel { from: self.fragment(), to: to.fragment(), kind: JoinType::Full }),
    ;

    fn full_outer_join<F: IntoFragment<FromItem>>(self, to: F) -> (r: JoinBuilder)
        ensures
            r@ == (JoinBuilderModel { from: self.fragment(), to: to.fragment(), kind: JoinType::FullOuter }),
    ;

    /// A cross join needs no condition, so it yields the item at once.
    fn cross_join<F: IntoFragment<FromItem>>(self, to: F) -> (r: FromItem)
        ensures
            r@ == with_join(
                self.fragment(),
                JoinModel { kind: JoinType::Cross, target: to.fragment(), condition: None },
            ),
    ;
}

fn start_join<T: IntoFragment<FromItem>, F: IntoFragment<FromItem>>(
    from: T,
    to: F,
    type_: JoinType,
) -> (r: JoinBuilder)
    ensures
        r@ == (JoinBuilderModel { from: from.fragment(), to: to.fragment(), kind: type_ }),
{
    JoinBuilder { from: from.into_fragment(), to: to.into_fragment(), type_ }
}

impl<T: IntoFragment<FromItem>> Joinable for T {
    fn join<F: IntoFragment<FromItem>>(self, to: F) -> (r: JoinBuilder) {
        start_join(self, to, JoinType::Unspecified)
    }

    fn inner_join<F: IntoFragment<FromItem>>(self, to: F) -> (r: JoinBuilder) {
        start_join(self, to, JoinType::Inner)
    }

    fn left_join<F: IntoFragment<FromItem>>(self, to: F) -> (r: JoinBuilder) {
        start_join(self, to, JoinType::Left)
    }

    fn left_outer_join<F: IntoFragment<FromItem>>(self, to: F) -> (r: JoinBuilder) {
        start_join(self, to, JoinType::LeftOuter)
    }

    fn right_join<F: IntoFragment<FromItem>>(self, to: F) -> (r: JoinBuilder) {
        start_join(self, to, JoinType::Right)
    }

    fn right_outer_join<F: IntoFragment<FromItem>>(self, to: F) -> (r: JoinBuilder) {
        start_join(self, to, JoinType::RightOuter)
    }

    fn full_join<F: IntoFragment<FromItem>>(self, to: F) -> (r: JoinBuilder) {
        start_join(self, to, JoinType::Full)
    }

    fn full_outer_join<F: IntoFragment<FromItem>>(self, to: F) -> (r: JoinBuilder) {
        start_join(self, to, JoinType::FullOuter)
    }

    fn cross_join<F: IntoFragment<FromItem>>(self, to: F) -> (r: FromItem) {
        let mut from = self.into_fragment();
        let join = Join::new(JoinType::Cross, to.into_fragment(), None);
        from.add_join(join);
        from
    }
}

/* Conversions */

impl<'a> IntoFragment<FromItem> for &'a str {
    open spec fn fragment(self) -> FromItemModel {
        FromItemModel { source: self@, joins: Seq::empty() }
    }

    fn into_fragment(self) -> (r: FromItem) {
        FromItem::new(self.to_owned())
    }
}

impl IntoFragment<FromItem> for String {
    open spec fn fragment(self) -> FromItemModel {
        FromItemModel { source: self@, joins: Seq::empty() }
    }

    fn into_fragment(self) -> (r: FromItem) {
        FromItem::new(self)
    }
}

impl IntoFragment<FromItem> for Alias {
    open spec fn fragment(self) -> FromItemModel {
        FromItemModel { source: alias_text(self@), joins: Seq::empty() }
    }

    fn into_fragment(self) -> (r: FromItem) {
        FromItem::new(self.to_string())
    }
}

impl IntoFragment<FromItem> for FromItem {
    open spec fn fragment(self) -> FromItemModel {
        self@
    }

    fn into_fragment(self) -> (r: FromItem) {
        self
    }
}

impl<T: View> IntoIteratorOfSameType<T> for FromItem where FromItem: IntoFragment<T> {
    open spec fn items(self) -> Seq<T::V> {
        seq![self.fragment()]
    }

    fn into_some_iter(self) -> (r: Vec<T>) {
        let ghost items = self.items();
        let mut r = Vec::new();
        r.push(self.into_fragment());
        assert(views(r@) =~= items);
        r
    }
}

impl<T: View> IntoIteratorOfSameType<T> for Alias where Alias: IntoFragment<T> {
    open spec fn items(self) -> Seq<T::V> {
        seq![self.fragment()]
    }

    fn into_some_iter(self) -> (r: Vec<T>) {
        let ghost items = self.items();
        let mut r = Vec::new();
        r.push(self.into_fragment());
        assert(views(r@) =~= items);
        r
    }
}

} // verus!
