use vstd::prelude::*;

use crate::postgres::fragments::{alias_text, Alias};
use crate::tools::arity::views;
use crate::tools::display::texts;
use crate::tools::IntoFragment;

verus! {

/// Sort direction of an `ORDER BY` entry.
#[derive(Debug, Clone, Copy, PartialEq, Eq, Structural)]
pub enum Direction {
    Asc,
    Desc,
}

/// Placement of nulls in an `ORDER BY` entry.
#[derive(Debug, Clone, Copy, PartialEq, Eq, Structural)]
pub enum Nulls {
    First,
    Last,
}

/// Model of an `ORDER BY` entry.
pub struct OrderByModel {
    pub expression: Seq<char>,
    pub direction: Option<Direction>,
    pub nulls: Option<Nulls>,
}

/// `ASC` or `DESC`.
pub open spec fn direction_text(d: Direction) -> Seq<char> {
    match d {
        Direction::Asc => "ASC"@,
        Direction::Desc => "DESC"@,
    }
}

/// `NULLS FIRST` or `NULLS LAST`.
pub open spec fn nulls_text(n: Nulls) -> Seq<char> {
    match n {
        Nulls::First => "NULLS FIRST"@,
        Nulls::Last => "NULLS LAST"@,
    }
}

/// `<expression> [ASC | DESC] [NULLS FIRST | NULLS LAST]`
pub open spec fn order_by_text(o: OrderByModel) -> Seq<char> {
    o.expression + match o.direction {
        Some(d) => " "@ + direction_text(d),
        None => Seq::empty(),
    } + match o.nulls {
        Some(n) => " "@ + nulls_text(n),
        None => Seq::empty(),
    }
}

/// An entry of an `ORDER BY` clause: an expression with an optional direction and an
/// optional placement of nulls. Setting either again replaces it.
#[derive(Debug, Clone)]
pub struct OrderBy {
    expression: String,
    direction: Option<Direction>,
    nulls: Option<Nulls>,
}

impl View for OrderBy {
    type V = OrderByModel;

    closed spec fn view(&self) -> OrderByModel {
        OrderByModel { expression: self.expression@, direction: self.direction, nulls: self.nulls }
    }
}

impl OrderBy {
    fn new(expression: String) -> (r: OrderBy)
        ensures
            r@ == (OrderByModel { expression: expression@, direction: None, nulls: None }),
    {
        OrderBy { expression, direction: None, nulls: None }
    }

    fn with_direction(self, direction: Direction) -> (r: OrderBy)
        ensures
            r@ == (OrderByModel { direction: Some(direction), ..self@ }),
    {
        OrderBy { direction: Some(direction), ..self }
    }

    fn with_nulls(self, nulls: Nulls) -> (r: OrderBy)
        ensures
            r@ == (OrderByModel { nulls: Some(nulls), ..self@ }),
    {
        OrderBy { nulls: Some(nulls), ..self }
    }

    /// Renders the entry.
    pub fn to_string(&self) -> (r: String)
        ensures
            r@ == order_by_text(self@),
    {
        let mut s = self.expression.clone();
        match self.direction {
            Some(Direction::Asc) => s.append(" ASC"),
            Some(Direction::Desc) => s.append(" DESC"),
            None => {},
        }
        let ghost after_direction = s@;
        match self.nulls {
            Some(Nulls::First) => s.append(" NULLS FIRST"),
            Some(Nulls::Last) => s.append(" NULLS LAST"),
            None => {},
        }
        proof {
            reveal_strlit(" ASC");
            reveal_strlit(" DESC");
            reveal_strlit(" NULLS FIRST");
            reveal_strlit(" NULLS LAST");
            reveal_strlit(" ");
            reveal_strlit("ASC");
            reveal_strlit("DESC");
            reveal_strlit("NULLS FIRST");
            reveal_strlit("NULLS LAST");
            assert(after_direction =~= self.expression@ + match self.direction {
                Some(d) => " "@ + direction_text(d),
                None => Seq::empty(),
            });
            assert(s@ =~= order_by_text(self@));
        }
        s
    }
}

/// The texts of a list of `ORDER BY` entries.
pub open spec fn order_by_texts(items: Seq<OrderByModel>) -> Seq<Seq<char>> {
    items.map_values(|o: OrderByModel| order_by_text(o))
}

/// The texts of a list of entries.
pub(crate) fn render_order_bys(v: &Vec<OrderBy>) -> (r: Vec<String>)
    ensures
        texts(r@) == order_by_texts(views(v@)),
{
    let mut r: Vec<String> = Vec::new();
    let mut i: usize = 0;
    while i < v.len()
        invariant
            i <= v@.len(),
            texts(r@) == order_by_texts(views(v@)).take(i as int),
        decreases v@.len() - i,
    {
        let ghost before = r@;
        r.push(v[i].to_string());
        assert(texts(r@) =~= texts(before).push(order_by_text(v@[i as int]@)));
        assert(texts(r@) =~= order_by_texts(views(v@)).take(i as int + 1));
        i = i + 1;
    }
    assert(order_by_texts(views(v@)).take(i as int) =~= order_by_texts(views(v@)));
    r
}

/// Things that can become an `ORDER BY` entry with a direction or a placement of nulls.
pub trait Orderable: IntoFragment<OrderBy> {
    /// `DESC` sorting
    fn desc(self) -> (r: OrderBy)
        ensures
            r@ == (OrderByModel { direction: Some(Direction::Desc), ..self.fragment() }),
    ;

    /// `ASC` sorting
    fn asc(self) -> (r: OrderBy)
        ensures
            r@ == (OrderByModel { direction: Some(Direction::Asc), ..self.fragment() }),
    ;

    /// `NULLS FIRST` placement
    fn nulls_first(self) -> (r: OrderBy)
        ensures
            r@ == (OrderByModel { nulls: Some(Nulls::First), ..self.fragment() }),
    ;

    /// `NULLS LAST` placement
    fn nulls_last(self) -> (r: OrderBy)
        ensures
            r@ == (OrderByModel { nulls: Some(Nulls::Last), ..self.fragment() }),
    ;
}

impl<T: IntoFragment<OrderBy>> Orderable for T {
    fn desc(self) -> (r: OrderBy) {
        self.into_fragment().with_direction(Direction::Desc)
    }

    fn asc(self) -> (r: OrderBy) {
        self.into_fragment().with_direction(Direction::Asc)
    }

    fn nulls_first(self) -> (r: OrderBy) {
        self.into_fragment().with_nulls(Nulls::First)
    }

    fn nulls_last(self) -> (r: OrderBy) {
        self.into_fragment().with_nulls(Nulls::Last)
    }
}

impl<'a> IntoFragment<OrderBy> for &'a str {
    open spec fn fragment(self) -> OrderByModel {
        OrderByModel { expression: self@, direction: None, nulls: None }
    }

    fn into_fragment(self) -> (r: OrderBy) {
        OrderBy::new(self.to_owned())
    }
}

impl IntoFragment<OrderBy> for String {
    open spec fn fragment(self) -> OrderByModel {
        OrderByModel { expression: self@, direction: None, nulls: None }
    }

    fn into_fragment(self) -> (r: OrderBy) {
        OrderBy::new(self)
    }
}

impl IntoFragment<OrderBy> for Alias {
    open spec fn fragment(self) -> OrderByModel {
        OrderByModel { expression: alias_text(self@), direction: None, nulls: None }
    }

    fn into_fragment(self) -> (r: OrderBy) {
        OrderBy::new(self.to_string())
    }
}

impl IntoFragment<OrderBy> for OrderBy {
    open spec fn fragment(self) -> OrderByModel {
        self@
    }

    fn into_fragment(self) -> (r: OrderBy) {
        self
    }
}

impl<T: View> crate::tools::IntoIteratorOfSameType<T> for OrderBy where OrderBy: IntoFragment<T> {
    open spec fn items(self) -> Seq<T::V> {
        seq![self.fragment()]
    }

    fn into_some_iter(self) -> (r: Vec<T>) {
        let ghost items = self.items();
        let mut r = Vec::new();
        r.push(self.into_fragment());
        assert(crate::tools::arity::views(r@) =~= items);
        r
    }
}

} // verus!
