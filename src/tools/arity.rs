use vstd::prelude::*;

verus! {

/// The models of a sequence of values.
pub open spec fn views<T: View>(s: Seq<T>) -> Seq<T::V> {
    s.map_values(|x: T| x@)
}

/// A value that stands for one fragment of type `T` (a column name, an expression, a
/// table reference, ...). `fragment` is the model of the fragment that it becomes.
pub trait IntoFragment<T: View>: Sized {
    spec fn fragment(self) -> T::V;

    fn into_fragment(self) -> (r: T)
        ensures
            r@ == self.fragment(),
    ;
}

/// One or more fragments of type `T`, in whichever shape is convenient to the caller:
/// a single value, a tuple, an array, or a reference to an array of string slices.
/// `items` is the ordered sequence of fragment models that the argument stands for.
pub trait IntoIteratorOfSameType<T: View>: Sized {
    spec fn items(self) -> Seq<T::V>;

    fn into_some_iter(self) -> (r: Vec<T>)
        ensures
            views(r@) == self.items(),
    ;
}

/// A row of exactly `N` fragments of type `T`: a single value (when `N` is 1), a tuple
/// of `N` values, or an array of `N` values.
pub trait IntoNonZeroArray<T: View, const N: usize>: Sized {
    spec fn row(self) -> Seq<T::V>;

    fn into_non_zero_array(self) -> (r: [T; N])
        ensures
            views(r@) == self.row(),
    ;
}

/// Relies on the array method `map`: element `i` of the result is the conversion of
/// element `i` of the argument.
#[verifier::external_body]
fn map_fragments<T: View, U: IntoFragment<T>, const N: usize>(a: [U; N]) -> (r: [T; N])
    ensures
        views(r@) == a@.map_values(|u: U| u.fragment()),
{
    a.map(|u| u.into_fragment())
}

/// Relies on `Vec::from` for arrays: the vector holds the array's elements in order.
#[verifier::external_body]
pub(crate) fn array_into_vec<T, const N: usize>(a: [T; N]) -> (r: Vec<T>)
    ensures
        r@ == a@,
{
    Vec::from(a)
}

impl<'a, T: View> IntoIteratorOfSameType<T> for &'a str where &'a str: IntoFragment<T> {
    open spec fn items(self) -> Seq<T::V> {
        seq![self.fragment()]
    }

    fn into_some_iter(self) -> (r: Vec<T>) {
        let mut r = Vec::new();
        r.push(self.into_fragment());
        assert(views(r@) =~= self.items());
        r
    }
}

impl<T: View> IntoIteratorOfSameType<T> for String where String: IntoFragment<T> {
    open spec fn items(self) -> Seq<T::V> {
        seq![self.fragment()]
    }

    fn into_some_iter(self) -> (r: Vec<T>) {
        let ghost items = self.items();
        let mut r = Vec::new();
        r.push(self.into_fragment());
        assert(views(r@) =~= items);
        r
    }
}

impl<T: View, U: IntoFragment<T>, const N: usize> IntoIteratorOfSameType<T> for [U; N] {
    open spec fn items(self) -> Seq<T::V> {
        self@.map_values(|u: U| u.fragment())
    }

    fn into_some_iter(self) -> (r: Vec<T>) {
        array_into_vec(map_fragments(self))
    }
}

impl<'a, 'b, T: View, const N: usize> IntoIteratorOfSameType<T> for &'a [&'b str; N] where
    &'b str: IntoFragment<T>,
 {
    open spec fn items(self) -> Seq<T::V> {
        self@.map_values(|s: &'b str| s.fragment())
    }

    fn into_some_iter(self) -> (r: Vec<T>) {
        let mut r: Vec<T> = Vec::new();
        let mut i: usize = 0;
        while i < N
            invariant
                i <= N,
                self@.len() == N,
                views(r@) == self.items().take(i as int),
            decreases N - i,
        {
            let s: &'b str = self[i];
            assert(s == self@[i as int]);
            let ghost before = r@;
            r.push(s.into_fragment());
            assert(views(r@) =~= views(before).push(s.fragment()));
            assert(views(r@) =~= self.items().take(i as int + 1));
            i = i + 1;
        }
        assert(self.items().take(N as int) =~= self.items());
        r
    }
}

impl<'a, 'b, T: View> IntoIteratorOfSameType<T> for &'a [&'b str] where &'b str: IntoFragment<T> {
    open spec fn items(self) -> Seq<T::V> {
        self@.map_values(|s: &'b str| s.fragment())
    }

    fn into_some_iter(self) -> (r: Vec<T>) {
        let mut r: Vec<T> = Vec::new();
        let mut i: usize = 0;
        while i < self.len()
            invariant
                i <= self@.len(),
                views(r@) == self.items().take(i as int),
            decreases self@.len() - i,
        {
            let s: &'b str = self[i];
            let ghost before = r@;
            r.push(s.into_fragment());
            assert(views(r@) =~= views(before).push(s.fragment()));
            assert(views(r@) =~= self.items().take(i as int + 1));
            i = i + 1;
        }
        assert(self.items().take(i as int) =~= self.items());
        r
    }
}

impl<T: View, U: IntoFragment<T>> IntoIteratorOfSameType<T> for Vec<U> {
    open spec fn items(self) -> Seq<T::V> {
        self@.map_values(|u: U| u.fragment())
    }

    fn into_some_iter(self) -> (r: Vec<T>) {
        let ghost all = self.items();
        let mut pending = self;
        let mut r: Vec<T> = Vec::new();
        while pending.len() > 0
            invariant
                views(r@) + pending@.map_values(|u: U| u.fragment()) == all,
            decreases pending@.len(),
        {
            let ghost (done, rest) = (r@, pending@);
            let u = pending.remove(0);
            let ghost f = u.fragment();
            r.push(u.into_fragment());
            assert(views(r@) =~= views(done).push(f));
            assert(rest.map_values(|u: U| u.fragment()) =~= seq![f] + pending@.map_values(
                |u: U| u.fragment(),
            ));
            assert(views(r@) + pending@.map_values(|u: U| u.fragment()) =~= views(done)
                + rest.map_values(|u: U| u.fragment()));
        }
        assert(views(r@) + pending@.map_values(|u: U| u.fragment()) =~= views(r@));
        r
    }
}

impl<T: View> IntoIteratorOfSameType<T> for () {
    open spec fn items(self) -> Seq<T::V> {
        Seq::empty()
    }

    fn into_some_iter(self) -> (r: Vec<T>) {
        let r = Vec::new();
        assert(views(r@) =~= Seq::<T::V>::empty());
        r
    }
}

impl<'a, T: View> IntoNonZeroArray<T, 1> for &'a str where &'a str: IntoFragment<T> {
    open spec fn row(self) -> Seq<T::V> {
        seq![self.fragment()]
    }

    fn into_non_zero_array(self) -> (r: [T; 1]) {
        let r = [self.into_fragment()];
        assert(views(r@) =~= self.row());
        r
    }
}

impl<T: View> IntoNonZeroArray<T, 1> for String where String: IntoFragment<T> {
    open spec fn row(self) -> Seq<T::V> {
        seq![self.fragment()]
    }

    fn into_non_zero_array(self) -> (r: [T; 1]) {
        let ghost row = self.row();
        let r = [self.into_fragment()];
        assert(views(r@) =~= row);
        r
    }
}

impl<T: View, U: IntoFragment<T>, const N: usize> IntoNonZeroArray<T, N> for [U; N] {
    open spec fn row(self) -> Seq<T::V> {
        self@.map_values(|u: U| u.fragment())
    }

    fn into_non_zero_array(self) -> (r: [T; N]) {
        map_fragments(self)
    }
}

impl<T: View, U1: IntoFragment<T>> IntoIteratorOfSameType<T> for (U1,) {
    open spec fn items(self) -> Seq<T::V> {
        seq![self.0.fragment()]
    }

    fn into_some_iter(self) -> (r: Vec<T>) {
        let ghost items = self.items();
        let mut r = Vec::new();
        r.push(self.0.into_fragment());
        assert(views(r@) =~= items);
        r
    }
}

impl<T: View, U1: IntoFragment<T>> IntoNonZeroArray<T, 1> for (U1,) {
    open spec fn row(self) -> Seq<T::V> {
        seq![self.0.fragment()]
    }

    fn into_non_zero_array(self) -> (r: [T; 1]) {
        let ghost row = self.row();
        let r = [self.0.into_fragment()];
        assert(views(r@) =~= row);
        r
    }
}

impl<T: View, U1: IntoFragment<T>, U2: IntoFragment<T>> IntoIteratorOfSameType<T> for (U1, U2) {
    open spec fn items(self) -> Seq<T::V> {
        seq![self.0.fragment(), self.1.fragment()]
    }

    fn into_some_iter(self) -> (r: Vec<T>) {
        let ghost items = self.items();
        let mut r = Vec::new();
        r.push(self.0.into_fragment());
        r.push(self.1.into_fragment());
        assert(views(r@) =~= items);
        r
    }
}

impl<T: View, U1: IntoFragment<T>, U2: IntoFragment<T>> IntoNonZeroArray<T, 2> for (U1, U2) {
    open spec fn row(self) -> Seq<T::V> {
        seq![self.0.fragment(), self.1.fragment()]
    }

    fn into_non_zero_array(self) -> (r: [T; 2]) {
        let ghost row = self.row();
        let r = [self.0.into_fragment(), self.1.into_fragment()];
        assert(views(r@) =~= row);
        r
    }
}

impl<T: View, U1: IntoFragment<T>, U2: IntoFragment<T>, U3: IntoFragment<T>> IntoIteratorOfSameType<T> for (U1, U2, U3) {
    open spec fn items(self) -> Seq<T::V> {
        seq![self.0.fragment(), self.1.fragment(), self.2.fragment()]
    }

    fn into_some_iter(self) -> (r: Vec<T>) {
        let ghost items = self.items();
        let mut r = Vec::new();
        r.push(self.0.into_fragment());
        r.push(self.1.into_fragment());
        r.push(self.2.into_fragment());
        assert(views(r@) =~= items);
        r
    }
}

impl<T: View, U1: IntoFragment<T>, U2: IntoFragment<T>, U3: IntoFragment<T>> IntoNonZeroArray<T, 3> for (U1, U2, U3) {
    open spec fn row(self) -> Seq<T::V> {
        seq![self.0.fragment(), self.1.fragment(), self.2.fragment()]
    }

    fn into_non_zero_array(self) -> (r: [T; 3]) {
        let ghost row = self.row();
        let r = [self.0.into_fragment(), self.1.into_fragment(), self.2.into_fragment()];
        assert(views(r@) =~= row);
        r
    }
}

impl<T: View, U1: IntoFragment<T>, U2: IntoFragment<T>, U3: IntoFragment<T>, U4: IntoFragment<T>> IntoIteratorOfSameType<T> for (U1, U2, U3, U4) {
    open spec fn items(self) -> Seq<T::V> {
        seq![self.0.fragment(), self.1.fragment(), self.2.fragment(), self.3.fragment()]
    }

    fn into_some_iter(self) -> (r: Vec<T>) {
        let ghost items = self.items();
        let mut r = Vec::new();
        r.push(self.0.into_fragment());
        r.push(self.1.into_fragment());
        r.push(self.2.into_fragment());
        r.push(self.3.into_fragment());
        assert(views(r@) =~= items);
        r
    }
}

impl<T: View, U1: IntoFragment<T>, U2: IntoFragment<T>, U3: IntoFragment<T>, U4: IntoFragment<T>> IntoNonZeroArray<T, 4> for (U1, U2, U3, U4) {
    open spec fn row(self) -> Seq<T::V> {
        seq![self.0.fragment(), self.1.fragment(), self.2.fragment(), self.3.fragment()]
    }

    fn into_non_zero_array(self) -> (r: [T; 4]) {
        let ghost row = self.row();
        let r = [self.0.into_fragment(), self.1.into_fragment(), self.2.into_fragment(), self.3.into_fragment()];
        assert(views(r@) =~= row);
        r
    }
}

impl<T: View, U1: IntoFragment<T>, U2: IntoFragment<T>, U3: IntoFragment<T>, U4: IntoFragment<T>, U5: IntoFragment<T>> IntoIteratorOfSameType<T> for (U1, U2, U3, U4, U5) {
    open spec fn items(self) -> Seq<T::V> {
        seq![self.0.fragment(), self.1.fragment(), self.2.fragment(), self.3.fragment(), self.4.fragment()]
    }

    fn into_some_iter(self) -> (r: Vec<T>) {
        let ghost items = self.items();
        let mut r = Vec::new();
        r.push(self.0.into_fragment());
        r.push(self.1.into_fragment());
        r.push(self.2.into_fragment());
        r.push(self.3.into_fragment());
        r.push(self.4.into_fragment());
        assert(views(r@) =~= items);
        r
    }
}

impl<T: View, U1: IntoFragment<T>, U2: IntoFragment<T>, U3: IntoFragment<T>, U4: IntoFragment<T>, U5: IntoFragment<T>> IntoNonZeroArray<T, 5> for (U1, U2, U3, U4, U5) {
    open spec fn row(self) -> Seq<T::V> {
        seq![self.0.fragment(), self.1.fragment(), self.2.fragment(), self.3.fragment(), self.4.fragment()]
    }

    fn into_non_zero_array(self) -> (r: [T; 5]) {
        let ghost row = self.row();
        let r = [self.0.into_fragment(), self.1.into_fragment(), self.2.into_fragment(), self.3.into_fragment(), self.4.into_fragment()];
        assert(views(r@) =~= row);
        r
    }
}

impl<T: View, U1: IntoFragment<T>, U2: IntoFragment<T>, U3: IntoFragment<T>, U4: IntoFragment<T>, U5: IntoFragment<T>, U6: IntoFragment<T>> IntoIteratorOfSameType<T> for (U1, U2, U3, U4, U5, U6) {
    open spec fn items(self) -> Seq<T::V> {
        seq![self.0.fragment(), self.1.fragment(), self.2.fragment(), self.3.fragment(), self.4.fragment(), self.5.fragment()]
    }

    fn into_some_iter(self) -> (r: Vec<T>) {
        let ghost items = self.items();
        let mut r = Vec::new();
        r.push(self.0.into_fragment());
        r.push(self.1.into_fragment());
        r.push(self.2.into_fragment());
        r.push(self.3.into_fragment());
        r.push(self.4.into_fragment());
        r.push(self.5.into_fragment());
        assert(views(r@) =~= items);
        r
    }
}

impl<T: View, U1: IntoFragment<T>, U2: IntoFragment<T>, U3: IntoFragment<T>, U4: IntoFragment<T>, U5: IntoFragment<T>, U6: IntoFragment<T>> IntoNonZeroArray<T, 6> for (U1, U2, U3, U4, U5, U6) {
    open spec fn row(self) -> Seq<T::V> {
        seq![self.0.fragment(), self.1.fragment(), self.2.fragment(), self.3.fragment(), self.4.fragment(), self.5.fragment()]
    }

    fn into_non_zero_array(self) -> (r: [T; 6]) {
        let ghost row = self.row();
        let r = [self.0.into_fragment(), self.1.into_fragment(), self.2.into_fragment(), self.3.into_fragment(), self.4.into_fragment(), self.5.into_fragment()];
        assert(views(r@) =~= row);
        r
    }
}

impl<T: View, U1: IntoFragment<T>, U2: IntoFragment<T>, U3: IntoFragment<T>, U4: IntoFragment<T>, U5: IntoFragment<T>, U6: IntoFragment<T>, U7: IntoFragment<T>> IntoIteratorOfSameType<T> for (U1, U2, U3, U4, U5, U6, U7) {
    open spec fn items(self) -> Seq<T::V> {
        seq![self.0.fragment(), self.1.fragment(), self.2.fragment(), self.3.fragment(), self.4.fragment(), self.5.fragment(), self.6.fragment()]
    }

    fn into_some_iter(self) -> (r: Vec<T>) {
        let ghost items = self.items();
        let mut r = Vec::new();
        r.push(self.0.into_fragment());
        r.push(self.1.into_fragment());
        r.push(self.2.into_fragment());
        r.push(self.3.into_fragment());
        r.push(self.4.into_fragment());
        r.push(self.5.into_fragment());
        r.push(self.6.into_fragment());
        assert(views(r@) =~= items);
        r
    }
}

impl<T: View, U1: IntoFragment<T>, U2: IntoFragment<T>, U3: IntoFragment<T>, U4: IntoFragment<T>, U5: IntoFragment<T>, U6: IntoFragment<T>, U7: IntoFragment<T>> IntoNonZeroArray<T, 7> for (U1, U2, U3, U4, U5, U6, U7) {
    open spec fn row(self) -> Seq<T::V> {
        seq![self.0.fragment(), self.1.fragment(), self.2.fragment(), self.3.fragment(), self.4.fragment(), self.5.fragment(), self.6.fragment()]
    }

    fn into_non_zero_array(self) -> (r: [T; 7]) {
        let ghost row = self.row();
        let r = [self.0.into_fragment(), self.1.into_fragment(), self.2.into_fragment(), self.3.into_fragment(), self.4.into_fragment(), self.5.into_fragment(), self.6.into_fragment()];
        assert(views(r@) =~= row);
        r
    }
}

impl<T: View, U1: IntoFragment<T>, U2: IntoFragment<T>, U3: IntoFragment<T>, U4: IntoFragment<T>, U5: IntoFragment<T>, U6: IntoFragment<T>, U7: IntoFragment<T>, U8: IntoFragment<T>> IntoIteratorOfSameType<T> for (U1, U2, U3, U4, U5, U6, U7, U8) {
    open spec fn items(self) -> Seq<T::V> {
        seq![self.0.fragment(), self.1.fragment(), self.2.fragment(), self.3.fragment(), self.4.fragment(), self.5.fragment(), self.6.fragment(), self.7.fragment()]
    }

    fn into_some_iter(self) -> (r: Vec<T>) {
        let ghost items = self.items();
        let mut r = Vec::new();
        r.push(self.0.into_fragment());
        r.push(self.1.into_fragment());
        r.push(self.2.into_fragment());
        r.push(self.3.into_fragment());
        r.push(self.4.into_fragment());
        r.push(self.5.into_fragment());
        r.push(self.6.into_fragment());
        r.push(self.7.into_fragment());
        assert(views(r@) =~= items);
        r
    }
}

impl<T: View, U1: IntoFragment<T>, U2: IntoFragment<T>, U3: IntoFragment<T>, U4: IntoFragment<T>, U5: IntoFragment<T>, U6: IntoFragment<T>, U7: IntoFragment<T>, U8: IntoFragment<T>> IntoNonZeroArray<T, 8> for (U1, U2, U3, U4, U5, U6, U7, U8) {
    open spec fn row(self) -> Seq<T::V> {
        seq![self.0.fragment(), self.1.fragment(), self.2.fragment(), self.3.fragment(), self.4.fragment(), self.5.fragment(), self.6.fragment(), self.7.fragment()]
    }

    fn into_non_zero_array(self) -> (r: [T; 8]) {
        let ghost row = self.row();
        let r = [self.0.into_fragment(), self.1.into_fragment(), self.2.into_fragment(), self.3.into_fragment(), self.4.into_fragment(), self.5.into_fragment(), self.6.into_fragment(), self.7.into_fragment()];
        assert(views(r@) =~= row);
        r
    }
}

impl<T: View, U1: IntoFragment<T>, U2: IntoFragment<T>, U3: IntoFragment<T>, U4: IntoFragment<T>, U5: IntoFragment<T>, U6: IntoFragment<T>, U7: IntoFragment<T>, U8: IntoFragment<T>, U9: IntoFragment<T>> IntoIteratorOfSameType<T> for (U1, U2, U3, U4, U5, U6, U7, U8, U9) {
    open spec fn items(self) -> Seq<T::V> {
        seq![self.0.fragment(), self.1.fragment(), self.2.fragment(), self.3.fragment(), self.4.fragment(), self.5.fragment(), self.6.fragment(), self.7.fragment(), self.8.fragment()]
    }

    fn into_some_iter(self) -> (r: Vec<T>) {
        let ghost items = self.items();
        let mut r = Vec::new();
        r.push(self.0.into_fragment());
        r.push(self.1.into_fragment());
        r.push(self.2.into_fragment());
        r.push(self.3.into_fragment());
        r.push(self.4.into_fragment());
        r.push(self.5.into_fragment());
        r.push(self.6.into_fragment());
        r.push(self.7.into_fragment());
        r.push(self.8.into_fragment());
        assert(views(r@) =~= items);
        r
    }
}

impl<T: View, U1: IntoFragment<T>, U2: IntoFragment<T>, U3: IntoFragment<T>, U4: IntoFragment<T>, U5: IntoFragment<T>, U6: IntoFragment<T>, U7: IntoFragment<T>, U8: IntoFragment<T>, U9: IntoFragment<T>> IntoNonZeroArray<T, 9> for (U1, U2, U3, U4, U5, U6, U7, U8, U9) {
    open spec fn row(self) -> Seq<T::V> {
        seq![self.0.fragment(), self.1.fragment(), self.2.fragment(), self.3.fragment(), self.4.fragment(), self.5.fragment(), self.6.fragment(), self.7.fragment(), self.8.fragment()]
    }

    fn into_non_zero_array(self) -> (r: [T; 9]) {
        let ghost row = self.row();
        let r = [self.0.into_fragment(), self.1.into_fragment(), self.2.into_fragment(), self.3.into_fragment(), self.4.into_fragment(), self.5.into_fragment(), self.6.into_fragment(), self.7.into_fragment(), self.8.into_fragment()];
        assert(views(r@) =~= row);
        r
    }
}

} // verus!
