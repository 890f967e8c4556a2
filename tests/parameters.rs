use scooby::postgres::Parameters;

#[test]
fn next_once() {
    let mut params = Parameters::new();
    assert_eq!(params.next(), "$1");
}

#[test]
fn next_twice() {
    let mut params = Parameters::new();
    params.next();
    assert_eq!(params.next(), "$2");
}

#[test]
fn next_n_once() {
    let mut params = Parameters::new();
    assert_eq!(params.next_n(5), "$1, $2, $3, $4, $5");
}

#[test]
fn next_n_with_one() {
    let mut params = Parameters::new();
    assert_eq!(params.next_n(1), "$1");
}

#[test]
fn next_n_twice() {
    let mut params = Parameters::new();
    params.next_n(3);
    assert_eq!(params.next_n(3), "$4, $5, $6");
}

#[test]
fn next_arr() {
    let mut params = Parameters::new();
    let p = params.next_array::<5>();
    assert_eq!(p, ["$1", "$2", "$3", "$4", "$5"]);
}

#[test]
fn next_arr_twice() {
    let mut params = Parameters::new();
    let first = params.next_array::<2>();
    let second = params.next_array::<3>();
    assert_eq!(first, ["$1", "$2"]);
    assert_eq!(second, ["$3", "$4", "$5"]);
}

#[test]
fn next_then_next_array() {
    let mut params = Parameters::new();
    assert_eq!(params.next(), "$1");
    assert_eq!(params.next_array::<2>(), ["$2", "$3"]);
}

#[test]
fn mixed_calls_never_overlap() {
    let mut params = Parameters::default();
    let a = params.next();
    let b = params.next_n(2);
    let c = params.next_array::<2>();
    let d = params.next_n(0);
    let e = params.next();
    assert_eq!(a, "$1");
    assert_eq!(b, "$2, $3");
    assert_eq!(c, ["$4", "$5"]);
    assert_eq!(d, "");
    assert_eq!(e, "$6");
}

#[test]
fn starting_from_counts_on() {
    let mut params = Parameters::starting_from(9);
    assert_eq!(params.next(), "$9");
    assert_eq!(params.next_n(2), "$10, $11");
}
