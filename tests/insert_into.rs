use scooby::postgres::{insert_into, select, with, Parameters};

#[test]
fn insert_single_column() {
    let sql = insert_into("Dummy").columns("col1").values(["a"]).to_string();
    assert_eq!(sql, "INSERT INTO Dummy (col1) VALUES (a)");
}

#[test]
fn insert_values() {
    let sql = insert_into("Dummy")
        .columns(("col1", "col2"))
        .values([("a", "b")])
        .to_string();
    assert_eq!(sql, "INSERT INTO Dummy (col1, col2) VALUES (a, b)");
}

#[test]
fn insert_values_many() {
    let sql = insert_into("Dummy")
        .columns(("col1", "col2"))
        .values([("a", "b"), ("c", "d")])
        .to_string();
    assert_eq!(sql, "INSERT INTO Dummy (col1, col2) VALUES (a, b), (c, d)");
}

#[test]
fn insert_into_no_values() {
    let sql = insert_into("Dummy").default_values().to_string();
    assert_eq!(sql, "INSERT INTO Dummy DEFAULT VALUES");
}

#[test]
fn default_values_with_no_columns() {
    let sql = insert_into("Dummy").default_values().to_string();
    assert_eq!(sql, "INSERT INTO Dummy DEFAULT VALUES");
}

#[test]
fn insert_into_values() {
    let sql = insert_into("Dummy")
        .columns(("col1", "col2"))
        .values([("a", "b")])
        .to_string();
    assert_eq!(sql, "INSERT INTO Dummy (col1, col2) VALUES (a, b)");
}

#[test]
fn insert_into_values_many() {
    let sql = insert_into("Dummy")
        .columns(("col1", "col2"))
        .values([("a", "b"), ("c", "d")])
        .to_string();
    assert_eq!(sql, "INSERT INTO Dummy (col1, col2) VALUES (a, b), (c, d)");
}

#[test]
fn insert_into_default_values() {
    let sql = insert_into("Dummy").default_values().to_string();
    assert_eq!(sql, "INSERT INTO Dummy DEFAULT VALUES");
}

#[test]
fn insert_into_no_columns() {
    let sql = insert_into("Dummy").values(["a"]).to_string();
    assert_eq!(sql, "INSERT INTO Dummy VALUES (a)");
}

#[test]
fn no_columns_multiple_values() {
    let sql = insert_into("Dummy")
        .values([("a", "b"), ("c", "d")])
        .values([("e", "f")])
        .to_string();
    assert_eq!(sql, "INSERT INTO Dummy VALUES (a, b), (c, d), (e, f)");
}

// The library holds no floating-point numbers, so the decimal value is given as text.
#[test]
fn no_columns_values_of_different_types() {
    let sql = insert_into("Dummy")
        .values([("\"Doug\"", 5, 1.76.to_string())])
        .to_string();
    assert_eq!(sql, "INSERT INTO Dummy VALUES (\"Doug\", 5, 1.76)");
}

#[test]
fn insert_into_single_column() {
    let sql = insert_into("Dummy").columns("col1").values(["a"]).to_string();
    assert_eq!(sql, "INSERT INTO Dummy (col1) VALUES (a)");
}

#[test]
fn multiple_columns() {
    let sql = insert_into("Dummy")
        .columns(("col1", "col2"))
        .values([("a", "b")])
        .to_string();
    assert_eq!(sql, "INSERT INTO Dummy (col1, col2) VALUES (a, b)");
}

#[test]
fn many_values() {
    let sql = insert_into("Dummy")
        .columns(("col1", "col2"))
        .values([("a", "b"), ("c", "d")])
        .values([("e", "f")])
        .to_string();
    assert_eq!(sql, "INSERT INTO Dummy (col1, col2) VALUES (a, b), (c, d), (e, f)");
}

// The library holds no floating-point numbers, so the decimal value is given as text.
#[test]
fn insert_into_value_various_types() {
    let sql = insert_into("Dummy")
        .columns(("name", "age", "height_in_meters"))
        .values([("\"Doug\"", 5, 1.76.to_string())])
        .to_string();
    assert_eq!(
        sql,
        "INSERT INTO Dummy (name, age, height_in_meters) VALUES (\"Doug\", 5, 1.76)"
    );
}

#[test]
fn insert_into_returning() {
    let sql = insert_into("Dummy")
        .columns("col1")
        .values(["a"])
        .returning("id")
        .to_string();
    assert_eq!(sql, "INSERT INTO Dummy (col1) VALUES (a) RETURNING id");
}

#[test]
fn insert_into_returning_two() {
    let sql = insert_into("Dummy")
        .columns("col1")
        .values(["a"])
        .returning(("id", "place"))
        .to_string();
    assert_eq!(sql, "INSERT INTO Dummy (col1) VALUES (a) RETURNING id, place");
}

#[test]
fn insert_into_cte() {
    let sql = with("thing")
        .as_(select("1 + 1"))
        .insert_into("Dummy")
        .values(["a"])
        .to_string();
    assert_eq!(sql, "WITH thing AS (SELECT 1 + 1) INSERT INTO Dummy VALUES (a)");
}

#[test]
fn array_params_with_columns() {
    let mut params = Parameters::new();
    let sql = insert_into("Dummy")
        .columns(("col1", "col2"))
        .values([params.next_array()])
        .to_string();
    assert_eq!(sql, "INSERT INTO Dummy (col1, col2) VALUES ($1, $2)");
}

#[test]
fn array_params_without_columns() {
    let mut params = Parameters::new();
    let sql = insert_into("Dummy")
        .values([params.next_array::<2>()])
        .to_string();
    assert_eq!(sql, "INSERT INTO Dummy VALUES ($1, $2)");
}

#[test]
fn insert_scenario_two_rows_with_columns() {
    let sql = insert_into("Dummy")
        .columns(("col1", "col2"))
        .values([("a", "b"), ("c", "d")])
        .to_string();
    assert_eq!(sql, "INSERT INTO Dummy (col1, col2) VALUES (a, b), (c, d)");
}

#[test]
fn on_conflict_do_nothing() {
    let sql = insert_into("Dummy")
        .values(["a"])
        .on_conflict()
        .do_nothing()
        .to_string();
    assert_eq!(sql, "INSERT INTO Dummy VALUES (a) ON CONFLICT DO NOTHING");
}

#[test]
fn on_conflict_do_update_set_then_returning() {
    let sql = insert_into("Dummy")
        .columns(("b", "d"))
        .values([(1, 2)])
        .returning("id")
        .on_conflict()
        .do_update_set([("b", "c"), ("d", "e")])
        .to_string();
    assert_eq!(
        sql,
        "INSERT INTO Dummy (b, d) VALUES (1, 2) ON CONFLICT DO UPDATE SET b = c, d = e RETURNING id"
    );
}

#[test]
fn returning_accumulates() {
    let sql = insert_into("Dummy")
        .default_values()
        .returning("id")
        .returning(("width", "height"))
        .to_string();
    assert_eq!(sql, "INSERT INTO Dummy DEFAULT VALUES RETURNING id, width, height");
}
