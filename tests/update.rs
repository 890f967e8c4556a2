use scooby::postgres::{select, update, with};

#[test]
fn update_update_single_value() {
    let sql = update("Dummy").set("x", "y").to_string();
    assert_eq!(sql, "UPDATE Dummy SET x = y");
}

#[test]
fn update_update_multi_call() {
    let sql = update("Dummy").set("x", "y").set("a", "b").to_string();
    assert_eq!(sql, "UPDATE Dummy SET x = y, a = b");
}

#[test]
fn update_update_where() {
    let sql = update("Dummy").set("x", "y").where_("id = 5").to_string();
    assert_eq!(sql, "UPDATE Dummy SET x = y WHERE id = 5");
}

#[test]
fn update_update_returning() {
    let sql = update("Dummy").set("x", "y").returning("x").to_string();
    assert_eq!(sql, "UPDATE Dummy SET x = y RETURNING x");
}

#[test]
fn update_cte() {
    let sql = with("thing")
        .as_(select("1 + 1"))
        .update("Dummy")
        .set("x", "y")
        .to_string();
    assert_eq!(sql, "WITH thing AS (SELECT 1 + 1) UPDATE Dummy SET x = y");
}

#[test]
fn update_with_integer_value_and_where() {
    let sql = update("Dummy").set("x", 1).where_("x > 0").to_string();
    assert_eq!(sql, "UPDATE Dummy SET x = 1 WHERE x > 0");
}

#[test]
fn update_negative_and_large_numbers() {
    let sql = update("Dummy")
        .set("a", -42)
        .set("b", 18446744073709551615u64)
        .set("c", 0usize)
        .set("d", i64::MIN)
        .to_string();
    assert_eq!(
        sql,
        "UPDATE Dummy SET a = -42, b = 18446744073709551615, c = 0, d = -9223372036854775808"
    );
}

#[test]
fn update_all_clauses_any_order() {
    let a = update("Dummy")
        .set("x", 1)
        .returning("id")
        .where_("x > 0")
        .where_("y < 10")
        .to_string();
    let b = update("Dummy")
        .set("x", 1)
        .where_(("x > 0", "y < 10"))
        .returning("id")
        .to_string();
    assert_eq!(a, "UPDATE Dummy SET x = 1 WHERE x > 0 AND y < 10 RETURNING id");
    assert_eq!(a, b);
}
