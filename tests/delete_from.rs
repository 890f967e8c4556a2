use scooby::postgres::{delete_from, select, with};

#[test]
fn delete_everything() {
    let sql = delete_from("Dummy").to_string();
    assert_eq!(sql, "DELETE FROM Dummy");
}

#[test]
fn delete_where_one() {
    let sql = delete_from("Dummy").where_("x > 0").to_string();
    assert_eq!(sql, "DELETE FROM Dummy WHERE x > 0");
}

#[test]
fn delete_where_many() {
    let sql = delete_from("Dummy").where_(("x > 0", "y > 30")).to_string();
    assert_eq!(sql, "DELETE FROM Dummy WHERE x > 0 AND y > 30");
}

#[test]
fn delete_where_chain() {
    let sql = delete_from("Dummy").where_("x > 0").where_("y < 10").to_string();
    assert_eq!(sql, "DELETE FROM Dummy WHERE x > 0 AND y < 10");
}

#[test]
fn delete_returning() {
    let sql = delete_from("Dummy").returning("id").to_string();
    assert_eq!(sql, "DELETE FROM Dummy RETURNING id");
}

#[test]
fn delete_returning_two() {
    let sql = delete_from("Dummy").returning(("id", "place")).to_string();
    assert_eq!(sql, "DELETE FROM Dummy RETURNING id, place");
}

#[test]
fn delete_from_everything() {
    let sql = delete_from("Dummy").to_string();
    assert_eq!(sql, "DELETE FROM Dummy");
}

#[test]
fn delete_from_where_one() {
    let sql = delete_from("Dummy").where_("x > 0").to_string();
    assert_eq!(sql, "DELETE FROM Dummy WHERE x > 0");
}

#[test]
fn delete_from_where_many() {
    let sql = delete_from("Dummy").where_(("x > 0", "y > 30")).to_string();
    assert_eq!(sql, "DELETE FROM Dummy WHERE x > 0 AND y > 30");
}

#[test]
fn delete_from_where_chain() {
    let sql = delete_from("Dummy").where_("x > 0").where_("y < 10").to_string();
    assert_eq!(sql, "DELETE FROM Dummy WHERE x > 0 AND y < 10");
}

#[test]
fn delete_from_returning() {
    let sql = delete_from("Dummy").returning("id").to_string();
    assert_eq!(sql, "DELETE FROM Dummy RETURNING id");
}

#[test]
fn delete_from_returning_two() {
    let sql = delete_from("Dummy").returning(("id", "place")).to_string();
    assert_eq!(sql, "DELETE FROM Dummy RETURNING id, place");
}

#[test]
fn delete_from_cte() {
    let sql = with("thing").as_(select("1 + 1")).delete_from("Dummy").to_string();
    assert_eq!(sql, "WITH thing AS (SELECT 1 + 1) DELETE FROM Dummy");
}

#[test]
fn delete_returning_before_where_renders_in_clause_order() {
    let a = delete_from("Dummy").returning("id").where_("x > 0").to_string();
    let b = delete_from("Dummy").where_("x > 0").returning("id").to_string();
    assert_eq!(a, "DELETE FROM Dummy WHERE x > 0 RETURNING id");
    assert_eq!(a, b);
}
