use scooby::postgres::{select, with, Aliasable, Joinable, Orderable};

#[test]
fn select_bare() {
    let sql = select(()).to_string();
    assert_eq!(sql, "SELECT");
}

#[test]
fn select_without_from() {
    let sql = select("1 + 1").to_string();
    assert_eq!(sql, "SELECT 1 + 1");
}

#[test]
fn select_all() {
    let sql = select("*").all().from("City").to_string();
    assert_eq!(sql, "SELECT ALL * FROM City");
}

#[test]
fn select_distinct() {
    let sql = select("*").distinct().from("City").to_string();
    assert_eq!(sql, "SELECT DISTINCT * FROM City");
}

#[test]
fn select_tuple_of_columns() {
    let sql = select(("id", "name")).from("Person").to_string();
    assert_eq!(sql, "SELECT id, name FROM Person")
}

#[test]
fn select_slice_of_columns() {
    let sql = select(&["id", "name"]).from("Person").to_string();
    assert_eq!(sql, "SELECT id, name FROM Person")
}

#[test]
fn select_array_of_columns() {
    let sql = select(["id", "name"]).from("Person").to_string();
    assert_eq!(sql, "SELECT id, name FROM Person")
}

#[test]
fn select_no_columns() {
    let sql = select(()).from("Person").to_string();
    assert_eq!(sql, "SELECT FROM Person");
}

#[test]
fn select_and_select() {
    let sql = select(("id", "name"))
        .from("Person")
        .and_select("age")
        .and_select(("occupation_id", "city_id"))
        .to_string();
    assert_eq!(sql, "SELECT id, name, age, occupation_id, city_id FROM Person")
}

#[test]
fn select_from_single_table() {
    let sql = select("name").from("Person").to_string();
    assert_eq!(sql, "SELECT name FROM Person");
}

#[test]
fn select_from_twice() {
    let sql = select("*").from("OneTable").from("OtherTable").to_string();
    assert_eq!(sql, "SELECT * FROM OneTable, OtherTable");
}

#[test]
fn select_from_alias() {
    let sql = select("*").from("Person".as_("p")).to_string();
    assert_eq!(sql, "SELECT * FROM Person AS p");
}

#[test]
fn select_from_tuple_of_tables() {
    let sql = select(&["p.name", "c.name", "d.name"])
        .from(("Person p", "City c", "District d"))
        .to_string();
    assert_eq!(sql, "SELECT p.name, c.name, d.name FROM Person p, City c, District d");
}

#[test]
fn select_from_join() {
    let sql = select("col1")
        .from("Person p".join("City c").on("c.id = p.city_id"))
        .to_string();
    assert_eq!(sql, "SELECT col1 FROM Person p JOIN City c ON c.id = p.city_id");
}

#[test]
fn select_from_join_with_alias() {
    let sql = select("*")
        .from("Person".as_("p").join("City".as_("c")).on("c.id = p.city_id"))
        .to_string();
    assert_eq!(sql, "SELECT * FROM Person AS p JOIN City AS c ON c.id = p.city_id");
}

#[test]
fn select_from_multiple_joins() {
    let sql = select("col1")
        .from(
            "Person p"
                .inner_join("City c")
                .on("c.id = p.city_id")
                .left_join("Belonging b")
                .on("p.id = b.person_id"),
        )
        .to_string();
    assert_eq!(sql, "SELECT col1 FROM Person p INNER JOIN City c ON c.id = p.city_id LEFT JOIN Belonging b ON p.id = b.person_id");
}

#[test]
fn select_cross_join() {
    let sql = select("*").from("One".cross_join("Two")).to_string();
    assert_eq!(sql, "SELECT * FROM One CROSS JOIN Two");
}

#[test]
fn select_cross_join_chain() {
    let sql = select("*")
        .from("One".cross_join("Two").cross_join("Three"))
        .to_string();
    assert_eq!(sql, "SELECT * FROM One CROSS JOIN Two CROSS JOIN Three");
}

#[test]
fn select_nested_join_madness() {
    let sql = select("*")
        .from(
            "t1".left_join("t2".cross_join("t3").cross_join("t4"))
                .on("(t2.a = t1.a AND t3.b = t1.b AND t4.c = t1.c)"),
        )
        .to_string();
    assert_eq!(sql, "SELECT * FROM t1 LEFT JOIN (t2 CROSS JOIN t3 CROSS JOIN t4) ON (t2.a = t1.a AND t3.b = t1.b AND t4.c = t1.c)");
}

#[test]
fn select_from_heterogeneous_tables() {
    let sql = select("*")
        .from((
            "Person p".inner_join("City c").on("c.id = p.city_id"),
            "OtherTable o",
        ))
        .to_string();
    assert_eq!(sql, "SELECT * FROM Person p INNER JOIN City c ON c.id = p.city_id, OtherTable o");
}

#[test]
fn select_from_subselect() {
    let sql = select("*")
        .from(select("id").from("City").as_("x"))
        .to_string();
    assert_eq!(sql, "SELECT * FROM (SELECT id FROM City) AS x");
}

#[test]
fn select_from_subselect_with_alias() {
    let subselect = select(("id", "planet_id")).from("City");
    let sql = select("*")
        .from(
            subselect
                .as_("c")
                .inner_join("Planet".as_("p"))
                .on("c.planet_id = p.id"),
        )
        .to_string();
    assert_eq!(sql, "SELECT * FROM (SELECT id, planet_id FROM City) AS c INNER JOIN Planet AS p ON c.planet_id = p.id");
}

#[test]
fn select_group_by() {
    let sql = select(("country_id", "COUNT(*)"))
        .from("City")
        .group_by("country_id")
        .to_string();
    assert_eq!(sql, "SELECT country_id, COUNT(*) FROM City GROUP BY country_id");
}

#[test]
fn select_order_by() {
    let sql = select("*").from("City").order_by("id").to_string();
    assert_eq!(sql, "SELECT * FROM City ORDER BY id");
}

#[test]
fn select_order_by_two() {
    let sql = select("*")
        .from("City")
        .order_by(("country_id", "id"))
        .to_string();
    assert_eq!(sql, "SELECT * FROM City ORDER BY country_id, id");
}

#[test]
fn select_order_by_desc() {
    let sql = select("*").from("City").order_by("id".desc()).to_string();
    assert_eq!(sql, "SELECT * FROM City ORDER BY id DESC");
}

#[test]
fn select_limit() {
    let sql = select("whatever").from("SomeTable").limit(5).to_string();
    assert_eq!(sql, "SELECT whatever FROM SomeTable LIMIT 5");
}

#[test]
fn select_offset() {
    let sql = select("whatever").from("SomeTable").offset(5).to_string();
    assert_eq!(sql, "SELECT whatever FROM SomeTable OFFSET 5");
}

#[test]
fn select_limit_with_offset() {
    let sql = select("whatever")
        .from("SomeTable")
        .limit(10)
        .offset(5)
        .to_string();
    assert_eq!(sql, "SELECT whatever FROM SomeTable LIMIT 10 OFFSET 5");
}

#[test]
fn with_select() {
    let sql = with("thing")
        .as_(select("1 + 1"))
        .select("x")
        .from("thing")
        .to_string();
    assert_eq!(sql, "WITH thing AS (SELECT 1 + 1) SELECT x FROM thing");
}

#[test]
fn with_two_selects() {
    let sql = with("one")
        .as_(select("1 + 1"))
        .and_with("two")
        .as_(select("2 + 2"))
        .select(("one.x", "two.x"))
        .from(("one", "two"))
        .to_string();
    assert_eq!(
        sql,
        "WITH one AS (SELECT 1 + 1), two AS (SELECT 2 + 2) SELECT one.x, two.x FROM one, two"
    );
}

#[test]
fn complex_cte_example() {
    let sql = with("regional_sales")
        .as_(
            select(("region", "SUM(amount)".as_("total_sales")))
                .from("orders")
                .group_by("region"),
        )
        .and_with("top_regions")
        .as_(select("region").from("regional_sales").where_(format!(
            "total_sales > ({})",
            select("SUM(total_sales)/10").from("regional_sales").to_string()
        )))
        .select((
            "region",
            "product",
            "SUM(quantity)".as_("product_units"),
            "SUM(amount)".as_("product_sales"),
        ))
        .from("orders")
        .where_(format!(
            "region IN ({})",
            select("region").from("top_regions").to_string()
        ))
        .group_by(("region", "product"))
        .to_string();

    assert_eq!(sql, "WITH regional_sales AS (SELECT region, SUM(amount) AS total_sales FROM orders GROUP BY region), top_regions AS (SELECT region FROM regional_sales WHERE total_sales > (SELECT SUM(total_sales)/10 FROM regional_sales)) SELECT region, product, SUM(quantity) AS product_units, SUM(amount) AS product_sales FROM orders WHERE region IN (SELECT region FROM top_regions) GROUP BY region, product");
}

#[test]
fn complex_query_example() {
    let sql = select(("country.name".as_("name"), "COUNT(*)".as_("count")))
        .from(
            "Country"
                .as_("country")
                .inner_join("City".as_("city"))
                .on("city.country_id = country.id"),
        )
        .where_("city.population > 1000000")
        .group_by("country.name")
        .order_by("count".desc())
        .limit(10)
        .to_string();
    assert_eq!(sql, "SELECT country.name AS name, COUNT(*) AS count FROM Country AS country INNER JOIN City AS city ON city.country_id = country.id WHERE city.population > 1000000 GROUP BY country.name ORDER BY count DESC LIMIT 10");
}

#[test]
fn select_distinct_modes_last_write_wins() {
    let a = select("*").distinct().all().from("City").to_string();
    let b = select("*").all().distinct_on(("id", "name")).from("City").to_string();
    let c = select("*").distinct_on("id").distinct().from("City").to_string();
    assert_eq!(a, "SELECT ALL * FROM City");
    assert_eq!(b, "SELECT DISTINCT ON (id, name) * FROM City");
    assert_eq!(c, "SELECT DISTINCT * FROM City");
}

#[test]
fn select_limit_and_offset_replace() {
    let sql = select("x").limit(1).offset(2).limit(3).offset(4).to_string();
    assert_eq!(sql, "SELECT x LIMIT 3 OFFSET 4");
}

#[test]
fn select_clause_order_is_fixed() {
    let a = select("a")
        .offset(5)
        .limit(10)
        .order_by("a".asc().nulls_last())
        .having("COUNT(*) > 1")
        .group_by("a")
        .where_("a > 0")
        .from("T")
        .distinct()
        .to_string();
    let b = select("a")
        .distinct()
        .from("T")
        .where_("a > 0")
        .group_by("a")
        .having("COUNT(*) > 1")
        .order_by("a".asc().nulls_last())
        .limit(10)
        .offset(5)
        .to_string();
    assert_eq!(a, "SELECT DISTINCT a FROM T WHERE a > 0 GROUP BY a HAVING COUNT(*) > 1 ORDER BY a ASC NULLS LAST LIMIT 10 OFFSET 5");
    assert_eq!(a, b);
}

#[test]
fn select_accumulation_matches_single_call() {
    let a = select("a")
        .and_select("b")
        .from("T")
        .from("U")
        .where_("x")
        .where_("y")
        .group_by("g")
        .group_by("h")
        .having("p")
        .having("q")
        .order_by("o")
        .order_by("n".nulls_first())
        .to_string();
    let b = select(("a", "b"))
        .from(("T", "U"))
        .where_(("x", "y"))
        .group_by(("g", "h"))
        .having(("p", "q"))
        .order_by(("o", "n".nulls_first()))
        .to_string();
    assert_eq!(a, "SELECT a, b FROM T, U WHERE x AND y GROUP BY g, h HAVING p AND q ORDER BY o, n NULLS FIRST");
    assert_eq!(a, b);
}

#[test]
fn select_other_joins_and_using() {
    let sql = select("*")
        .from(
            "a".right_join("b")
                .using(("id", "k"))
                .full_outer_join("c")
                .on("c.id = a.id")
                .left_outer_join("d")
                .using("id")
                .right_outer_join("e")
                .on("true")
                .full_join("f")
                .on("false"),
        )
        .to_string();
    assert_eq!(sql, "SELECT * FROM a RIGHT JOIN b USING (id, k) FULL OUTER JOIN c ON c.id = a.id LEFT OUTER JOIN d USING (id) RIGHT OUTER JOIN e ON true FULL JOIN f ON false");
}

#[test]
fn with_columns_and_other_statements() {
    let sql = with("w")
        .columns(("a", "b"))
        .as_(select(("1", "2")))
        .and_with("d")
        .as_(scooby::postgres::delete_from("T").returning("*"))
        .select("*")
        .from("w")
        .to_string();
    assert_eq!(sql, "WITH w(a, b) AS (SELECT 1, 2), d AS (DELETE FROM T RETURNING *) SELECT * FROM w");
}

#[test]
fn select_from_vec_and_slice_arguments() {
    let columns = vec!["id", "name"];
    let a = select(&columns[..]).from(vec!["A", "B"]).to_string();
    let b = select(vec!["id".to_string(), "name".to_string()])
        .from(("A", "B"))
        .to_string();
    assert_eq!(a, "SELECT id, name FROM A, B");
    assert_eq!(a, b);
}

#[test]
fn select_scenario_tuple_of_columns() {
    let sql = select(("id", "name")).from("Person").to_string();
    assert_eq!(sql, "SELECT id, name FROM Person");
}
