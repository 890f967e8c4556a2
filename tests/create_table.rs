use scooby::postgres::{create_table, ColumnDefinitionable};

#[test]
fn regular_table() {
    let sql = create_table("Film")
        .columns((
            ("code", "char(5)").primary_key(),
            ("imdb_id", "char(40)").unique(),
            ("title", "varchar(40)").not_null(),
            ("did", "integer").not_null(),
            ("director_id", "integer").references("Person", "id"),
            ("date_prod", "date").check("date_prod < today()"),
            ("kind", "varchar(10)"),
            ("len", "interval hour to minute").default("0"),
        ))
        .unique("code")
        .to_string();

    assert_eq!(sql, "CREATE TABLE Film (code char(5) PRIMARY KEY, imdb_id char(40) UNIQUE, title varchar(40) NOT NULL, did integer NOT NULL, director_id integer REFERENCES Person(id), date_prod date CHECK (date_prod < today()), kind varchar(10), len interval hour to minute DEFAULT 0, UNIQUE (code))");
}

#[test]
fn if_not_exists() {
    let sql = create_table("Dummy")
        .if_not_exists()
        .columns((("a", "integer"),))
        .to_string();

    assert_eq!(sql, "CREATE TABLE IF NOT EXISTS Dummy (a integer)");
}

#[test]
fn constraints_render_in_category_order() {
    let sql = create_table("T")
        .columns((("id", "integer")
            .check("id > 0")
            .references("Other", "id")
            .default(7)
            .unique()
            .primary_key()
            .null(),))
        .unique(("a", "b"))
        .unique("c")
        .to_string();

    assert_eq!(sql, "CREATE TABLE T (id integer NULL PRIMARY KEY UNIQUE DEFAULT 7 REFERENCES Other(id) CHECK (id > 0), UNIQUE (a, b), UNIQUE (c))");
}
