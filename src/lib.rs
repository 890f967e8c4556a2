//! A fluent builder of PostgreSQL statements: `SELECT`, `INSERT INTO`, `UPDATE`,
//! `DELETE FROM`, `CREATE TABLE` and `WITH` prefixes, assembled from typed fragments
//! and rendered into a single line of SQL text.
//!
//! Every builder keeps a mathematical model of what it has accumulated, and every
//! rendering function is proved to produce exactly the text that the model describes.
pub mod postgres;
pub mod tools;
