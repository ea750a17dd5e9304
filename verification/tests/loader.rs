use rusqlite::Connection;
use switrs_schema::database::CellValue;
use switrs_schema::error::{BuildError, ErrorKind};
use switrs_schema::loader::{cell_of, cells_of, insert_statement, plan_load, row_text};
use switrs_schema::newdb::NewDB;
use switrs_schema::records::header_of;

const PK_TABLE: &str = "CREATE TABLE {table} (\n    key {pk_type} PRIMARY KEY,\n    description TEXT\n);\n";

const DAY_OF_WEEK: &str = "key,description\n1,Monday\n2,Tuesday\n3,Wednesday\n4,Thursday\n5,Friday\n6,Saturday\n7,Sunday\n";

fn strings(items: &[&str]) -> Vec<String> {
    items.iter().map(|s| s.to_string()).collect()
}

fn numbered_rows(header: &str, n: usize) -> String {
    let mut text = format!("{header}\n");
    for i in 0..n {
        text.push_str(&format!("{:02},row {}\n", i, i));
    }
    text
}

fn count_rows(conn: &Connection, table: &str) -> i64 {
    conn.query_row(&format!("SELECT COUNT(*) FROM {table}"), [], |row| row.get(0))
        .expect("failed to count rows")
}

#[test]
fn test_create_table_char_1() {
    let connection = Connection::open_in_memory().expect("failed to open in memory DB");

    connection
        .connection()
        .create_table("day_of_week", "CHAR(1)", PK_TABLE)
        .expect("failed to create table");

    connection
        .execute("SELECT * from day_of_week", [])
        .expect("failed to execute query");

    let count = connection
        .connection()
        .load_data("day_of_week", DAY_OF_WEEK.as_bytes())
        .expect("failed to create table");

    assert_eq!(7, count);
    assert_eq!(7, count_rows(&connection, "day_of_week"));
}

#[test]
fn test_create_table_char_2() {
    let connection = Connection::open_in_memory().expect("failed to open in memory DB");

    connection
        .connection()
        .create_table("pcf_violation_category", "CHAR(2)", PK_TABLE)
        .expect("failed to create table");

    connection
        .execute("SELECT * from pcf_violation_category", [])
        .expect("failed to execute query");

    let data = numbered_rows("key,description", 26);
    let count = connection
        .connection()
        .load_data("pcf_violation_category", data.as_bytes())
        .expect("failed to create table");

    assert_eq!(26, count);
}

#[test]
fn test_create_table_varchar_2() {
    let connection = Connection::open_in_memory().expect("failed to open in memory DB");

    connection
        .connection()
        .create_table("primary_ramp", "VARCHAR2(2)", PK_TABLE)
        .expect("failed to create table");

    connection
        .execute("SELECT * from primary_ramp", [])
        .expect("failed to execute query");

    let data = numbered_rows("key,description", 10);
    let count = connection
        .connection()
        .load_data("primary_ramp", data.as_bytes())
        .expect("failed to create table");

    assert_eq!(10, count);
}

#[test]
fn test_create_parties() {
    let connection = Connection::open_in_memory().expect("failed to open in memory DB");

    connection
        .connection()
        .create_table("parties", "", "CREATE TABLE parties ([CASE_ID] INTEGER, [PARTY_TYPE] TEXT);")
        .expect("failed to create table");

    connection
        .execute("SELECT * from parties", [])
        .expect("failed to execute query");

    let data = numbered_rows("CASE_ID,PARTY_TYPE", 11);
    let count = connection
        .connection()
        .load_data("parties", data.as_bytes())
        .expect("failed to create table");

    assert_eq!(11, count);
}

#[test]
fn test_create_victims() {
    let connection = Connection::open_in_memory().expect("failed to open in memory DB");

    connection
        .connection()
        .create_table("victims", "", "CREATE TABLE victims ([CASE_ID] INTEGER, [VICTIM_ROLE] TEXT);")
        .expect("failed to create table");

    connection
        .execute("SELECT * from victims", [])
        .expect("failed to execute query");

    let data = numbered_rows("CASE_ID,VICTIM_ROLE", 21);
    let count = connection
        .connection()
        .load_data("victims", data.as_bytes())
        .expect("failed to create table");

    assert_eq!(21, count);
    assert_eq!(21, count_rows(&connection, "victims"));
}

#[test]
fn create_table_twice_fails() {
    let connection = Connection::open_in_memory().expect("failed to open in memory DB");
    connection.create_table("day_of_week", "CHAR(1)", PK_TABLE).expect("failed to create table");
    let err = connection.create_table("day_of_week", "CHAR(1)", PK_TABLE).unwrap_err();
    assert_eq!(err.kind, ErrorKind::Database);
    assert!(err.message.contains("already exists"));
}

#[test]
fn create_table_with_bad_ddl_fails() {
    let connection = Connection::open_in_memory().expect("failed to open in memory DB");
    let err = connection.create_table("t", "CHAR(1)", "CREATE TABEL {table};").unwrap_err();
    assert_eq!(err.kind, ErrorKind::Database);
}

#[test]
fn create_table_with_bad_template_fails() {
    let connection = Connection::open_in_memory().expect("failed to open in memory DB");
    let err = connection.create_table("t", "CHAR(1)", "CREATE TABLE {name} (id {pk_type});").unwrap_err();
    assert_eq!(err.kind, ErrorKind::Template);
    let err = connection.create_table("t", "CHAR(1)", "CREATE TABLE {table} (id {pk_type);").unwrap_err();
    assert_eq!(err.kind, ErrorKind::Template);
    assert!(connection.execute("SELECT * from t", []).is_err());
}

#[test]
fn create_table_runs_every_statement() {
    let connection = Connection::open_in_memory().expect("failed to open in memory DB");
    connection.create_table(
        "a",
        "INTEGER",
        "CREATE TABLE {table} (id {pk_type});\nCREATE TABLE {table}_log (id {pk_type});",
    )
    .expect("failed to create table");
    assert_eq!(0, count_rows(&connection, "a"));
    assert_eq!(0, count_rows(&connection, "a_log"));
}

#[test]
fn load_stores_null_for_empty_cells() {
    let connection = Connection::open_in_memory().expect("failed to open in memory DB");
    connection.create_table("t", "CHAR(1)", PK_TABLE).expect("failed to create table");
    let data = "key,description\nA,\nB,  padded  \nC,-\nD,\"quoted, with comma\"\nE,\"\"\n";
    let count = connection.load_data("t", data.as_bytes()).expect("failed to load");
    assert_eq!(5, count);
    let mut stmt = connection
        .prepare("SELECT key, description FROM t ORDER BY key")
        .expect("failed to prepare");
    let rows: Vec<(String, Option<String>)> = stmt
        .query_map([], |row| Ok((row.get(0)?, row.get(1)?)))
        .expect("failed to query")
        .map(|r| r.expect("bad row"))
        .collect();
    assert_eq!(
        rows,
        vec![
            ("A".to_string(), None),
            ("B".to_string(), Some("padded".to_string())),
            ("C".to_string(), Some("-".to_string())),
            ("D".to_string(), Some("quoted, with comma".to_string())),
            ("E".to_string(), None),
        ]
    );
}

#[test]
fn load_follows_header_order() {
    let connection = Connection::open_in_memory().expect("failed to open in memory DB");
    connection.create_table("t", "CHAR(1)", PK_TABLE).expect("failed to create table");
    let count = connection.load_data("t", b"description,key\nfirst,1\nsecond,2\n").expect("failed to load");
    assert_eq!(2, count);
    let text: String = connection
        .query_row("SELECT description FROM t WHERE key = '2'", [], |row| row.get(0))
        .expect("failed to query");
    assert_eq!(text, "second");
}

#[test]
fn load_with_empty_header_does_nothing() {
    let connection = Connection::open_in_memory().expect("failed to open in memory DB");
    assert_eq!(0, connection.load_data("no_such_table", b"").expect("failed to load"));
    connection.create_table("t", "CHAR(1)", PK_TABLE).expect("failed to create table");
    assert_eq!(0, connection.load_data("t", b"").expect("failed to load"));
    assert_eq!(0, count_rows(&connection, "t"));
}

#[test]
fn load_with_header_only_inserts_nothing() {
    let connection = Connection::open_in_memory().expect("failed to open in memory DB");
    connection.create_table("t", "CHAR(1)", PK_TABLE).expect("failed to create table");
    assert_eq!(0, connection.load_data("t", b"key,description\n").expect("failed to load"));
    assert_eq!(0, count_rows(&connection, "t"));
}

#[test]
fn load_stops_at_malformed_row() {
    let connection = Connection::open_in_memory().expect("failed to open in memory DB");
    connection.create_table("t", "CHAR(1)", PK_TABLE).expect("failed to create table");
    let failure = connection.load_data("t", b"key,description\n1,one\n2\n3,three\n").unwrap_err();
    assert_eq!(failure.error.kind, ErrorKind::Format);
    assert_eq!(failure.rows_loaded, 1);
    assert_eq!(failure.row, "");
    assert_eq!(1, count_rows(&connection, "t"));
}

#[test]
fn load_stops_at_refused_row() {
    let connection = Connection::open_in_memory().expect("failed to open in memory DB");
    connection.create_table("t", "CHAR(1)", PK_TABLE).expect("failed to create table");
    let failure = connection.load_data("t", b"key,description\n1,one\n2,two\n1,again\n4,four\n").unwrap_err();
    assert_eq!(failure.error.kind, ErrorKind::Database);
    assert_eq!(failure.rows_loaded, 2);
    assert_eq!(failure.row, "key=1,description=again,");
    assert_eq!(2, count_rows(&connection, "t"));
}

#[test]
fn load_into_missing_table_fails() {
    let connection = Connection::open_in_memory().expect("failed to open in memory DB");
    let failure = connection.load_data("missing", DAY_OF_WEEK.as_bytes()).unwrap_err();
    assert_eq!(failure.error.kind, ErrorKind::Database);
    assert_eq!(failure.rows_loaded, 0);
    assert_eq!(failure.row, "");
}

#[test]
fn load_with_unreadable_header_fails() {
    let connection = Connection::open_in_memory().expect("failed to open in memory DB");
    connection.create_table("t", "CHAR(1)", PK_TABLE).expect("failed to create table");
    let failure = connection.load_data("t", b"key,\xff\xfe\n1,one\n").unwrap_err();
    assert_eq!(failure.error.kind, ErrorKind::Format);
    assert_eq!(failure.rows_loaded, 0);
    assert_eq!(0, count_rows(&connection, "t"));
}

#[test]
fn load_does_not_inline_values() {
    let connection = Connection::open_in_memory().expect("failed to open in memory DB");
    connection.create_table("t", "CHAR(1)", PK_TABLE).expect("failed to create table");
    let data = "key,description\n1,\"'); DROP TABLE t; --\"\n";
    assert_eq!(1, connection.load_data("t", data.as_bytes()).expect("failed to load"));
    let text: String = connection
        .query_row("SELECT description FROM t", [], |row| row.get(0))
        .expect("failed to query");
    assert_eq!(text, "'); DROP TABLE t; --");
}

#[test]
fn header_is_trimmed() {
    let header = header_of(b" key , description \n1,one\n").expect("bad header");
    assert_eq!(header, strings(&["key", "description"]));
    assert_eq!(header_of(b"").expect("bad header"), Vec::<String>::new());
    let err = header_of(b"\xff\n").unwrap_err();
    assert_eq!(err.kind, ErrorKind::Format);
}

#[test]
fn insert_statement_lists_columns_and_marks() {
    assert_eq!(
        insert_statement("t", &strings(&["a", "b", "c"])),
        Some("INSERT INTO t (a, b, c) VALUES(?, ?, ?)".to_string())
    );
    assert_eq!(
        insert_statement("day_of_week", &strings(&["key"])),
        Some("INSERT INTO day_of_week (key) VALUES(?)".to_string())
    );
    assert_eq!(insert_statement("t", &strings(&[])), None);
}

#[test]
fn row_text_pairs_columns_with_values() {
    assert_eq!(row_text(&strings(&["a", "b"]), &strings(&["1", "2"])), "a=1,b=2,");
    assert_eq!(row_text(&strings(&["a", "b"]), &strings(&["1"])), "a=1,");
    assert_eq!(row_text(&strings(&["a"]), &strings(&["1", "2"])), "a=1,");
    assert_eq!(row_text(&strings(&[]), &strings(&[])), "");
}

#[test]
fn empty_field_becomes_null() {
    assert!(matches!(cell_of(""), CellValue::Null));
    assert!(matches!(cell_of("-"), CellValue::Text(t) if t == "-"));
    assert!(matches!(cell_of(" "), CellValue::Text(t) if t == " "));
    let cells = cells_of(&strings(&["x", "", "y"]));
    assert_eq!(cells.len(), 3);
    assert_eq!(cells[0].text(), Some("x"));
    assert_eq!(cells[1].text(), None);
    assert_eq!(cells[2].text(), Some("y"));
}

#[test]
fn error_is_described_by_kind_and_message() {
    let e = BuildError::new(ErrorKind::Database, "no such table".to_string());
    assert_eq!(e.describe(), "database error: no such table");
    assert_eq!(BuildError::new(ErrorKind::Io, "x".to_string()).describe(), "I/O error: x");
    assert_eq!(BuildError::new(ErrorKind::Config, "x".to_string()).describe(), "configuration error: x");
    assert_eq!(BuildError::new(ErrorKind::Template, "x".to_string()).describe(), "template error: x");
    assert_eq!(BuildError::new(ErrorKind::Format, String::new()).describe(), "format error: ");
}

#[test]
fn plan_holds_statement_columns_and_rows() {
    let plan = plan_load("t", b"key , description\n1, one \n2\n3,\n")
        .expect("bad header")
        .expect("no plan");
    assert_eq!(plan.statement, "INSERT INTO t (key, description) VALUES(?, ?)");
    assert_eq!(plan.columns, strings(&["key", "description"]));
    assert_eq!(plan.rows.len(), 3);
    assert_eq!(plan.rows[0].as_ref().expect("bad row"), &strings(&["1", "one"]));
    assert!(plan.rows[1].is_err());
    assert_eq!(plan.rows[2].as_ref().expect("bad row"), &strings(&["3", ""]));
}

#[test]
fn plan_for_empty_header_is_none() {
    assert!(plan_load("t", b"").expect("bad header").is_none());
    assert!(plan_load("t", b"\n\n").expect("bad header").is_none());
}

#[test]
fn plan_for_unreadable_header_fails() {
    let err = plan_load("t", b"\xff,a\n1,2\n").unwrap_err();
    assert_eq!(err.kind, ErrorKind::Format);
    assert!(!err.message.is_empty());
}
