//! The SQLite client on real background connections.

use aykroyd::error::ErrorKind;
use aykroyd::run::{ExecuteRun, Failure, Fetch, One, OneRun, OptionalRun, QueryRun, Step};
use aykroyd::sqlite::{
    from_column, Cause, Client, Control, Effect, Error, EveryRow, OneRow, Operation, OptionalRow,
    Transaction,
};
use rusqlite::params_from_iter;

type Todo = (i64, String);
type Run<T> = Result<T, Failure<rusqlite::Error, std::convert::Infallible>>;

const CREATE: &str =
    "CREATE TABLE todos (id INTEGER PRIMARY KEY AUTOINCREMENT, label TEXT NOT NULL)";
const INSERT: &str = "INSERT INTO todos (label) VALUES ($1)";
const ALL: &str = "SELECT id, label FROM todos ORDER BY id";
const NAMED: &str = "SELECT id, label FROM todos WHERE label = $1 ORDER BY id";

fn in_memory() -> Client {
    let opening = Client::open_in_memory();
    assert_eq!(*opening.location(), ":memory:");
    let outcome = async_sqlite::ClientBuilder::new().path(opening.location()).open_blocking();
    opening.opened(outcome).unwrap()
}

fn read(row: Option<&rusqlite::Row>) -> Option<Result<Todo, std::convert::Infallible>> {
    row.map(|row| Ok((row.get(0).unwrap(), row.get(1).unwrap())))
}

fn fetch(
    rows: &mut rusqlite::Rows,
) -> Fetch<Todo, rusqlite::Error, std::convert::Infallible> {
    rows.next().map(read)
}

type Connection<'a> = &'a rusqlite::Connection;

fn every(run: QueryRun<Connection, String, Todo>) -> Run<Vec<Todo>> {
    let reply = run.connection().prepare_cached(run.sql());
    let (run, mut statement, params) = run.prepared(reply)?;
    let (mut run, mut rows) = run.queried(statement.query(params_from_iter(params.iter())))?;
    loop {
        match run.fetched(fetch(&mut rows))? {
            Step::More(next) => run = next,
            Step::Done(todos) => return Ok(todos),
        }
    }
}

fn one(run: OneRun<Connection, String>) -> Run<One<Todo>> {
    let reply = run.connection().prepare_cached(run.sql());
    let (run, mut statement, params) = run.prepared(reply)?;
    let (run, mut rows) = run.queried(statement.query(params_from_iter(params.iter())))?;
    run.fetched(fetch(&mut rows))
}

fn optional(run: OptionalRun<Connection, String>) -> Run<Option<Todo>> {
    let reply = run.connection().prepare_cached(run.sql());
    let (run, mut statement, params) = run.prepared(reply)?;
    let (run, mut rows) = run.queried(statement.query(params_from_iter(params.iter())))?;
    run.fetched(fetch(&mut rows))
}

fn effect(run: ExecuteRun<Connection, String>) -> Run<usize> {
    let reply = run.connection().prepare_cached(run.sql());
    let (run, mut statement, params) = run.prepared(reply)?;
    run.executed(statement.execute(params_from_iter(params.iter())))
}

fn execute(
    operation: Operation<Effect>,
    text: &'static str,
    params: Option<Vec<String>>,
) -> Result<u64, Error> {
    let goal = operation.goal();
    let outcome = operation.client().conn_blocking(move |conn| {
        effect(goal.run(conn, String::from(text), params)).map_err(Failure::refusal)
    });
    operation.answered(outcome)
}

fn query(
    operation: Operation<EveryRow>,
    text: &'static str,
    params: Option<Vec<String>>,
) -> Result<Vec<Todo>, Error> {
    let goal = operation.goal();
    let outcome = operation.client().conn_blocking(move |conn| {
        every(goal.run(conn, String::from(text), params)).map_err(Failure::refusal)
    });
    operation.answered(outcome)
}

fn query_one(
    operation: Operation<OneRow>,
    text: &'static str,
    params: Option<Vec<String>>,
) -> Result<Todo, Error> {
    let goal = operation.goal();
    let outcome = operation.client().conn_blocking(move |conn| {
        one(goal.run(conn, String::from(text), params)).map_err(Failure::refusal)
    });
    operation.answered(outcome)
}

fn query_opt(
    operation: Operation<OptionalRow>,
    text: &'static str,
    params: Option<Vec<String>>,
) -> Result<Option<Todo>, Error> {
    let goal = operation.goal();
    let outcome = operation.client().conn_blocking(move |conn| {
        optional(goal.run(conn, String::from(text), params)).map_err(Failure::refusal)
    });
    operation.answered(outcome)
}

fn send(handle: &async_sqlite::Client, sql: &'static str) -> Result<(), async_sqlite::Error> {
    handle.conn_blocking(move |conn| conn.execute(sql, ()).map(|_| ()))
}

fn begin(client: &mut Client) -> Transaction {
    let beginning = client.transaction();
    assert_eq!(beginning.sql(), "BEGIN");
    let outcome = send(beginning.client(), beginning.sql());
    beginning.begun(outcome).unwrap()
}

fn finish(transaction: &mut Transaction, control: Control) -> Result<(), Error> {
    match control {
        Control::Send(command) => {
            let outcome = send(command.client(), command.sql());
            transaction.finish(outcome)
        }
        Control::Return(result) => result,
    }
}

fn sends(control: &Control, sql: &str) -> bool {
    matches!(control, Control::Send(command) if command.sql() == sql)
}

fn label(text: &str) -> Option<Vec<String>> {
    Some(vec![String::from(text)])
}

fn with_todos(labels: &[&str]) -> Client {
    let mut client = in_memory();
    assert_eq!(execute(client.execute(), CREATE, None).unwrap(), 0);
    for text in labels {
        assert_eq!(execute(client.execute(), INSERT, label(text)).unwrap(), 1);
    }
    client
}

fn labels(client: &mut Client) -> Vec<String> {
    let todos = query(client.query(), ALL, None).unwrap();
    todos.into_iter().map(|todo| todo.1).collect()
}

#[test]
fn sqlite_rows_come_back_in_order() {
    let mut client = with_todos(&["one", "two", "three"]);
    let expected = vec![
        (1, String::from("one")),
        (2, String::from("two")),
        (3, String::from("three")),
    ];
    assert_eq!(query(client.query(), ALL, None).unwrap(), expected);
    assert_eq!(query(client.query(), ALL, Some(vec![])).unwrap(), expected);
}

#[test]
fn sqlite_one_row_is_the_first_of_all() {
    let mut client = with_todos(&["same", "same", "other"]);
    let row = query_one(client.query_one(), NAMED, label("same")).unwrap();
    assert_eq!(row, (1, String::from("same")));
    let row = query_opt(client.query_opt(), NAMED, label("other")).unwrap();
    assert_eq!(row, Some((3, String::from("other"))));
}

#[test]
fn sqlite_a_missing_row_is_an_error_for_one_alone() {
    let mut client = with_todos(&["one"]);
    let error = query_one(client.query_one(), NAMED, label("none")).unwrap_err();
    assert_eq!(error.kind, ErrorKind::Query);
    assert!(matches!(error.cause, Cause::QueryReturnedNoRows));
    assert_eq!(query_opt(client.query_opt(), NAMED, label("none")).unwrap(), None);
}

#[test]
fn sqlite_every_refusal_of_a_run_is_an_error_of_the_query() {
    let mut client = with_todos(&["one"]);
    let errors = [
        query(client.query(), "SELEC", None).unwrap_err(),
        query_one(client.query_one(), "SELEC", None).unwrap_err(),
        query_opt(client.query_opt(), "SELEC", None).unwrap_err(),
        execute(client.execute(), "SELEC", None).unwrap_err(),
    ];
    for error in errors {
        assert_eq!(error.kind, ErrorKind::Query);
        assert!(matches!(
            error.cause,
            Cause::Handle(async_sqlite::Error::Rusqlite(rusqlite::Error::SqlInputError { .. }))
        ));
    }

    let text = "INSERT INTO todos (label) VALUES (NULL)";
    let error = execute(client.execute(), text, None).unwrap_err();
    assert_eq!(error.kind, ErrorKind::Query);
    assert!(matches!(
        error.cause,
        Cause::Handle(async_sqlite::Error::Rusqlite(rusqlite::Error::SqliteFailure(..)))
    ));

    let error = query(client.query(), NAMED, None).unwrap_err();
    assert_eq!(error.kind, ErrorKind::Query);
    assert!(matches!(
        error.cause,
        Cause::Handle(async_sqlite::Error::Rusqlite(rusqlite::Error::InvalidParameterCount(0, 1)))
    ));
}

#[test]
fn sqlite_a_closed_connection_is_an_error_of_the_operation() {
    let mut client = with_todos(&[]);
    client.as_mut().close_blocking().unwrap();
    let error = query(client.query(), ALL, None).unwrap_err();
    assert_eq!(error.kind, ErrorKind::Query);
    assert!(matches!(error.cause, Cause::Handle(async_sqlite::Error::Closed)));

    let beginning = client.transaction();
    let outcome = send(beginning.client(), beginning.sql());
    let error = match beginning.begun(outcome) {
        Ok(_) => panic!("begun on a closed connection"),
        Err(error) => error,
    };
    assert_eq!(error.kind, ErrorKind::Transaction);
    assert!(matches!(error.cause, Cause::Handle(async_sqlite::Error::Closed)));
}

#[test]
fn sqlite_opening_reports_its_failure() {
    let opening = Client::open("/nowhere/at/all/todos.sqlite");
    assert_eq!(*opening.location(), "/nowhere/at/all/todos.sqlite");
    let outcome = async_sqlite::ClientBuilder::new().path(opening.location()).open_blocking();
    let error = match opening.opened(outcome) {
        Ok(_) => panic!("opened a database in a directory that is not there"),
        Err(error) => error,
    };
    assert_eq!(error.kind, ErrorKind::Connect);
    assert!(matches!(error.cause, Cause::Handle(async_sqlite::Error::Rusqlite(_))));
}

#[test]
fn sqlite_preparing_reports_its_failure() {
    let mut client = with_todos(&[]);
    for (text, valid) in [(ALL, true), ("SELEC", false)] {
        let preparing = client.prepare(text);
        let sql = preparing.sql();
        assert_eq!(sql, text);
        let outcome = preparing
            .client()
            .conn_blocking(move |conn| conn.prepare_cached(sql).map(|_| ()));
        match preparing.prepared(outcome) {
            Ok(()) => assert!(valid),
            Err(error) => {
                assert!(!valid);
                assert_eq!(error.kind, ErrorKind::Prepare);
                assert!(matches!(error.cause, Cause::Handle(_)));
            }
        }
    }
    let mut transaction = begin(&mut client);
    assert_eq!(transaction.prepare(ALL).sql(), ALL);
}

#[test]
fn sqlite_a_column_reports_its_failure() {
    assert_eq!(from_column(Ok(5)).unwrap(), 5);
    let error = from_column::<u8>(Err(rusqlite::Error::InvalidColumnIndex(2))).unwrap_err();
    assert_eq!(error.kind, ErrorKind::FromColumn);
    assert!(matches!(error.cause, Cause::Rusqlite(rusqlite::Error::InvalidColumnIndex(2))));
}

#[test]
fn sqlite_operations_go_over_their_own_connection() {
    let mut client = with_todos(&["one"]);
    let mut other = with_todos(&["elsewhere", "too"]);
    assert_eq!(labels(&mut client), vec!["one"]);
    assert_eq!(labels(&mut other), vec!["elsewhere", "too"]);
    assert_eq!(labels(&mut client.clone()), vec!["one"]);
    assert!(query_opt(other.query_opt(), NAMED, label("one")).unwrap().is_none());
    assert!(query_one(client.query_one(), NAMED, label("one")).is_ok());
}

#[test]
fn sqlite_a_transaction_is_on_the_client_connection() {
    let mut client = with_todos(&["one"]);
    let mut transaction = begin(&mut client);
    assert_eq!(execute(transaction.execute(), INSERT, label("two")).unwrap(), 1);
    assert_eq!(query(transaction.query(), ALL, None).unwrap().len(), 2);
    assert_eq!(labels(&mut client), vec!["one", "two"]);
}

#[test]
fn sqlite_commit_keeps_and_rollback_discards() {
    let mut client = with_todos(&["one"]);

    let mut transaction = begin(&mut client);
    execute(transaction.execute(), INSERT, label("kept")).unwrap();
    let control = transaction.commit();
    assert!(sends(&control, "COMMIT"));
    finish(&mut transaction, control).unwrap();
    assert_eq!(labels(&mut client), vec!["one", "kept"]);

    let mut transaction = begin(&mut client);
    execute(transaction.execute(), INSERT, label("discarded")).unwrap();
    let control = transaction.rollback();
    assert!(sends(&control, "ROLLBACK"));
    finish(&mut transaction, control).unwrap();
    assert_eq!(labels(&mut client), vec!["one", "kept"]);
}

#[test]
fn sqlite_a_transaction_finishes_once() {
    let mut client = with_todos(&[]);
    let mut transaction = begin(&mut client);
    let control = transaction.commit();
    finish(&mut transaction, control).unwrap();
    assert!(matches!(transaction.commit(), Control::Return(Ok(()))));
    assert!(matches!(transaction.rollback(), Control::Return(Ok(()))));
    assert!(matches!(transaction.clone().commit(), Control::Return(Ok(()))));
}

#[test]
fn sqlite_a_refused_end_leaves_the_transaction_open() {
    let mut client = with_todos(&[]);
    let mut transaction = begin(&mut client);
    let mut twin = transaction.clone();
    let control = transaction.commit();
    finish(&mut transaction, control).unwrap();

    let control = twin.rollback();
    let error = finish(&mut twin, control).unwrap_err();
    assert_eq!(error.kind, ErrorKind::Transaction);
    assert!(matches!(error.cause, Cause::Handle(async_sqlite::Error::Rusqlite(_))));
    assert!(sends(&twin.rollback(), "ROLLBACK"));
    assert!(sends(&twin.commit(), "COMMIT"));
}

#[test]
fn sqlite_a_transaction_reads_one_row() {
    let mut client = with_todos(&["one"]);
    let mut transaction = begin(&mut client);
    let row = query_one(transaction.query_one(), NAMED, label("one")).unwrap();
    assert_eq!(row, (1, String::from("one")));
    assert_eq!(query_opt(transaction.query_opt(), NAMED, label("two")).unwrap(), None);
}

#[test]
fn sqlite_a_client_is_made_of_a_handle() {
    let handle = async_sqlite::ClientBuilder::new().open_blocking().unwrap();
    send(&handle, "CREATE TABLE todos (id INTEGER, label TEXT)").unwrap();
    let mut client = Client::from(handle);
    send(client.as_ref(), "INSERT INTO todos VALUES (4, 'four')").unwrap();
    assert_eq!(labels(&mut client), vec!["four"]);
}
