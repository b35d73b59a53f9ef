//! The Turso client on real connections.

use aykroyd::error::ErrorKind;
use aykroyd::run::{ExecuteRun, Failure, One, OneRun, OptionalRun, QueryRun, Step};
use aykroyd::turso_db::{
    executed, from_column, queried, queried_one, queried_opt, to_param, Cause, Client, Error,
    Opening,
};
use futures::executor::block_on;
use turso::Value;

type Todo = (i64, String);
type Run<T> = Result<T, Failure<turso::Error, Error>>;

const CREATE: &str =
    "CREATE TABLE test_turso (id INTEGER PRIMARY KEY AUTOINCREMENT, label TEXT NOT NULL)";
const DROP: &str = "DROP TABLE IF EXISTS test_turso";
const INSERT: &str = "INSERT INTO test_turso (label) VALUES ($1)";
const ALL: &str = "SELECT id, label FROM test_turso";
const NAMED: &str = "SELECT id, label FROM test_turso WHERE label = $1";
const TODO_TEXT: &str = "get things done, please!";

async fn open<L: AsRef<str>>(opening: Opening<L>) -> Result<Client, Error> {
    let reply = turso::Builder::new_local(opening.location().as_ref()).build().await;
    let (opening, database) = opening.built(reply)?;
    opening.opened(database.connect())
}

async fn in_memory() -> Client {
    let opening = Client::open_in_memory();
    assert_eq!(*opening.location(), ":memory:");
    open(opening).await.unwrap()
}

async fn settle(client: &Client) -> Run<()> {
    let settling = client.settle();
    assert!(std::ptr::eq(settling.connection(), client.as_ref()));
    let reply = settling.connection().query(settling.sql(), ()).await;
    settling.settled(reply.map(|_| ()))
}

fn read(row: &turso::Row) -> Result<Todo, Error> {
    Ok((from_column(row.get(0))?, from_column(row.get(1))?))
}

async fn fetch(rows: &mut turso::Rows) -> Result<Option<Result<Todo, Error>>, turso::Error> {
    Ok(rows.next().await?.map(|row| read(&row)))
}

/// What a statement can be prepared on.
trait Over {
    fn to_connection(&self) -> &turso::Connection;
}

impl Over for &turso::Connection {
    fn to_connection(&self) -> &turso::Connection {
        self
    }
}

impl Over for &turso::transaction::Transaction<'_> {
    fn to_connection(&self) -> &turso::Connection {
        self
    }
}

async fn every<H: Over>(run: QueryRun<H, Value, Todo>) -> Run<Vec<Todo>> {
    let reply = run.connection().to_connection().prepare(run.sql()).await;
    let (run, mut statement, params) = run.prepared(reply)?;
    let (mut run, mut rows) = run.queried(statement.query(params).await)?;
    loop {
        match run.fetched(fetch(&mut rows).await)? {
            Step::More(next) => run = next,
            Step::Done(todos) => return Ok(todos),
        }
    }
}

async fn one<H: Over>(run: OneRun<H, Value>) -> Run<One<Todo>> {
    let reply = run.connection().to_connection().prepare(run.sql()).await;
    let (run, mut statement, params) = run.prepared(reply)?;
    let (run, mut rows) = run.queried(statement.query(params).await)?;
    run.fetched(fetch(&mut rows).await)
}

async fn optional<H: Over>(run: OptionalRun<H, Value>) -> Run<Option<Todo>> {
    let reply = run.connection().to_connection().prepare(run.sql()).await;
    let (run, mut statement, params) = run.prepared(reply)?;
    let (run, mut rows) = run.queried(statement.query(params).await)?;
    run.fetched(fetch(&mut rows).await)
}

async fn effect<H: Over>(run: ExecuteRun<H, Value>) -> Run<u64> {
    let reply = run.connection().to_connection().prepare(run.sql()).await;
    let (run, mut statement, params) = run.prepared(reply)?;
    run.executed(statement.execute(params).await)
}

async fn execute(client: &Client, text: &str, params: Option<Vec<Value>>) -> Result<u64, Error> {
    executed(effect(client.execute(String::from(text), params)).await)
}

async fn query(client: &Client, text: &str, params: Option<Vec<Value>>) -> Result<Vec<Todo>, Error> {
    queried(every(client.query(String::from(text), params)).await)
}

fn label(text: &str) -> Option<Vec<Value>> {
    Some(vec![to_param(turso::params::IntoValue::into_value(text))])
}

async fn with_todos(labels: &[&str]) -> Client {
    let client = in_memory().await;
    execute(&client, CREATE, None).await.unwrap();
    for text in labels {
        assert_eq!(execute(&client, INSERT, label(text)).await.unwrap(), 1);
    }
    client
}

#[test]
fn end_to_end_memory() {
    block_on(async {
        let client = in_memory().await;

        execute(&client, CREATE, None).await.unwrap();

        execute(&client, INSERT, label(TODO_TEXT)).await.unwrap();

        let todos = query(&client, ALL, None).await.unwrap();
        assert_eq!(1, todos.len());
        assert_eq!(TODO_TEXT, todos[0].1);

        execute(&client, DROP, None).await.unwrap();
    });
}

#[test]
fn turso_rows_come_back_in_order() {
    block_on(async {
        let client = with_todos(&["one", "two", "three"]).await;
        let expected = vec![
            (1, String::from("one")),
            (2, String::from("two")),
            (3, String::from("three")),
        ];
        assert_eq!(query(&client, ALL, None).await.unwrap(), expected);
        assert_eq!(query(&client.clone(), ALL, Some(vec![])).await.unwrap(), expected);
    });
}

#[test]
fn turso_one_row_is_the_first_of_all() {
    block_on(async {
        let client = with_todos(&["same", "same", "other"]).await;
        let run = client.query_one(String::from(NAMED), label("same"));
        let row = queried_one(one(run).await);
        assert_eq!(row.unwrap(), (1, String::from("same")));
        let run = client.query_opt(String::from(NAMED), label("other"));
        let row = queried_opt(optional(run).await);
        assert_eq!(row.unwrap(), Some((3, String::from("other"))));
    });
}

#[test]
fn turso_a_missing_row_is_an_error_for_one_alone() {
    block_on(async {
        let client = with_todos(&["one"]).await;
        let run = client.query_one(String::from(NAMED), label("none"));
        let error = queried_one(one(run).await).unwrap_err();
        assert_eq!(error.kind, ErrorKind::Query);
        assert!(matches!(error.cause, Cause::QueryReturnedNoRows));
        let run = client.query_opt(String::from(NAMED), label("none"));
        assert_eq!(queried_opt(optional(run).await).unwrap(), None);
    });
}

#[test]
fn turso_a_failure_names_its_stage() {
    block_on(async {
        let client = with_todos(&["one"]).await;
        let error = query(&client, "SELEC", None).await.unwrap_err();
        assert_eq!(error.kind, ErrorKind::Prepare);
        assert!(matches!(error.cause, Cause::Turso(_)));

        let text = "INSERT INTO test_turso (label) VALUES (NULL)";
        let error = execute(&client, text, None).await.unwrap_err();
        assert_eq!(error.kind, ErrorKind::Query);
        assert!(matches!(error.cause, Cause::Turso(turso::Error::Constraint(_))));

        let text = "SELECT id FROM test_turso";
        let error = query(&client, text, None).await.unwrap_err();
        assert_eq!(error.kind, ErrorKind::FromColumn);
        assert!(matches!(error.cause, Cause::Turso(turso::Error::Misuse(_))));
    });
}

#[test]
fn turso_a_refused_fetch_is_an_error_of_the_query() {
    let refused: Run<Vec<Todo>> = Err(Failure::Query(turso::Error::Busy(String::from("busy"))));
    let error = queried(refused).unwrap_err();
    assert_eq!(error.kind, ErrorKind::Query);
    assert!(matches!(error.cause, Cause::Turso(turso::Error::Busy(_))));
}

#[test]
fn turso_opening_reports_its_failure() {
    block_on(async {
        let opening = Client::open("/nowhere/at/all/todos.db");
        assert_eq!(*opening.location(), "/nowhere/at/all/todos.db");
        let error = open(opening).await.unwrap_err();
        assert_eq!(error.kind, ErrorKind::Connect);
        assert!(matches!(error.cause, Cause::Turso(_)));
    });
}

#[test]
fn turso_opening_builds_before_it_connects() {
    let busy = || turso::Error::Busy(String::from("busy"));
    let error = match Client::open("todos.db").built::<u8>(Err(busy())) {
        Ok(_) => panic!("built what was refused"),
        Err(error) => error,
    };
    assert_eq!(error.kind, ErrorKind::Connect);
    assert!(matches!(error.cause, Cause::Turso(turso::Error::Busy(_))));

    let (opening, database) = Client::open("todos.db").built(Ok(7)).unwrap();
    assert_eq!((*opening.location(), database), ("todos.db", 7));
    let error = opening.opened(Err(busy())).unwrap_err();
    assert_eq!(error.kind, ErrorKind::Connect);
    assert!(matches!(error.cause, Cause::Turso(turso::Error::Busy(_))));
}

#[test]
fn turso_preparing_reports_its_failure() {
    block_on(async {
        let client = with_todos(&[]).await;
        let preparing = client.prepare(ALL);
        assert_eq!(preparing.sql(), ALL);
        let outcome = preparing.connection().prepare(preparing.sql()).await.map(|_| ());
        assert!(preparing.prepared(outcome).is_ok());
        let preparing = client.prepare("SELEC");
        let outcome = preparing.connection().prepare(preparing.sql()).await.map(|_| ());
        let error = preparing.prepared(outcome).unwrap_err();
        assert_eq!(error.kind, ErrorKind::Prepare);
        assert!(matches!(error.cause, Cause::Turso(_)));
    });
}

#[test]
fn turso_operations_go_over_their_own_connection() {
    block_on(async {
        let client = with_todos(&["one"]).await;
        let other = with_todos(&["elsewhere", "too"]).await;
        assert_eq!(query(&client, ALL, None).await.unwrap().len(), 1);
        assert_eq!(query(&other, ALL, None).await.unwrap().len(), 2);
        let run = client.query_one(String::from(NAMED), label("one"));
        assert!(std::ptr::eq(*run.connection(), client.as_ref()));
        assert!(queried_one(one(run).await).is_ok());
        let run = other.query_opt(String::from(NAMED), label("one"));
        assert!(std::ptr::eq(*run.connection(), other.as_ref()));
        assert!(queried_opt(optional(run).await).unwrap().is_none());
    });
}

#[test]
fn turso_commit_keeps_and_rollback_discards() {
    block_on(async {
        let client = with_todos(&["one"]).await;

        let beginning = client.transaction();
        let outcome = beginning.connection().unchecked_transaction().await;
        let transaction = beginning.begun(outcome).unwrap();
        let run = transaction.execute(String::from(INSERT), label("kept"));
        assert_eq!(executed(effect(run).await).unwrap(), 1);
        let run = transaction.query(String::from(ALL), None);
        assert_eq!(queried(every(run).await).unwrap().len(), 2);
        let run = transaction.query_one(String::from(NAMED), label("kept"));
        assert_eq!(queried_one(one(run).await).unwrap(), (2, String::from("kept")));
        let run = transaction.query_opt(String::from(NAMED), label("lost"));
        assert_eq!(queried_opt(optional(run).await).unwrap(), None);
        let preparing = transaction.prepare(ALL);
        assert_eq!(preparing.sql(), ALL);
        let outcome = preparing.connection().prepare(preparing.sql()).await.map(|_| ());
        assert!(preparing.prepared(outcome).is_ok());
        let (inner, committing) = transaction.commit();
        committing.answered(inner.commit().await).unwrap();
        assert_eq!(query(&client, ALL, None).await.unwrap().len(), 2);

        let beginning = client.transaction();
        let outcome = beginning.connection().unchecked_transaction().await;
        let transaction = beginning.begun(outcome).unwrap();
        let run = transaction.execute(String::from(INSERT), label("discarded"));
        executed(effect(run).await).unwrap();
        let (inner, rolling) = transaction.rollback();
        rolling.answered(inner.rollback().await).unwrap();
        assert_eq!(query(&client, ALL, None).await.unwrap().len(), 2);
    });
}

#[test]
fn turso_a_transaction_reports_its_failure() {
    block_on(async {
        let busy = || turso::Error::Busy(String::from("busy"));
        let client = with_todos(&[]).await;
        let refused = client.transaction().begun(Err(busy())).map(|_| ()).unwrap_err();
        let mut errors = vec![refused];

        let beginning = client.transaction();
        let outcome = beginning.connection().unchecked_transaction().await;
        let (inner, committing) = beginning.begun(outcome).unwrap().commit();
        errors.push(committing.answered(Err(busy())).unwrap_err());
        inner.rollback().await.unwrap();

        let beginning = client.transaction();
        let outcome = beginning.connection().unchecked_transaction().await;
        let (inner, rolling) = beginning.begun(outcome).unwrap().rollback();
        errors.push(rolling.answered(Err(busy())).unwrap_err());
        inner.rollback().await.unwrap();

        for error in errors {
            assert_eq!(error.kind, ErrorKind::Transaction);
            assert!(matches!(error.cause, Cause::Turso(turso::Error::Busy(_))));
        }
    });
}

#[test]
fn turso_a_dropped_transaction_is_rolled_back_at_the_next_use() {
    block_on(async {
        let client = with_todos(&["one"]).await;
        let beginning = client.transaction();
        let outcome = beginning.connection().unchecked_transaction().await;
        let transaction = beginning.begun(outcome).unwrap();
        let run = transaction.execute(String::from(INSERT), label("dropped"));
        executed(effect(run).await).unwrap();
        drop(transaction);
        assert_eq!(client.settle().sql(), "SELECT 1");
        settle(&client).await.unwrap();
        assert_eq!(query(&client, ALL, None).await.unwrap().len(), 1);
    });
}

#[test]
fn turso_an_unsettled_connection_is_an_error_of_preparing() {
    block_on(async {
        let client = with_todos(&["one"]).await;
        let refused: Run<Vec<Todo>> = client
            .settle()
            .settled(Err(turso::Error::Busy(String::from("busy"))))
            .map(|()| Vec::new());
        let error = queried(refused).unwrap_err();
        assert_eq!(error.kind, ErrorKind::Prepare);
        assert!(matches!(error.cause, Cause::Turso(turso::Error::Busy(_))));
        settle(&client).await.unwrap();
        assert_eq!(query(&client, ALL, None).await.unwrap().len(), 1);
    });
}

#[test]
fn turso_a_client_is_made_of_a_connection() {
    block_on(async {
        let database = turso::Builder::new_local(":memory:").build().await.unwrap();
        let connection = database.connect().unwrap();
        connection.execute("CREATE TABLE test_turso (id INTEGER, label TEXT)", ()).await.unwrap();
        let client = Client::from(connection);
        assert!(query(&client, ALL, None).await.unwrap().is_empty());
    });
}
