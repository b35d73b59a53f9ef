//! A client for Turso.
//!
//! Each stage of a run is a call of its own here, so a failure is reported by the
//! stage that it came from.

use crate::error;
use crate::error::ErrorKind;
use crate::run;
use crate::run::{ExecuteRun, Failure, One, OneRun, OptionalRun, QueryRun};
use turso::transaction::Transaction as TursoTransaction;
use turso::Connection as TursoConnection;
use turso::Error as TursoRefusal;
use vstd::prelude::*;
use vstd::std_specs::convert::FromSpecImpl;

verus! {

/// Where an in-memory database is opened.
const IN_MEMORY: &'static str = ":memory:";

/// The query that settles a connection.
const SETTLE: &'static str = "SELECT 1";

/// Why an operation failed.
#[derive(Debug)]
pub enum Cause {
    /// Turso refused it.
    Turso(TursoRefusal),
    /// A row was asked for and the query had none.
    QueryReturnedNoRows,
}

/// The type of errors from a `Client`.
pub type Error = error::Error<Cause>;

/// A client on one connection.
#[derive(Debug)]
pub struct Client(TursoConnection);

/// A transaction on a client's connection.
///
/// It rolls back by default when it is dropped. `commit` keeps the changes made
/// in it.
#[derive(Debug)]
pub struct Transaction<'a>(TursoTransaction<'a>);

/// A database that is to be opened.
pub struct Opening<L> {
    location: L,
}

/// A query text that is to be prepared ahead of its use.
pub struct PreparingText<H> {
    over: H,
    text: &'static str,
}

/// A connection that is to be settled: Turso rolls a transaction that was dropped
/// unfinished back when its connection is next queried, and preparing a text is no
/// query. So a connection is queried before a text is prepared on it.
pub struct Settling<'a> {
    connection: &'a TursoConnection,
}

/// A transaction that is to be begun on a connection.
pub struct Beginning<'a> {
    connection: &'a TursoConnection,
}

/// A commit whose outcome is to be reported.
pub struct Committing {}

/// A rollback whose outcome is to be reported.
pub struct RollingBack {}

/// An outcome as the client reports it: a refusal by Turso is an error of kind
/// `kind`.
pub open spec fn reported<T>(outcome: Result<T, TursoRefusal>, kind: ErrorKind) -> Result<
    T,
    Error,
> {
    match outcome {
        Ok(value) => Ok(value),
        Err(refusal) => Err(error::Error { kind, cause: Cause::Turso(refusal) }),
    }
}

/// The outcome of a run as the client reports it: a refusal is an error of the
/// stage that met it, and a row that could not be read keeps its own error.
pub open spec fn run_reported<T>(outcome: Result<T, Failure<TursoRefusal, Error>>) -> Result<
    T,
    Error,
> {
    match outcome {
        Ok(value) => Ok(value),
        Err(Failure::Prepare(refusal)) => Err(
            error::Error { kind: ErrorKind::Prepare, cause: Cause::Turso(refusal) },
        ),
        Err(Failure::Query(refusal)) => Err(
            error::Error { kind: ErrorKind::Query, cause: Cause::Turso(refusal) },
        ),
        Err(Failure::Row(error)) => Err(error),
    }
}

/// The row that must be there: its absence is an error of the query.
pub open spec fn required<R>(first: Result<Option<R>, Error>) -> Result<R, Error> {
    match first {
        Ok(Some(row)) => Ok(row),
        Ok(None) => Err(
            error::Error { kind: ErrorKind::Query, cause: Cause::QueryReturnedNoRows },
        ),
        Err(error) => Err(error),
    }
}

/// Blames a refusal on Turso.
fn caused<T>(outcome: Result<T, TursoRefusal>) -> (blamed: Result<T, Cause>)
    ensures
        blamed == match outcome {
            Ok(value) => Ok::<T, Cause>(value),
            Err(refusal) => Err(Cause::Turso(refusal)),
        },
{
    match outcome {
        Ok(value) => Ok(value),
        Err(refusal) => Err(Cause::Turso(refusal)),
    }
}

/// Reports the outcome of a run.
fn report<T>(outcome: Result<T, Failure<TursoRefusal, Error>>) -> (reported: Result<T, Error>)
    ensures
        reported == run_reported(outcome),
{
    match outcome {
        Ok(value) => Ok(value),
        Err(Failure::Prepare(refusal)) => Err(Error::prepare(Cause::Turso(refusal))),
        Err(Failure::Query(refusal)) => Err(Error::query(Cause::Turso(refusal))),
        Err(Failure::Row(error)) => Err(error),
    }
}

/// Reports a column as Turso read it.
pub fn from_column<T>(column: Result<T, TursoRefusal>) -> (value: Result<T, Error>)
    ensures
        value == match column {
            Ok(read) => Ok::<T, Error>(read),
            Err(refusal) => Err(
                error::Error { kind: ErrorKind::FromColumn, cause: Cause::Turso(refusal) },
            ),
        },
{
    caused(column).map_err(Error::from_column)
}

/// A parameter as Turso converted it. A value that has no conversion is not a
/// parameter.
pub fn to_param<V>(converted: Result<V, TursoRefusal>) -> (param: V)
    requires
        converted is Ok,
    ensures
        converted == Ok::<V, TursoRefusal>(param),
{
    match converted {
        Ok(param) => param,
        Err(_) => vstd::pervasive::unreached(),
    }
}

/// Reports the outcome of a run for every row.
pub fn queried<R>(outcome: Result<Vec<R>, Failure<TursoRefusal, Error>>) -> (rows: Result<
    Vec<R>,
    Error,
>)
    ensures
        rows == run_reported(outcome),
{
    report(outcome)
}

/// Reports the outcome of a run for a row that must be there.
pub fn queried_one<R>(outcome: Result<One<R>, Failure<TursoRefusal, Error>>) -> (row: Result<
    R,
    Error,
>)
    ensures
        row == required(run_reported(run::fetched_by(outcome))),
{
    match report(outcome) {
        Ok(one) => match one.into_row() {
            Some(row) => Ok(row),
            None => Err(Error::query(Cause::QueryReturnedNoRows)),
        },
        Err(error) => Err(error),
    }
}

/// Reports the outcome of a run for a row that may be there.
pub fn queried_opt<R>(outcome: Result<Option<R>, Failure<TursoRefusal, Error>>) -> (row: Result<
    Option<R>,
    Error,
>)
    ensures
        row == run_reported(outcome),
{
    report(outcome)
}

/// Reports the outcome of a run for its effect: how many rows changed.
pub fn executed(outcome: Result<u64, Failure<TursoRefusal, Error>>) -> (changed: Result<u64, Error>)
    ensures
        changed == run_reported(outcome),
{
    report(outcome)
}

impl Clone for Client {
    /// A client on a clone of the connection.
    fn clone(&self) -> (twin: Self)
        ensures
            vstd::pervasive::strictly_cloned(self.connection(), twin.connection()),
    {
        Client(self.0.clone())
    }
}

impl AsMut<TursoConnection> for Client {
    fn as_mut(&mut self) -> (connection: &mut TursoConnection)
        ensures
            *connection == old(self).connection(),
            final(self).connection() == *final(connection),
    {
        &mut self.0
    }
}

impl AsRef<TursoConnection> for Client {
    fn as_ref(&self) -> (connection: &TursoConnection)
        ensures
            *connection == self.connection(),
    {
        &self.0
    }
}

impl FromSpecImpl<TursoConnection> for Client {
    open spec fn obeys_from_spec() -> bool {
        true
    }

    closed spec fn from_spec(inner: TursoConnection) -> Self {
        Client(inner)
    }
}

impl From<TursoConnection> for Client {
    fn from(inner: TursoConnection) -> (client: Self)
        ensures
            client.connection() == inner,
    {
        Client(inner)
    }
}

impl Client {
    /// The connection that the client's statements go through.
    pub closed spec fn connection(self) -> TursoConnection {
        self.0
    }

    /// Asks for the database at `path` to be opened and connected to.
    pub fn open<L>(path: L) -> (opening: Opening<L>)
        ensures
            opening.place() == path,
    {
        Opening { location: path }
    }

    /// Asks for an in-memory database to be opened and connected to.
    pub fn open_in_memory() -> (opening: Opening<&'static str>)
        ensures
            opening.place()@ == ":memory:"@,
    {
        Opening { location: IN_MEMORY }
    }

    /// Asks for this client's connection to be settled, before a text is prepared on
    /// it.
    pub fn settle(&self) -> (settling: Settling<'_>)
        ensures
            settling.over() == self.connection(),
    {
        Settling { connection: &self.0 }
    }

    /// Asks for a query text to be prepared ahead of its use.
    pub fn prepare(&self, text: &'static str) -> (preparing: PreparingText<&TursoConnection>)
        ensures
            *preparing.over() == self.connection(),
            preparing.query_text() == text@,
    {
        PreparingText { over: &self.0, text }
    }

    /// Starts a query for every row, whose outcome `queried` reports.
    pub fn query<P, R>(&self, text: String, params: Option<Vec<P>>) -> (run: QueryRun<
        &TursoConnection,
        P,
        R,
    >)
        ensures
            run.begins(&self.connection(), text@, params),
            run.following().following().rows() == Seq::<R>::empty(),
    {
        run::query_run(&self.0, text, params)
    }

    /// Starts a query for a row that must be there, whose outcome `queried_one`
    /// reports. Rows after the first are not looked at.
    pub fn query_one<P>(&self, text: String, params: Option<Vec<P>>) -> (run: OneRun<
        &TursoConnection,
        P,
    >)
        ensures
            run.begins(&self.connection(), text@, params),
    {
        run::one_run(&self.0, text, params)
    }

    /// Starts a query for a row that may be there, whose outcome `queried_opt`
    /// reports. Rows after the first are not looked at.
    pub fn query_opt<P>(&self, text: String, params: Option<Vec<P>>) -> (run: OptionalRun<
        &TursoConnection,
        P,
    >)
        ensures
            run.begins(&self.connection(), text@, params),
    {
        run::optional_run(&self.0, text, params)
    }

    /// Starts a statement (an insert, update or delete), whose outcome `executed`
    /// reports.
    pub fn execute<P>(&self, text: String, params: Option<Vec<P>>) -> (run: ExecuteRun<
        &TursoConnection,
        P,
    >)
        ensures
            run.begins(&self.connection(), text@, params),
    {
        run::execute_run(&self.0, text, params)
    }

    /// Asks for a transaction to be begun on this client's connection.
    pub fn transaction(&self) -> (beginning: Beginning<'_>)
        ensures
            beginning.over() == self.connection(),
    {
        Beginning { connection: &self.0 }
    }
}

impl<L> Opening<L> {
    /// Where the database is.
    pub closed spec fn place(self) -> L {
        self.location
    }

    /// Where the database to open is.
    pub fn location(&self) -> (location: &L)
        ensures
            *location == self.place(),
    {
        &self.location
    }

    /// Takes the reply to building the database. It is to be connected to only if it
    /// was built.
    pub fn built<D>(self, reply: Result<D, TursoRefusal>) -> (after: Result<(Self, D), Error>)
        ensures
            match reported(reply, ErrorKind::Connect) {
                Ok(database) => after == Ok::<(Self, D), Error>((self, database)),
                Err(error) => after == Err::<(Self, D), Error>(error),
            },
    {
        match caused(reply) {
            Ok(database) => Ok((self, database)),
            Err(cause) => Err(Error::connect(cause)),
        }
    }

    /// Takes the outcome of connecting and makes a client of the connection.
    pub fn opened(self, outcome: Result<TursoConnection, TursoRefusal>) -> (client: Result<
        Client,
        Error,
    >)
        ensures
            match reported(outcome, ErrorKind::Connect) {
                Ok(connection) => client matches Ok(made) && made.connection() == connection,
                Err(error) => client == Err::<Client, Error>(error),
            },
    {
        match caused(outcome) {
            Ok(connection) => Ok(Client(connection)),
            Err(cause) => Err(Error::connect(cause)),
        }
    }
}

impl<H> PreparingText<H> {
    /// The connection to prepare the text on.
    pub closed spec fn over(self) -> H {
        self.over
    }

    /// The connection to prepare the text on.
    pub fn connection(&self) -> (over: &H)
        ensures
            *over == self.over(),
    {
        &self.over
    }

    /// The query text.
    pub closed spec fn query_text(self) -> Seq<char> {
        self.text@
    }

    /// The text to prepare.
    pub fn sql(&self) -> (sql: &'static str)
        ensures
            sql@ == self.query_text(),
    {
        self.text
    }

    /// Takes the outcome and reports it.
    pub fn prepared(self, outcome: Result<(), TursoRefusal>) -> (prepared: Result<(), Error>)
        ensures
            prepared == reported(outcome, ErrorKind::Prepare),
    {
        caused(outcome).map_err(Error::prepare)
    }
}

impl<'a> Settling<'a> {
    /// The connection to settle.
    pub closed spec fn over(self) -> TursoConnection {
        *self.connection
    }

    /// The connection to query.
    pub fn connection(&self) -> (connection: &'a TursoConnection)
        ensures
            *connection == self.over(),
    {
        self.connection
    }

    /// The query to run on it, whose rows do not matter.
    pub fn sql(&self) -> (sql: &'static str)
        ensures
            sql@ == "SELECT 1"@,
    {
        SETTLE
    }

    /// Takes the reply. A refusal ends the run that was to follow, as a refusal to
    /// prepare its text would.
    pub fn settled<X>(self, reply: Result<(), TursoRefusal>) -> (after: Result<
        (),
        Failure<TursoRefusal, X>,
    >)
        ensures
            after == run::after_prepare::<(), TursoRefusal, X>(reply),
    {
        match reply {
            Ok(_) => Ok(()),
            Err(refusal) => Err(Failure::Prepare(refusal)),
        }
    }
}

impl<'a> Beginning<'a> {
    /// The connection to begin the transaction on.
    pub closed spec fn over(self) -> TursoConnection {
        *self.connection
    }

    /// The connection to begin the transaction on.
    pub fn connection(&self) -> (connection: &'a TursoConnection)
        ensures
            *connection == self.over(),
    {
        self.connection
    }

    /// Takes the outcome and makes a transaction of it.
    pub fn begun(self, outcome: Result<TursoTransaction<'a>, TursoRefusal>) -> (begun: Result<
        Transaction<'a>,
        Error,
    >)
        ensures
            match reported(outcome, ErrorKind::Transaction) {
                Ok(inner) => begun matches Ok(made) && made.inner() == inner,
                Err(error) => begun == Err::<Transaction<'a>, Error>(error),
            },
    {
        match caused(outcome) {
            Ok(inner) => Ok(Transaction(inner)),
            Err(cause) => Err(Error::transaction(cause)),
        }
    }
}

impl<'a> AsMut<TursoTransaction<'a>> for Transaction<'a> {
    fn as_mut(&mut self) -> (inner: &mut TursoTransaction<'a>)
        ensures
            *inner == old(self).inner(),
            final(self).inner() == *final(inner),
    {
        &mut self.0
    }
}

impl<'a> AsRef<TursoTransaction<'a>> for Transaction<'a> {
    fn as_ref(&self) -> (inner: &TursoTransaction<'a>)
        ensures
            *inner == self.inner(),
    {
        &self.0
    }
}

impl<'a> Transaction<'a> {
    /// Turso's own transaction.
    pub closed spec fn inner(self) -> TursoTransaction<'a> {
        self.0
    }

    /// Gives up Turso's own transaction, for all changes made within it to be
    /// committed.
    pub fn commit(self) -> (asked: (TursoTransaction<'a>, Committing))
        ensures
            asked.0 == self.inner(),
    {
        (self.0, Committing {  })
    }

    /// Gives up Turso's own transaction, to be rolled back, which discards all changes
    /// made within it.
    pub fn rollback(self) -> (asked: (TursoTransaction<'a>, RollingBack))
        ensures
            asked.0 == self.inner(),
    {
        (self.0, RollingBack {  })
    }

    /// Asks for a query text to be prepared ahead of its use.
    pub fn prepare(&self, text: &'static str) -> (preparing: PreparingText<&TursoTransaction<'a>>)
        ensures
            *preparing.over() == self.inner(),
            preparing.query_text() == text@,
    {
        PreparingText { over: &self.0, text }
    }

    /// Starts a query for every row, whose outcome `queried` reports.
    pub fn query<P, R>(&self, text: String, params: Option<Vec<P>>) -> (run: QueryRun<
        &TursoTransaction<'a>,
        P,
        R,
    >)
        ensures
            run.begins(&self.inner(), text@, params),
            run.following().following().rows() == Seq::<R>::empty(),
    {
        run::query_run(&self.0, text, params)
    }

    /// Starts a query for a row that must be there, whose outcome `queried_one`
    /// reports. Rows after the first are not looked at.
    pub fn query_one<P>(&self, text: String, params: Option<Vec<P>>) -> (run: OneRun<
        &TursoTransaction<'a>,
        P,
    >)
        ensures
            run.begins(&self.inner(), text@, params),
    {
        run::one_run(&self.0, text, params)
    }

    /// Starts a query for a row that may be there, whose outcome `queried_opt`
    /// reports. Rows after the first are not looked at. The parameters must be
    /// given here, though there may be none of them.
    pub fn query_opt<P>(&self, text: String, params: Option<Vec<P>>) -> (run: OptionalRun<
        &TursoTransaction<'a>,
        P,
    >)
        requires
            params is Some,
        ensures
            run.begins(&self.inner(), text@, params),
    {
        run::optional_run(&self.0, text, params)
    }

    /// Starts a statement (an insert, update or delete), whose outcome `executed`
    /// reports.
    pub fn execute<P>(&self, text: String, params: Option<Vec<P>>) -> (run: ExecuteRun<
        &TursoTransaction<'a>,
        P,
    >)
        ensures
            run.begins(&self.inner(), text@, params),
    {
        run::execute_run(&self.0, text, params)
    }
}

impl Committing {
    /// Takes the outcome and reports it.
    pub fn answered(self, outcome: Result<(), TursoRefusal>) -> (committed: Result<(), Error>)
        ensures
            committed == reported(outcome, ErrorKind::Transaction),
    {
        caused(outcome).map_err(Error::transaction)
    }
}

impl RollingBack {
    /// Takes the outcome and reports it.
    pub fn answered(self, outcome: Result<(), TursoRefusal>) -> (discarded: Result<(), Error>)
        ensures
            discarded == reported(outcome, ErrorKind::Transaction),
    {
        caused(outcome).map_err(Error::transaction)
    }
}

} // verus!
