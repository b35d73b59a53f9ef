//! A client for SQLite on a background connection.
//!
//! A statement is run by a function that the background connection executes: an
//! operation names the connection to send that function to and the goal that it runs
//! for, and fails in one place, when the function's outcome comes back.

use crate::error;
use crate::error::ErrorKind;
use crate::run;
use crate::run::{ExecuteRun, One, OneRun, OptionalRun, QueryRun};
use async_sqlite::Client as SqliteHandle;
use async_sqlite::Error as SqliteRefusal;
use rusqlite::Error as RusqliteRefusal;
use vstd::prelude::*;
use vstd::std_specs::convert::FromSpecImpl;

verus! {

/// Where an in-memory database is opened.
const IN_MEMORY: &'static str = ":memory:";

/// The statement that begins a transaction.
const BEGIN: &'static str = "BEGIN";

/// The statement that commits a transaction.
const COMMIT: &'static str = "COMMIT";

/// The statement that rolls a transaction back.
const ROLLBACK: &'static str = "ROLLBACK";

/// Why an operation failed.
#[derive(Debug)]
pub enum Cause {
    /// The background connection refused it.
    Handle(SqliteRefusal),
    /// SQLite refused it.
    Rusqlite(RusqliteRefusal),
    /// A row was asked for and the query had none.
    QueryReturnedNoRows,
}

/// The type of errors from a `Client`.
pub type Error = error::Error<Cause>;

/// A client, which runs its statements on one background connection.
pub struct Client(SqliteHandle);

/// A transaction on a client's connection. It is a plain `BEGIN`, with a `COMMIT`
/// or a `ROLLBACK` sent on demand, and relies on the client being a single
/// connection for statements between them to belong to it.
pub struct Transaction {
    client: SqliteHandle,
    finished: bool,
}

/// A database that is to be opened.
pub struct Opening<L> {
    location: L,
}

/// A query text that is to be prepared ahead of its use.
pub struct PreparingText {
    client: SqliteHandle,
    text: &'static str,
}

/// An operation on a background connection, with what it runs a statement for.
pub struct Operation<G> {
    client: SqliteHandle,
    goal: G,
}

/// A statement is run for every row.
#[derive(Clone, Copy)]
pub struct EveryRow {}

/// A statement is run for its first row, which must be there.
#[derive(Clone, Copy)]
pub struct OneRow {}

/// A statement is run for its first row, which may be there.
#[derive(Clone, Copy)]
pub struct OptionalRow {}

/// A statement is run for its effect.
#[derive(Clone, Copy)]
pub struct Effect {}

/// A transaction that is to be begun.
pub struct Beginning {
    client: SqliteHandle,
}

/// A statement that is to be sent to end a transaction.
pub struct Command {
    client: SqliteHandle,
    text: &'static str,
}

/// What ending a transaction comes to: a statement to send, or nothing more.
pub enum Control {
    Send(Command),
    Return(Result<(), Error>),
}

/// An outcome as the client reports it: a refusal by the background connection is
/// an error of kind `kind`.
pub open spec fn reported<T>(outcome: Result<T, SqliteRefusal>, kind: ErrorKind) -> Result<
    T,
    Error,
> {
    match outcome {
        Ok(value) => Ok(value),
        Err(refusal) => Err(error::Error { kind, cause: Cause::Handle(refusal) }),
    }
}

/// The row that must be there: its absence is an error of the query.
pub open spec fn required<R>(first: Result<Option<R>, Error>) -> Result<R, Error> {
    match first {
        Ok(Some(row)) => Ok(row),
        Ok(None) => Err(
            error::Error { kind: ErrorKind::Query, cause: Cause::QueryReturnedNoRows },
        ),
        Err(error) => Err(error),
    }
}

/// Ending a transaction takes a statement unless one has ended it before.
pub open spec fn sends(finished: bool) -> bool {
    !finished
}

/// A transaction is finished by the first statement to end it that succeeds, and
/// stays so.
pub open spec fn finished_by(finished: bool, succeeded: bool) -> bool {
    finished || succeeded
}

/// The statement that ends a transaction: by committing it, or by rolling it back.
pub open spec fn ending(commits: bool) -> Seq<char> {
    if commits {
        "COMMIT"@
    } else {
        "ROLLBACK"@
    }
}

/// What ending a transaction comes to: the statement that does it, sent over the
/// transaction's own connection, unless the transaction was finished before.
pub open spec fn ends(transaction: Transaction, commits: bool, control: Control) -> bool {
    if sends(transaction.is_finished()) {
        &&& control matches Control::Send(command)
        &&& command.handle() == transaction.handle()
        &&& command.text() == ending(commits)
    } else {
        control == Control::Return(Ok(()))
    }
}

/// Blames a refusal on the background connection.
fn caused<T>(outcome: Result<T, SqliteRefusal>) -> (blamed: Result<T, Cause>)
    ensures
        blamed == match outcome {
            Ok(value) => Ok::<T, Cause>(value),
            Err(refusal) => Err(Cause::Handle(refusal)),
        },
{
    match outcome {
        Ok(value) => Ok(value),
        Err(refusal) => Err(Cause::Handle(refusal)),
    }
}

/// Reports a column as SQLite read it.
pub fn from_column<T>(column: Result<T, RusqliteRefusal>) -> (value: Result<T, Error>)
    ensures
        value == match column {
            Ok(read) => Ok::<T, Error>(read),
            Err(refusal) => Err(
                error::Error { kind: ErrorKind::FromColumn, cause: Cause::Rusqlite(refusal) },
            ),
        },
{
    match column {
        Ok(read) => Ok(read),
        Err(refusal) => Err(Error::from_column(Cause::Rusqlite(refusal))),
    }
}

impl Clone for Client {
    /// A client on the same connection.
    fn clone(&self) -> (twin: Self)
        ensures
            twin == *self,
    {
        Client(self.0.clone())
    }
}

impl AsMut<SqliteHandle> for Client {
    fn as_mut(&mut self) -> (handle: &mut SqliteHandle)
        ensures
            *handle == old(self).handle(),
            final(self).handle() == *final(handle),
    {
        &mut self.0
    }
}

impl AsRef<SqliteHandle> for Client {
    fn as_ref(&self) -> (handle: &SqliteHandle)
        ensures
            *handle == self.handle(),
    {
        &self.0
    }
}

impl FromSpecImpl<SqliteHandle> for Client {
    open spec fn obeys_from_spec() -> bool {
        true
    }

    closed spec fn from_spec(inner: SqliteHandle) -> Self {
        Client(inner)
    }
}

impl From<SqliteHandle> for Client {
    fn from(inner: SqliteHandle) -> (client: Self)
        ensures
            client.handle() == inner,
    {
        Client(inner)
    }
}

impl Client {
    /// The handle on the background connection.
    pub closed spec fn handle(self) -> SqliteHandle {
        self.0
    }

    /// Asks for the database at `path` to be opened.
    pub fn open<L>(path: L) -> (opening: Opening<L>)
        ensures
            opening.place() == path,
    {
        Opening { location: path }
    }

    /// Asks for an in-memory database to be opened.
    pub fn open_in_memory() -> (opening: Opening<&'static str>)
        ensures
            opening.place()@ == ":memory:"@,
    {
        Opening { location: IN_MEMORY }
    }

    /// Asks for a query text to be prepared ahead of its use.
    pub fn prepare(&mut self, text: &'static str) -> (preparing: PreparingText)
        ensures
            *final(self) == *old(self),
            preparing.handle() == old(self).handle(),
            preparing.query_text() == text@,
    {
        PreparingText { client: self.0.clone(), text }
    }

    /// Starts a query for every row.
    pub fn query(&mut self) -> (operation: Operation<EveryRow>)
        ensures
            *final(self) == *old(self),
            operation.handle() == old(self).handle(),
    {
        Operation { client: self.0.clone(), goal: EveryRow {  } }
    }

    /// Starts a query for a row that must be there. Rows after the first are not
    /// looked at.
    pub fn query_one(&mut self) -> (operation: Operation<OneRow>)
        ensures
            *final(self) == *old(self),
            operation.handle() == old(self).handle(),
    {
        Operation { client: self.0.clone(), goal: OneRow {  } }
    }

    /// Starts a query for a row that may be there. Rows after the first are not
    /// looked at.
    pub fn query_opt(&mut self) -> (operation: Operation<OptionalRow>)
        ensures
            *final(self) == *old(self),
            operation.handle() == old(self).handle(),
    {
        Operation { client: self.0.clone(), goal: OptionalRow {  } }
    }

    /// Starts a statement (an insert, update or delete).
    pub fn execute(&mut self) -> (operation: Operation<Effect>)
        ensures
            *final(self) == *old(self),
            operation.handle() == old(self).handle(),
    {
        Operation { client: self.0.clone(), goal: Effect {  } }
    }

    /// Asks for a transaction to be begun on this client's connection.
    pub fn transaction(&mut self) -> (beginning: Beginning)
        ensures
            *final(self) == *old(self),
            beginning.handle() == old(self).handle(),
    {
        Beginning { client: self.0.clone() }
    }
}

impl<L> Opening<L> {
    /// Where the database is.
    pub closed spec fn place(self) -> L {
        self.location
    }

    /// Where the database to open is.
    pub fn location(&self) -> (location: &L)
        ensures
            *location == self.place(),
    {
        &self.location
    }

    /// Takes the outcome and makes a client of the handle.
    pub fn opened(self, outcome: Result<SqliteHandle, SqliteRefusal>) -> (client: Result<
        Client,
        Error,
    >)
        ensures
            match reported(outcome, ErrorKind::Connect) {
                Ok(handle) => client matches Ok(made) && made.handle() == handle,
                Err(error) => client == Err::<Client, Error>(error),
            },
    {
        match caused(outcome) {
            Ok(handle) => Ok(Client(handle)),
            Err(cause) => Err(Error::connect(cause)),
        }
    }
}

impl PreparingText {
    /// The handle on the background connection.
    pub closed spec fn handle(self) -> SqliteHandle {
        self.client
    }

    /// The handle to send the text through.
    pub fn client(&self) -> (handle: &SqliteHandle)
        ensures
            *handle == self.handle(),
    {
        &self.client
    }

    /// The query text.
    pub closed spec fn query_text(self) -> Seq<char> {
        self.text@
    }

    /// The text to prepare.
    pub fn sql(&self) -> (sql: &'static str)
        ensures
            sql@ == self.query_text(),
    {
        self.text
    }

    /// Takes the outcome and reports it.
    pub fn prepared(self, outcome: Result<(), SqliteRefusal>) -> (prepared: Result<(), Error>)
        ensures
            prepared == reported(outcome, ErrorKind::Prepare),
    {
        caused(outcome).map_err(Error::prepare)
    }
}

impl<G: Copy> Operation<G> {
    /// The handle on the background connection.
    pub closed spec fn handle(self) -> SqliteHandle {
        self.client
    }

    /// The handle to send the function that runs the statement through.
    pub fn client(&self) -> (handle: &SqliteHandle)
        ensures
            *handle == self.handle(),
    {
        &self.client
    }

    /// What the statement is run for.
    pub closed spec fn purpose(self) -> G {
        self.goal
    }

    /// What the statement is to be run for.
    pub fn goal(&self) -> (goal: G)
        ensures
            goal == self.purpose(),
    {
        self.goal
    }
}

impl EveryRow {
    /// The run, on the connection that executes it.
    pub fn run<H, P, R>(self, over: H, text: String, params: Option<Vec<P>>) -> (run: QueryRun<
        H,
        P,
        R,
    >)
        ensures
            run.begins(over, text@, params),
            run.following().following().rows() == Seq::<R>::empty(),
    {
        run::query_run(over, text, params)
    }
}

impl OneRow {
    /// The run, on the connection that executes it.
    pub fn run<H, P>(self, over: H, text: String, params: Option<Vec<P>>) -> (run: OneRun<H, P>)
        ensures
            run.begins(over, text@, params),
    {
        run::one_run(over, text, params)
    }
}

impl OptionalRow {
    /// The run, on the connection that executes it.
    pub fn run<H, P>(self, over: H, text: String, params: Option<Vec<P>>) -> (run: OptionalRun<
        H,
        P,
    >)
        ensures
            run.begins(over, text@, params),
    {
        run::optional_run(over, text, params)
    }
}

impl Effect {
    /// The run, on the connection that executes it.
    pub fn run<H, P>(self, over: H, text: String, params: Option<Vec<P>>) -> (run: ExecuteRun<H, P>)
        ensures
            run.begins(over, text@, params),
    {
        run::execute_run(over, text, params)
    }
}

impl Operation<EveryRow> {
    /// Takes the outcome and reports the rows.
    pub fn answered<R>(self, outcome: Result<Vec<R>, SqliteRefusal>) -> (rows: Result<
        Vec<R>,
        Error,
    >)
        ensures
            rows == reported(outcome, ErrorKind::Query),
    {
        caused(outcome).map_err(Error::query)
    }
}

impl Operation<OneRow> {
    /// Takes the outcome and reports the row, whose absence is an error.
    pub fn answered<R>(self, outcome: Result<One<R>, SqliteRefusal>) -> (row: Result<R, Error>)
        ensures
            row == required(reported(run::fetched_by(outcome), ErrorKind::Query)),
    {
        match caused(outcome) {
            Ok(one) => match one.into_row() {
                Some(row) => Ok(row),
                None => Err(Error::query(Cause::QueryReturnedNoRows)),
            },
            Err(cause) => Err(Error::query(cause)),
        }
    }
}

impl Operation<OptionalRow> {
    /// Takes the outcome and reports the row or its absence.
    pub fn answered<R>(self, outcome: Result<Option<R>, SqliteRefusal>) -> (row: Result<
        Option<R>,
        Error,
    >)
        ensures
            row == reported(outcome, ErrorKind::Query),
    {
        caused(outcome).map_err(Error::query)
    }
}

impl Operation<Effect> {
    /// Takes the outcome and reports how many rows changed.
    pub fn answered(self, outcome: Result<usize, SqliteRefusal>) -> (changed: Result<u64, Error>)
        ensures
            match reported(outcome, ErrorKind::Query) {
                Ok(count) => changed matches Ok(rows) && rows == count,
                Err(error) => changed == Err::<u64, Error>(error),
            },
    {
        match caused(outcome) {
            Ok(count) => Ok(count as u64),
            Err(cause) => Err(Error::query(cause)),
        }
    }
}

impl Command {
    /// The handle on the background connection.
    pub closed spec fn handle(self) -> SqliteHandle {
        self.client
    }

    /// The handle to send the statement through.
    pub fn client(&self) -> (handle: &SqliteHandle)
        ensures
            *handle == self.handle(),
    {
        &self.client
    }

    /// The statement.
    pub closed spec fn text(self) -> Seq<char> {
        self.text@
    }

    /// The statement to send.
    pub fn sql(&self) -> (sql: &'static str)
        ensures
            sql@ == self.text(),
    {
        self.text
    }
}

impl Beginning {
    /// The handle on the background connection.
    pub closed spec fn handle(self) -> SqliteHandle {
        self.client
    }

    /// The handle to send the statement through.
    pub fn client(&self) -> (handle: &SqliteHandle)
        ensures
            *handle == self.handle(),
    {
        &self.client
    }

    /// The statement to send.
    pub fn sql(&self) -> (sql: &'static str)
        ensures
            sql@ == "BEGIN"@,
    {
        BEGIN
    }

    /// Takes the outcome and makes a transaction, still open.
    pub fn begun(self, outcome: Result<(), SqliteRefusal>) -> (transaction: Result<
        Transaction,
        Error,
    >)
        ensures
            match reported(outcome, ErrorKind::Transaction) {
                Ok(_) => {
                    &&& transaction matches Ok(made)
                    &&& made.handle() == self.handle()
                    &&& !made.is_finished()
                },
                Err(error) => transaction == Err::<Transaction, Error>(error),
            },
    {
        match caused(outcome) {
            Ok(_) => Ok(Transaction { client: self.client, finished: false }),
            Err(cause) => Err(Error::transaction(cause)),
        }
    }
}

impl Clone for Transaction {
    /// The same transaction on the same connection. Each of the two keeps its own
    /// record of whether it was finished.
    fn clone(&self) -> (twin: Self)
        ensures
            twin == *self,
    {
        Transaction { client: self.client.clone(), finished: self.finished }
    }
}

impl Transaction {
    /// The handle on the background connection.
    pub closed spec fn handle(self) -> SqliteHandle {
        self.client
    }

    /// The transaction was committed or rolled back.
    pub closed spec fn is_finished(self) -> bool {
        self.finished
    }

    /// Asks for the transaction to be committed, unless it was finished before.
    /// `finish` takes the outcome.
    pub fn commit(&self) -> (control: Control)
        ensures
            ends(*self, true, control),
    {
        if self.finished {
            return Control::Return(Ok(()));
        }
        Control::Send(Command { client: self.client.clone(), text: COMMIT })
    }

    /// Asks for the transaction to be rolled back, unless it was finished before.
    /// `finish` takes the outcome.
    pub fn rollback(&self) -> (control: Control)
        ensures
            ends(*self, false, control),
    {
        if self.finished {
            return Control::Return(Ok(()));
        }
        Control::Send(Command { client: self.client.clone(), text: ROLLBACK })
    }

    /// Takes the outcome of a `COMMIT` or a `ROLLBACK`. A refusal leaves the
    /// transaction as it was.
    pub fn finish(&mut self, outcome: Result<(), SqliteRefusal>) -> (finished: Result<(), Error>)
        ensures
            finished == reported(outcome, ErrorKind::Transaction),
            final(self).handle() == old(self).handle(),
            final(self).is_finished() == finished_by(old(self).is_finished(), outcome is Ok),
    {
        match caused(outcome) {
            Ok(_) => {
                self.finished = true;
                Ok(())
            },
            Err(cause) => Err(Error::transaction(cause)),
        }
    }

    /// Asks for a query text to be prepared ahead of its use.
    pub fn prepare(&mut self, text: &'static str) -> (preparing: PreparingText)
        ensures
            *final(self) == *old(self),
            preparing.handle() == old(self).handle(),
            preparing.query_text() == text@,
    {
        PreparingText { client: self.client.clone(), text }
    }

    /// Starts a query for every row.
    pub fn query(&mut self) -> (operation: Operation<EveryRow>)
        ensures
            *final(self) == *old(self),
            operation.handle() == old(self).handle(),
    {
        Operation { client: self.client.clone(), goal: EveryRow {  } }
    }

    /// Starts a query for a row that must be there. Rows after the first are not
    /// looked at.
    pub fn query_one(&mut self) -> (operation: Operation<OneRow>)
        ensures
            *final(self) == *old(self),
            operation.handle() == old(self).handle(),
    {
        Operation { client: self.client.clone(), goal: OneRow {  } }
    }

    /// Starts a query for a row that may be there. Rows after the first are not
    /// looked at.
    pub fn query_opt(&mut self) -> (operation: Operation<OptionalRow>)
        ensures
            *final(self) == *old(self),
            operation.handle() == old(self).handle(),
    {
        Operation { client: self.client.clone(), goal: OptionalRow {  } }
    }

    /// Starts a statement (an insert, update or delete).
    pub fn execute(&mut self) -> (operation: Operation<Effect>)
        ensures
            *final(self) == *old(self),
            operation.handle() == old(self).handle(),
    {
        Operation { client: self.client.clone(), goal: Effect {  } }
    }
}

} // verus!
