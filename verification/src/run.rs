//! How a statement is run: its text is prepared, its parameters are handed
//! over, and its rows are fetched one at a time.
//!
//! Each stage of a run is a type of its own. It says what the driver is asked
//! for next, takes the driver's reply, and gives the next stage or the end of
//! the run. A stage makes no call itself.

use vstd::prelude::*;

verus! {

/// Why a run ended early.
#[derive(Debug)]
pub enum Failure<E, X> {
    /// The driver did not prepare the text.
    Prepare(E),
    /// The driver did not run the statement, or did not fetch a row of it.
    Query(E),
    /// A row was fetched and could not be read.
    Row(X),
}

/// The driver's reply to being asked for the next row: the row as it was read,
/// or that no row is left, or a refusal.
pub type Fetch<R, E, X> = Result<Option<Result<R, X>>, E>;

/// A stage goes on to the next one, or ends.
pub enum Step<N, T> {
    More(N),
    Done(T),
}

/// A run whose text is to be prepared on connection `H`. Once it is, its parameters
/// are to be handed over, and stage `N` follows.
pub struct Preparing<H, P, N> {
    over: H,
    text: String,
    params: Vec<P>,
    next: N,
}

/// A run whose statement is to be run for its rows. Stage `N` follows.
pub struct Querying<N> {
    next: N,
}

/// A run that fetches every row.
pub struct Collecting<R> {
    rows: Vec<R>,
}

/// A run that fetches the first row alone, which must be there.
pub struct FetchingOne {}

/// A run that fetches the first row alone, which may be there.
pub struct FetchingOptional {}

/// What a run for a row that must be there has fetched: that row, or none. Only
/// such a run gives one, and what it comes to is for the client to report.
pub struct One<R> {
    row: Option<R>,
}

/// A run whose statement is to be run for its effect.
pub struct Executing {}

/// A run for every row of a statement.
pub type QueryRun<H, P, R> = Preparing<H, P, Querying<Collecting<R>>>;

/// A run for the first row of a statement, which must be there.
pub type OneRun<H, P> = Preparing<H, P, Querying<FetchingOne>>;

/// A run for the first row of a statement, which may be there.
pub type OptionalRun<H, P> = Preparing<H, P, Querying<FetchingOptional>>;

/// A run of a statement for its effect.
pub type ExecuteRun<H, P> = Preparing<H, P, Executing>;

/// The parameters to hand over: none, where none are given.
pub open spec fn params_or_none<P>(params: Option<Vec<P>>) -> Seq<P> {
    match params {
        Some(params) => params@,
        None => Seq::empty(),
    }
}

/// What a run makes of the reply to preparing its text.
pub open spec fn after_prepare<T, E, X>(reply: Result<T, E>) -> Result<T, Failure<E, X>> {
    match reply {
        Ok(statement) => Ok(statement),
        Err(refusal) => Err(Failure::Prepare(refusal)),
    }
}

/// What a run makes of the reply to running its statement.
pub open spec fn after_query<T, E, X>(reply: Result<T, E>) -> Result<T, Failure<E, X>> {
    match reply {
        Ok(answer) => Ok(answer),
        Err(refusal) => Err(Failure::Query(refusal)),
    }
}

/// What a run makes of the reply to fetching one row.
pub open spec fn after_fetch<R, E, X>(reply: Fetch<R, E, X>) -> Result<Option<R>, Failure<E, X>> {
    match reply {
        Ok(Some(Ok(row))) => Ok(Some(row)),
        Ok(Some(Err(unread))) => Err(Failure::Row(unread)),
        Ok(None) => Ok(None),
        Err(refusal) => Err(Failure::Query(refusal)),
    }
}

/// What `reply` makes of the rows fetched so far: a row is added to them, no row
/// ends the run with them, and a failure ends it without.
pub open spec fn collect<R, E, X>(rows: Seq<R>, reply: Fetch<R, E, X>) -> Result<
    Step<Seq<R>, Seq<R>>,
    Failure<E, X>,
> {
    match after_fetch(reply) {
        Ok(Some(row)) => Ok(Step::More(rows.push(row))),
        Ok(None) => Ok(Step::Done(rows)),
        Err(failure) => Err(failure),
    }
}

/// What a run for a row that must be there has fetched, as an optional row.
pub open spec fn fetched_by<R, F>(outcome: Result<One<R>, F>) -> Result<Option<R>, F> {
    match outcome {
        Ok(one) => Ok(one.row()),
        Err(failure) => Err(failure),
    }
}

/// Starts a run for every row of `text`, with nothing fetched yet.
pub fn query_run<H, P, R>(over: H, text: String, params: Option<Vec<P>>) -> (run: QueryRun<H, P, R>)
    ensures
        run.begins(over, text@, params),
        run.following().following().rows() == Seq::<R>::empty(),
{
    Preparing::new(over, text, params, Querying { next: Collecting { rows: Vec::new() } })
}

/// Starts a run for the first row of `text`, which must be there.
pub fn one_run<H, P>(over: H, text: String, params: Option<Vec<P>>) -> (run: OneRun<H, P>)
    ensures
        run.begins(over, text@, params),
{
    Preparing::new(over, text, params, Querying { next: FetchingOne {  } })
}

/// Starts a run for the first row of `text`, which may be there.
pub fn optional_run<H, P>(over: H, text: String, params: Option<Vec<P>>) -> (run: OptionalRun<H, P>)
    ensures
        run.begins(over, text@, params),
{
    Preparing::new(over, text, params, Querying { next: FetchingOptional {  } })
}

/// Starts a run of `text` for its effect.
pub fn execute_run<H, P>(over: H, text: String, params: Option<Vec<P>>) -> (run: ExecuteRun<H, P>)
    ensures
        run.begins(over, text@, params),
{
    Preparing::new(over, text, params, Executing {  })
}

impl<E, X> Failure<E, X> {
    /// The driver's refusal.
    pub open spec fn refused(self) -> E
        recommends
            !(self is Row),
    {
        match self {
            Failure::Prepare(refusal) => refusal,
            Failure::Query(refusal) => refusal,
            Failure::Row(_) => arbitrary(),
        }
    }

    /// Takes the driver's refusal out of a run that no unread row ended.
    pub fn refusal(self) -> (refusal: E)
        requires
            !(self is Row),
        ensures
            refusal == self.refused(),
    {
        match self {
            Failure::Prepare(refusal) => refusal,
            Failure::Query(refusal) => refusal,
            Failure::Row(_) => vstd::pervasive::unreached(),
        }
    }
}

impl<H, P, N> Preparing<H, P, N> {
    /// The connection to prepare the text on.
    pub closed spec fn over(self) -> H {
        self.over
    }

    /// The text to prepare.
    pub closed spec fn text(self) -> Seq<char> {
        self.text@
    }

    /// The parameters to hand over.
    pub closed spec fn params(self) -> Seq<P> {
        self.params@
    }

    /// The stage that follows.
    pub closed spec fn following(self) -> N {
        self.next
    }

    /// The run prepares `text` on connection `over`, then hands over `params`, none if
    /// they are absent.
    pub open spec fn begins(self, over: H, text: Seq<char>, params: Option<Vec<P>>) -> bool {
        &&& self.over() == over
        &&& self.text() == text
        &&& self.params() == params_or_none(params)
    }

    /// A run of `text` on `over` with `params`, none if they are absent.
    fn new(over: H, text: String, params: Option<Vec<P>>, next: N) -> (run: Self)
        ensures
            run.begins(over, text@, params),
            run.following() == next,
    {
        let params = match params {
            Some(params) => params,
            None => Vec::new(),
        };
        Preparing { over, text, params, next }
    }

    /// Asks for the text to be prepared on this connection.
    pub fn connection(&self) -> (over: &H)
        ensures
            *over == self.over(),
    {
        &self.over
    }

    /// Asks for this text to be prepared.
    pub fn sql(&self) -> (sql: &str)
        ensures
            sql@ == self.text(),
    {
        self.text.as_str()
    }

    /// Takes the reply. The statement that the driver prepared is to be run with
    /// the parameters that come with it.
    pub fn prepared<S, E, X>(self, reply: Result<S, E>) -> (after: Result<
        (N, S, Vec<P>),
        Failure<E, X>,
    >)
        ensures
            match after_prepare::<S, E, X>(reply) {
                Ok(statement) => {
                    &&& after matches Ok((next, handed, params))
                    &&& next == self.following()
                    &&& handed == statement
                    &&& params@ == self.params()
                },
                Err(failure) => after == Err::<(N, S, Vec<P>), Failure<E, X>>(failure),
            },
    {
        match reply {
            Ok(statement) => Ok((self.next, statement, self.params)),
            Err(refusal) => Err(Failure::Prepare(refusal)),
        }
    }
}

impl<N> Querying<N> {
    /// The stage that follows.
    pub closed spec fn following(self) -> N {
        self.next
    }

    /// Takes the reply. Rows are to be fetched from the cursor that the driver gave.
    pub fn queried<W, E, X>(self, reply: Result<W, E>) -> (after: Result<(N, W), Failure<E, X>>)
        ensures
            match after_query::<W, E, X>(reply) {
                Ok(cursor) => after == Ok::<(N, W), Failure<E, X>>((self.following(), cursor)),
                Err(failure) => after == Err::<(N, W), Failure<E, X>>(failure),
            },
    {
        match reply {
            Ok(cursor) => Ok((self.next, cursor)),
            Err(refusal) => Err(Failure::Query(refusal)),
        }
    }
}

impl<R> Collecting<R> {
    /// The rows fetched so far.
    pub closed spec fn rows(self) -> Seq<R> {
        self.rows@
    }

    /// Takes the reply to fetching a row. Another is to be fetched unless none was
    /// left, which ends the run with every row that was fetched.
    pub fn fetched<E, X>(self, reply: Fetch<R, E, X>) -> (after: Result<
        Step<Self, Vec<R>>,
        Failure<E, X>,
    >)
        ensures
            match collect(self.rows(), reply) {
                Ok(Step::More(rows)) => after matches Ok(Step::More(run)) && run.rows() == rows,
                Ok(Step::Done(rows)) => after matches Ok(Step::Done(given)) && given@ == rows,
                Err(failure) => after == Err::<Step<Self, Vec<R>>, Failure<E, X>>(failure),
            },
    {
        let mut rows = self.rows;
        match reply {
            Ok(Some(Ok(row))) => {
                rows.push(row);
                Ok(Step::More(Collecting { rows }))
            },
            Ok(Some(Err(unread))) => Err(Failure::Row(unread)),
            Ok(None) => Ok(Step::Done(rows)),
            Err(refusal) => Err(Failure::Query(refusal)),
        }
    }
}

impl<R> One<R> {
    /// The row, if there was one.
    pub closed spec fn row(self) -> Option<R> {
        self.row
    }

    /// Takes the row out, if there was one.
    pub(crate) fn into_row(self) -> (row: Option<R>)
        ensures
            row == self.row(),
    {
        self.row
    }
}

impl FetchingOne {
    /// Takes the reply to fetching a row, which ends the run.
    pub fn fetched<R, E, X>(self, reply: Fetch<R, E, X>) -> (after: Result<One<R>, Failure<E, X>>)
        ensures
            fetched_by(after) == after_fetch(reply),
    {
        match reply {
            Ok(Some(Ok(row))) => Ok(One { row: Some(row) }),
            Ok(Some(Err(unread))) => Err(Failure::Row(unread)),
            Ok(None) => Ok(One { row: None }),
            Err(refusal) => Err(Failure::Query(refusal)),
        }
    }
}

impl FetchingOptional {
    /// Takes the reply to fetching a row, which ends the run.
    pub fn fetched<R, E, X>(self, reply: Fetch<R, E, X>) -> (after: Result<
        Option<R>,
        Failure<E, X>,
    >)
        ensures
            after == after_fetch(reply),
    {
        match reply {
            Ok(Some(Ok(row))) => Ok(Some(row)),
            Ok(Some(Err(unread))) => Err(Failure::Row(unread)),
            Ok(None) => Ok(None),
            Err(refusal) => Err(Failure::Query(refusal)),
        }
    }
}

impl Executing {
    /// Takes the reply to running the statement, which ends the run with the
    /// driver's count of the rows that changed.
    pub fn executed<M, E, X>(self, reply: Result<M, E>) -> (after: Result<M, Failure<E, X>>)
        ensures
            after == after_query::<M, E, X>(reply),
    {
        match reply {
            Ok(changed) => Ok(changed),
            Err(refusal) => Err(Failure::Query(refusal)),
        }
    }
}

} // verus!
