//! What holds of whole runs and of whole transactions: the stages put together,
//! for every way in which a driver can reply.

use crate::error;
use crate::error::ErrorKind;
use crate::run;
use crate::run::{Failure, Fetch, Preparing, Step};
use crate::sqlite;
use crate::turso_db;
use async_sqlite::Error as SqliteRefusal;
use rusqlite::Error as RusqliteRefusal;
use turso::Error as TursoRefusal;
use vstd::prelude::*;

verus! {

/// What a run that has fetched `rows` comes to when fetching goes on with
/// `fetches`: `None` while it still asks for more.
pub open spec fn collected<R, E, X>(rows: Seq<R>, fetches: Seq<Fetch<R, E, X>>) -> Option<
    Result<Seq<R>, Failure<E, X>>,
>
    decreases fetches.len(),
{
    if fetches.len() == 0 {
        None
    } else {
        match run::collect(rows, fetches.first()) {
            Ok(Step::More(more)) => collected(more, fetches.drop_first()),
            Ok(Step::Done(all)) => Some(Ok(all)),
            Err(failure) => Some(Err(failure)),
        }
    }
}

/// What a run for every row comes to, from the replies to its stages.
pub open spec fn query_outcome<S, W, R, E, X>(
    prepared: Result<S, E>,
    queried: Result<W, E>,
    fetches: Seq<Fetch<R, E, X>>,
) -> Option<Result<Seq<R>, Failure<E, X>>> {
    match run::after_prepare::<S, E, X>(prepared) {
        Ok(_) => match run::after_query::<W, E, X>(queried) {
            Ok(_) => collected(Seq::empty(), fetches),
            Err(failure) => Some(Err(failure)),
        },
        Err(failure) => Some(Err(failure)),
    }
}

/// What a run for the first row comes to, from the replies to its stages.
pub open spec fn first_outcome<S, W, R, E, X>(
    prepared: Result<S, E>,
    queried: Result<W, E>,
    fetch: Fetch<R, E, X>,
) -> Result<Option<R>, Failure<E, X>> {
    match run::after_prepare::<S, E, X>(prepared) {
        Ok(_) => match run::after_query::<W, E, X>(queried) {
            Ok(_) => run::after_fetch(fetch),
            Err(failure) => Err(failure),
        },
        Err(failure) => Err(failure),
    }
}

/// What a run for its effect comes to, from the replies to its stages.
pub open spec fn execute_outcome<S, M, E, X>(
    prepared: Result<S, E>,
    executed: Result<M, E>,
) -> Result<M, Failure<E, X>> {
    match run::after_prepare::<S, E, X>(prepared) {
        Ok(_) => run::after_query(executed),
        Err(failure) => Err(failure),
    }
}

/// What a run comes to whose connection is settled first, from the reply to that and
/// from what the run would come to.
pub open spec fn settled_run<T>(
    settled: Result<(), TursoRefusal>,
    outcome: Result<T, Failure<TursoRefusal, turso_db::Error>>,
) -> Result<T, Failure<TursoRefusal, turso_db::Error>> {
    match run::after_prepare::<(), TursoRefusal, turso_db::Error>(settled) {
        Ok(_) => outcome,
        Err(failure) => Err(failure),
    }
}

/// The run fails with `refusal` from its driver.
pub open spec fn refuses<T, E, X>(outcome: Result<T, Failure<E, X>>, refusal: E) -> bool {
    outcome matches Err(failure) && !(failure is Row) && failure.refused() == refusal
}

/// The replies that give `rows` one by one.
pub open spec fn giving<R, E, X>(rows: Seq<R>) -> Seq<Fetch<R, E, X>> {
    Seq::new(rows.len(), |i: int| Ok(Some(Ok(rows[i]))))
}

/// Fetching `rows` adds them, in order, to what was fetched before.
proof fn lemma_collected_after_rows<R, E, X>(
    before: Seq<R>,
    rows: Seq<R>,
    rest: Seq<Fetch<R, E, X>>,
)
    ensures
        collected(before, giving::<R, E, X>(rows) + rest) == collected(before + rows, rest),
    decreases rows.len(),
{
    let fetches = giving::<R, E, X>(rows) + rest;
    if rows.len() == 0 {
        assert(fetches =~= rest);
        assert(before + rows =~= before);
    } else {
        let row = rows.first();
        assert(fetches.first() == Ok::<Option<Result<R, X>>, E>(Some(Ok(row))));
        assert(fetches.drop_first() =~= giving::<R, E, X>(rows.drop_first()) + rest);
        assert(before.push(row) + rows.drop_first() =~= before + rows);
        lemma_collected_after_rows(before.push(row), rows.drop_first(), rest);
    }
}

/// A query returns every row that the driver gave, each once and in order, as soon
/// as the driver says that none is left.
pub proof fn query_returns_every_row<S, W, R, E, X>(
    statement: S,
    cursor: W,
    rows: Seq<R>,
    rest: Seq<Fetch<R, E, X>>,
)
    ensures
        query_outcome(
            Ok::<S, E>(statement),
            Ok::<W, E>(cursor),
            giving::<R, E, X>(rows) + seq![Ok(None)] + rest,
        ) == Some(Ok::<Seq<R>, Failure<E, X>>(rows)),
{
    let end: Seq<Fetch<R, E, X>> = seq![Ok(None)] + rest;
    assert(giving::<R, E, X>(rows) + seq![Ok(None)] + rest =~= giving::<R, E, X>(rows) + end);
    lemma_collected_after_rows(Seq::empty(), rows, end);
    assert(Seq::empty() + rows =~= rows);
    assert(end.first() == Ok::<Option<Result<R, X>>, E>(None));
}

/// A query fails with the first failure of a fetch, whatever rows came before it,
/// and gives none of them.
pub proof fn query_fails_with_the_first_failure<S, W, R, E, X>(
    statement: S,
    cursor: W,
    rows: Seq<R>,
    failing: Fetch<R, E, X>,
    rest: Seq<Fetch<R, E, X>>,
)
    requires
        run::after_fetch(failing) is Err,
    ensures
        query_outcome(
            Ok::<S, E>(statement),
            Ok::<W, E>(cursor),
            giving::<R, E, X>(rows) + seq![failing] + rest,
        ) == Some(Err::<Seq<R>, Failure<E, X>>(run::after_fetch(failing)->Err_0)),
{
    let end: Seq<Fetch<R, E, X>> = seq![failing] + rest;
    assert(giving::<R, E, X>(rows) + seq![failing] + rest =~= giving::<R, E, X>(rows) + end);
    lemma_collected_after_rows(Seq::empty(), rows, end);
    assert(end.first() == failing);
}

/// What rows a run ends with tells what its driver replied.
proof fn lemma_collected_only_rows<R, E, X>(
    before: Seq<R>,
    fetches: Seq<Fetch<R, E, X>>,
    all: Seq<R>,
) -> (rows: Seq<R>)
    requires
        collected(before, fetches) == Some(Ok::<Seq<R>, Failure<E, X>>(all)),
    ensures
        all == before + rows,
        fetches.len() > rows.len(),
        fetches.take(rows.len() as int + 1) == giving::<R, E, X>(rows).push(Ok(None)),
    decreases fetches.len(),
{
    let reply = fetches.first();
    match run::after_fetch(reply) {
        Ok(Some(row)) => {
            let later = lemma_collected_only_rows(before.push(row), fetches.drop_first(), all);
            let rows = seq![row] + later;
            assert(all =~= before + rows);
            let given = giving::<R, E, X>(rows).push(Ok(None));
            let taken = fetches.drop_first().take(later.len() as int + 1);
            assert forall|i: int| 0 <= i < rows.len() + 1 implies fetches[i] == given[i] by {
                if i > 0 {
                    assert(fetches[i] == taken[i - 1]);
                    assert(taken[i - 1] == giving::<R, E, X>(later).push(Ok(None))[i - 1]);
                }
            }
            assert(fetches.take(rows.len() as int + 1) =~= given);
            rows
        },
        _ => {
            let rows = Seq::<R>::empty();
            assert(all =~= before + rows);
            assert(fetches.take(1) =~= giving::<R, E, X>(rows).push(Ok(None)));
            rows
        },
    }
}

/// A query that returns `rows` was given those rows and then told that none is
/// left: it neither makes a row up nor passes over a failure.
pub proof fn query_returns_only_given_rows<S, W, R, E, X>(
    prepared: Result<S, E>,
    queried: Result<W, E>,
    fetches: Seq<Fetch<R, E, X>>,
    rows: Seq<R>,
)
    requires
        query_outcome(prepared, queried, fetches) == Some(Ok::<Seq<R>, Failure<E, X>>(rows)),
    ensures
        prepared is Ok,
        queried is Ok,
        fetches.len() > rows.len(),
        fetches.take(rows.len() as int + 1) == giving::<R, E, X>(rows).push(Ok(None)),
{
    let given = lemma_collected_only_rows(Seq::empty(), fetches, rows);
    assert(Seq::empty() + given =~= given);
}

/// A query goes on asking exactly as long as every reply gave it a row.
pub proof fn query_asks_while_rows_come<R, E, X>(rows: Seq<R>, fetches: Seq<Fetch<R, E, X>>)
    ensures
        collected(rows, fetches) is None <==> (forall|i: int|
            0 <= i < fetches.len() ==> (#[trigger] fetches[i] matches Ok(Some(Ok(_))))),
    decreases fetches.len(),
{
    if fetches.len() > 0 {
        let later = fetches.drop_first();
        match run::after_fetch(fetches.first()) {
            Ok(Some(row)) => {
                query_asks_while_rows_come(rows.push(row), later);
                assert(forall|i: int| 0 <= i < later.len() ==> later[i] == fetches[i + 1]);
                if forall|i: int|
                    0 <= i < later.len() ==> (#[trigger] later[i] matches Ok(Some(Ok(_)))) {
                    assert forall|i: int| 0 <= i < fetches.len() implies (
                    #[trigger] fetches[i] matches Ok(Some(Ok(_)))) by {
                        if i > 0 {
                            assert(fetches[i] == later[i - 1]);
                        }
                    }
                }
            },
            _ => {
                assert(!(fetches[0] matches Ok(Some(Ok(_)))));
            },
        }
    }
}

/// Fetching the first row alone gives what fetching every row would start with,
/// and nothing exactly where that would give nothing.
pub proof fn first_row_is_the_first_of_all<S, W, R, E, X>(
    prepared: Result<S, E>,
    queried: Result<W, E>,
    fetches: Seq<Fetch<R, E, X>>,
    rows: Seq<R>,
)
    requires
        query_outcome(prepared, queried, fetches) == Some(Ok::<Seq<R>, Failure<E, X>>(rows)),
    ensures
        first_outcome(prepared, queried, fetches.first()) == Ok::<Option<R>, Failure<E, X>>(
            if rows.len() > 0 {
                Some(rows.first())
            } else {
                None
            },
        ),
{
    query_returns_only_given_rows(prepared, queried, fetches, rows);
    assert(fetches.first() == fetches.take(rows.len() as int + 1)[0]);
}

/// Where fetching the first row fails, fetching every row fails the same way.
pub proof fn first_failure_is_a_failure_of_all<S, W, R, E, X>(
    prepared: Result<S, E>,
    queried: Result<W, E>,
    fetches: Seq<Fetch<R, E, X>>,
    failure: Failure<E, X>,
)
    requires
        fetches.len() > 0,
        first_outcome(prepared, queried, fetches.first()) == Err::<Option<R>, Failure<E, X>>(
            failure,
        ),
    ensures
        query_outcome(prepared, queried, fetches) == Some(Err::<Seq<R>, Failure<E, X>>(failure)),
{
}

/// A text that is not prepared ends every kind of run there, with the driver's
/// refusal; what the later stages would have met does not matter.
pub proof fn refused_text_ends_every_run<S, W, M, R, E, X>(
    refusal: E,
    queried: Result<W, E>,
    fetches: Seq<Fetch<R, E, X>>,
    fetch: Fetch<R, E, X>,
    executed: Result<M, E>,
)
    ensures
        query_outcome(Err::<S, E>(refusal), queried, fetches) == Some(
            Err::<Seq<R>, Failure<E, X>>(Failure::Prepare(refusal)),
        ),
        first_outcome(Err::<S, E>(refusal), queried, fetch) == Err::<Option<R>, Failure<E, X>>(
            Failure::Prepare(refusal),
        ),
        execute_outcome::<S, M, E, X>(Err(refusal), executed) == Err::<M, Failure<E, X>>(
            Failure::Prepare(refusal),
        ),
{
}

/// Runs of one text with the same parameters ask the driver for the same, whether
/// a client or a transaction starts them, each on its own connection; and parameters
/// that are absent are the same as none.
pub proof fn same_statement_same_requests<H, K, P, N, M>(
    one: Preparing<H, P, N>,
    other: Preparing<K, P, M>,
    over: H,
    elsewhere: K,
    text: Seq<char>,
    params: Option<Vec<P>>,
    others: Option<Vec<P>>,
)
    requires
        one.begins(over, text, params),
        other.begins(elsewhere, text, others),
        params == others || (params is None && others->Some_0@.len() == 0) || (others is None
            && params->Some_0@.len() == 0),
    ensures
        one.over() == over,
        other.over() == elsewhere,
        one.text() == other.text(),
        one.params() == other.params(),
{
    assert(run::params_or_none(params) =~= run::params_or_none(others));
}

/// On Turso a text that is not prepared is reported as an error of preparing, by
/// every kind of run.
pub proof fn turso_refused_text_is_an_error_of_preparing<S, W, R>(
    refusal: TursoRefusal,
    queried: Result<W, TursoRefusal>,
    fetches: Seq<Fetch<R, TursoRefusal, turso_db::Error>>,
    fetch: Fetch<R, TursoRefusal, turso_db::Error>,
    executed: Result<u64, TursoRefusal>,
)
    ensures
        ({
            let prepared = Err::<S, TursoRefusal>(refusal);
            &&& query_outcome(prepared, queried, fetches) is Some
            &&& turso_db::run_reported(query_outcome(prepared, queried, fetches)->0)
                == turso_db::reported(Err::<Seq<R>, TursoRefusal>(refusal), ErrorKind::Prepare)
            &&& turso_db::run_reported(first_outcome(prepared, queried, fetch))
                == turso_db::reported(Err::<Option<R>, TursoRefusal>(refusal), ErrorKind::Prepare)
            &&& turso_db::run_reported(execute_outcome(prepared, executed)) == turso_db::reported(
                Err::<u64, TursoRefusal>(refusal),
                ErrorKind::Prepare,
            )
        }),
{
}

/// On Turso a run whose connection is not settled is reported as one whose text is not
/// prepared: an error of preparing, with that refusal, by every kind of run.
pub proof fn turso_refused_settling_is_an_error_of_preparing<T>(
    refusal: TursoRefusal,
    outcome: Result<T, Failure<TursoRefusal, turso_db::Error>>,
)
    ensures
        turso_db::run_reported(settled_run(Err(refusal), outcome)) == turso_db::reported(
            Err::<T, TursoRefusal>(refusal),
            ErrorKind::Prepare,
        ),
        turso_db::run_reported(settled_run(Ok(()), outcome)) == turso_db::run_reported(outcome),
{
}

/// On Turso a statement that is prepared and not run is reported as an error of
/// querying, by every kind of run.
pub proof fn turso_refused_statement_is_an_error_of_querying<S, W, R>(
    statement: S,
    refusal: TursoRefusal,
    fetches: Seq<Fetch<R, TursoRefusal, turso_db::Error>>,
    fetch: Fetch<R, TursoRefusal, turso_db::Error>,
)
    ensures
        ({
            let prepared = Ok::<S, TursoRefusal>(statement);
            let queried = Err::<W, TursoRefusal>(refusal);
            &&& query_outcome(prepared, queried, fetches) is Some
            &&& turso_db::run_reported(query_outcome(prepared, queried, fetches)->0)
                == turso_db::reported(Err::<Seq<R>, TursoRefusal>(refusal), ErrorKind::Query)
            &&& turso_db::run_reported(first_outcome(prepared, queried, fetch))
                == turso_db::reported(Err::<Option<R>, TursoRefusal>(refusal), ErrorKind::Query)
            &&& turso_db::run_reported(
                execute_outcome(prepared, Err::<u64, TursoRefusal>(refusal)),
            ) == turso_db::reported(Err::<u64, TursoRefusal>(refusal), ErrorKind::Query)
        }),
{
}

/// On Turso a row that is not fetched is reported as an error of querying, and a row
/// that cannot be read with its own error, whatever rows came before; by a run for
/// every row, and by runs for the first row.
pub proof fn turso_failed_row_ends_the_query<S, W, R>(
    statement: S,
    cursor: W,
    rows: Seq<R>,
    refusal: TursoRefusal,
    unread: turso_db::Error,
    rest: Seq<Fetch<R, TursoRefusal, turso_db::Error>>,
)
    ensures
        ({
            let prepared = Ok::<S, TursoRefusal>(statement);
            let queried = Ok::<W, TursoRefusal>(cursor);
            let given = giving::<R, TursoRefusal, turso_db::Error>(rows);
            let unfetched: Fetch<R, TursoRefusal, turso_db::Error> = Err(refusal);
            let misread: Fetch<R, TursoRefusal, turso_db::Error> = Ok(Some(Err(unread)));
            let refused = query_outcome(prepared, queried, given + seq![unfetched] + rest);
            let broken = query_outcome(prepared, queried, given + seq![misread] + rest);
            let first_refused = turso_db::run_reported(first_outcome(prepared, queried, unfetched));
            let first_broken = turso_db::run_reported(first_outcome(prepared, queried, misread));
            let error = error::Error {
                kind: ErrorKind::Query,
                cause: turso_db::Cause::Turso(refusal),
            };
            &&& refused is Some
            &&& turso_db::run_reported(refused->0) == Err::<Seq<R>, turso_db::Error>(error)
            &&& broken is Some
            &&& turso_db::run_reported(broken->0) == Err::<Seq<R>, turso_db::Error>(unread)
            &&& first_refused == Err::<Option<R>, turso_db::Error>(error)
            &&& first_broken == Err::<Option<R>, turso_db::Error>(unread)
            &&& turso_db::required(first_refused) == Err::<R, turso_db::Error>(error)
            &&& turso_db::required(first_broken) == Err::<R, turso_db::Error>(unread)
        }),
{
    query_fails_with_the_first_failure(statement, cursor, rows, Err(refusal), rest);
    query_fails_with_the_first_failure(statement, cursor, rows, Ok(Some(Err(unread))), rest);
}

/// A run that a driver refuses hands back the driver's own refusal, whichever stage
/// met it and whatever rows came before.
pub proof fn refused_run_hands_back_the_refusal<S, W, M, R, E, X>(
    statement: S,
    cursor: W,
    rows: Seq<R>,
    refusal: E,
    rest: Seq<Fetch<R, E, X>>,
    fetch: Fetch<R, E, X>,
    executed: Result<M, E>,
)
    ensures
        ({
            let unprepared = Err::<S, E>(refusal);
            let prepared = Ok::<S, E>(statement);
            let unqueried = Err::<W, E>(refusal);
            let queried = Ok::<W, E>(cursor);
            let fetches = giving::<R, E, X>(rows) + seq![Err(refusal)] + rest;
            &&& refuses(query_outcome(unprepared, queried, rest)->0, refusal)
            &&& refuses(query_outcome(prepared, unqueried, rest)->0, refusal)
            &&& refuses(query_outcome(prepared, queried, fetches)->0, refusal)
            &&& refuses(first_outcome(unprepared, queried, fetch), refusal)
            &&& refuses(first_outcome(prepared, unqueried, fetch), refusal)
            &&& refuses(
                first_outcome(prepared, queried, Err::<Option<Result<R, X>>, E>(refusal)),
                refusal,
            )
            &&& refuses(execute_outcome::<S, M, E, X>(unprepared, executed), refusal)
            &&& refuses(execute_outcome::<S, M, E, X>(prepared, Err(refusal)), refusal)
        }),
{
    query_fails_with_the_first_failure(statement, cursor, rows, Err(refusal), rest);
}

/// What the client reports of a run that SQLite answers: `carried` is how the
/// background connection passes SQLite's refusal on.
pub open spec fn sqlite_reported<T, X>(
    outcome: Result<T, Failure<RusqliteRefusal, X>>,
    carried: spec_fn(RusqliteRefusal) -> SqliteRefusal,
) -> Result<T, sqlite::Error> {
    let passed_on = match outcome {
        Ok(value) => Ok(value),
        Err(failure) => Err(carried(failure.refused())),
    };
    sqlite::reported(passed_on, ErrorKind::Query)
}

/// On the background connection a run that SQLite refuses is reported as an error of
/// querying, with the refusal passed on, whichever stage met it, preparing the text
/// too; by every kind of run.
pub proof fn sqlite_refused_run_is_an_error_of_querying<S, W, R, X>(
    statement: S,
    cursor: W,
    rows: Seq<R>,
    refusal: RusqliteRefusal,
    rest: Seq<Fetch<R, RusqliteRefusal, X>>,
    fetch: Fetch<R, RusqliteRefusal, X>,
    executed: Result<usize, RusqliteRefusal>,
    carried: spec_fn(RusqliteRefusal) -> SqliteRefusal,
)
    ensures
        ({
            let unprepared = Err::<S, RusqliteRefusal>(refusal);
            let prepared = Ok::<S, RusqliteRefusal>(statement);
            let unqueried = Err::<W, RusqliteRefusal>(refusal);
            let queried = Ok::<W, RusqliteRefusal>(cursor);
            let unfetched: Fetch<R, RusqliteRefusal, X> = Err(refusal);
            let fetches = giving::<R, RusqliteRefusal, X>(rows) + seq![unfetched] + rest;
            let error = error::Error {
                kind: ErrorKind::Query,
                cause: sqlite::Cause::Handle(carried(refusal)),
            };
            let every = Err::<Seq<R>, sqlite::Error>(error);
            let optional = Err::<Option<R>, sqlite::Error>(error);
            let effect = Err::<usize, sqlite::Error>(error);
            &&& sqlite_reported(query_outcome(unprepared, queried, rest)->0, carried) == every
            &&& sqlite_reported(query_outcome(prepared, unqueried, rest)->0, carried) == every
            &&& sqlite_reported(query_outcome(prepared, queried, fetches)->0, carried) == every
            &&& sqlite_reported(first_outcome(unprepared, queried, fetch), carried) == optional
            &&& sqlite_reported(first_outcome(prepared, unqueried, fetch), carried) == optional
            &&& sqlite_reported(first_outcome(prepared, queried, unfetched), carried) == optional
            &&& sqlite::required(optional) == Err::<R, sqlite::Error>(error)
            &&& sqlite_reported(
                execute_outcome::<S, usize, RusqliteRefusal, X>(unprepared, executed),
                carried,
            ) == effect
            &&& sqlite_reported(
                execute_outcome::<S, usize, RusqliteRefusal, X>(prepared, Err(refusal)),
                carried,
            ) == effect
        }),
{
    query_fails_with_the_first_failure(statement, cursor, rows, Err(refusal), rest);
}

/// On the background connection, a query for one row gives the row that a query for
/// an optional row gives; where that gives none, it fails for want of rows, and it
/// fails so nowhere else; where that fails, it fails the same way.
pub proof fn sqlite_one_row_against_optional_row<R>(outcome: Result<Option<R>, SqliteRefusal>)
    ensures
        ({
            let optional = sqlite::reported(outcome, ErrorKind::Query);
            let one = sqlite::required(optional);
            let no_rows = error::Error {
                kind: ErrorKind::Query,
                cause: sqlite::Cause::QueryReturnedNoRows,
            };
            &&& one is Ok <==> optional is Ok && optional->Ok_0 is Some
            &&& one is Ok ==> optional == Ok::<Option<R>, sqlite::Error>(Some(one->Ok_0))
            &&& optional == Ok::<Option<R>, sqlite::Error>(None) <==> one == Err::<
                R,
                sqlite::Error,
            >(no_rows)
            &&& optional is Err ==> one == Err::<R, sqlite::Error>(optional->Err_0)
        }),
{
}

/// On Turso, a query for one row gives the row that a query for an optional row
/// gives; where that gives none, it fails for want of rows; where that fails, it
/// fails the same way.
pub proof fn turso_one_row_against_optional_row<R>(
    outcome: Result<Option<R>, Failure<TursoRefusal, turso_db::Error>>,
)
    ensures
        ({
            let optional = turso_db::run_reported(outcome);
            let one = turso_db::required(optional);
            let no_rows = error::Error {
                kind: ErrorKind::Query,
                cause: turso_db::Cause::QueryReturnedNoRows,
            };
            &&& one is Ok <==> optional is Ok && optional->Ok_0 is Some
            &&& one is Ok ==> optional == Ok::<Option<R>, turso_db::Error>(Some(one->Ok_0))
            &&& optional == Ok::<Option<R>, turso_db::Error>(None) ==> one == Err::<
                R,
                turso_db::Error,
            >(no_rows)
            &&& optional is Err ==> one == Err::<R, turso_db::Error>(optional->Err_0)
        }),
{
}

/// A run asks for exactly the text it was started with, on exactly the connection it
/// was started on, and hands over exactly the parameters it was given: each of them, in
/// their order, and no other.
pub proof fn run_hands_over_its_statement<H, P, N>(
    started: Preparing<H, P, N>,
    over: H,
    text: Seq<char>,
    params: Option<Vec<P>>,
)
    requires
        started.begins(over, text, params),
    ensures
        started.over() == over,
        started.text() == text,
        params is Some ==> started.params() == params->Some_0@,
        params is None ==> started.params().len() == 0,
{
}

/// Parameters that are given are handed over as they are, however many they are; where
/// none are given, none are handed over.
pub proof fn parameters_keep_their_order<P>(params: Vec<P>)
    ensures
        run::params_or_none(Some(params)) == params@,
        run::params_or_none(None::<Vec<P>>).len() == 0,
{
}

/// Runs that ask for the same were started with the same: no two texts, and no two
/// lists of parameters, are run as one.
pub proof fn different_statements_stay_different<H, P, N, M>(
    one: Preparing<H, P, N>,
    other: Preparing<H, P, M>,
    over: H,
    elsewhere: H,
    text: Seq<char>,
    words: Seq<char>,
    params: Vec<P>,
    others: Vec<P>,
)
    requires
        one.begins(over, text, Some(params)),
        other.begins(elsewhere, words, Some(others)),
    ensures
        one.over() == other.over() <==> over == elsewhere,
        one.text() == other.text() <==> text == words,
        one.params() == other.params() <==> params@ == others@,
{
}

/// A stage goes on with exactly what the driver gave, and fails with exactly what the
/// driver refused with, as a failure of that stage.
pub proof fn stage_keeps_the_reply<T, E, X>(given: T, refusal: E)
    ensures
        run::after_prepare::<T, E, X>(Ok(given)) == Ok::<T, Failure<E, X>>(given),
        run::after_prepare::<T, E, X>(Err(refusal)) == Err::<T, Failure<E, X>>(
            Failure::Prepare(refusal),
        ),
        run::after_query::<T, E, X>(Ok(given)) == Ok::<T, Failure<E, X>>(given),
        run::after_query::<T, E, X>(Err(refusal)) == Err::<T, Failure<E, X>>(
            Failure::Query(refusal),
        ),
        Failure::<E, X>::Prepare(refusal).refused() == refusal,
        Failure::<E, X>::Query(refusal).refused() == refusal,
{
}

/// A row that was read is given as it was read, the absence of a row as that, an unread
/// row with its own error, and a refusal with the driver's.
pub proof fn fetch_keeps_the_row<R, E, X>(row: R, refusal: E, unread: X)
    ensures
        run::after_fetch::<R, E, X>(Ok(Some(Ok(row)))) == Ok::<Option<R>, Failure<E, X>>(
            Some(row),
        ),
        run::after_fetch::<R, E, X>(Ok(None)) == Ok::<Option<R>, Failure<E, X>>(None),
        run::after_fetch::<R, E, X>(Ok(Some(Err(unread)))) == Err::<Option<R>, Failure<E, X>>(
            Failure::Row(unread),
        ),
        run::after_fetch::<R, E, X>(Err(refusal)) == Err::<Option<R>, Failure<E, X>>(
            Failure::Query(refusal),
        ),
{
}

/// A fetched row becomes the last of the rows and leaves those before it alone; the end
/// of the rows gives them all; a failure is given as it is.
pub proof fn collecting_appends<R, E, X>(rows: Seq<R>, row: R, refusal: E, unread: X)
    ensures
        ({
            let more = run::collect::<R, E, X>(rows, Ok(Some(Ok(row))));
            &&& more is Ok && more->Ok_0 is More
            &&& more->Ok_0->More_0.len() == rows.len() + 1
            &&& more->Ok_0->More_0[rows.len() as int] == row
            &&& forall|i: int| 0 <= i < rows.len() ==> more->Ok_0->More_0[i] == #[trigger] rows[i]
        }),
        run::collect::<R, E, X>(rows, Ok(None)) == Ok::<Step<Seq<R>, Seq<R>>, Failure<E, X>>(
            Step::Done(rows),
        ),
        run::collect::<R, E, X>(rows, Ok(Some(Err(unread)))) == Err::<
            Step<Seq<R>, Seq<R>>,
            Failure<E, X>,
        >(Failure::Row(unread)),
        run::collect::<R, E, X>(rows, Err(refusal)) == Err::<
            Step<Seq<R>, Seq<R>>,
            Failure<E, X>,
        >(Failure::Query(refusal)),
{
}

/// What a run for a row that must be there has fetched is what its one fetch gave.
pub proof fn required_row_is_the_fetched_one<R, F>(one: run::One<R>, failure: F)
    ensures
        run::fetched_by(Ok::<run::One<R>, F>(one)) == Ok::<Option<R>, F>(one.row()),
        run::fetched_by(Err::<run::One<R>, F>(failure)) == Err::<Option<R>, F>(failure),
{
}

/// On the background connection what an operation succeeds with is reported unchanged,
/// of every type and by every kind of operation, and a refusal as an error of that kind
/// with that refusal.
pub proof fn sqlite_reports_the_outcome<T>(value: T, refusal: SqliteRefusal, kind: ErrorKind)
    ensures
        sqlite::reported(Ok::<T, SqliteRefusal>(value), kind) == Ok::<T, sqlite::Error>(value),
        sqlite::reported(Err::<T, SqliteRefusal>(refusal), kind) == Err::<T, sqlite::Error>(
            error::Error { kind, cause: sqlite::Cause::Handle(refusal) },
        ),
{
}

/// On Turso what an operation succeeds with is reported unchanged, of every type and by
/// every kind of operation, and a refusal as an error of that kind with that refusal.
pub proof fn turso_reports_the_outcome<T>(value: T, refusal: TursoRefusal, kind: ErrorKind)
    ensures
        turso_db::reported(Ok::<T, TursoRefusal>(value), kind) == Ok::<T, turso_db::Error>(value),
        turso_db::reported(Err::<T, TursoRefusal>(refusal), kind) == Err::<T, turso_db::Error>(
            error::Error { kind, cause: turso_db::Cause::Turso(refusal) },
        ),
{
}

/// On Turso what a run succeeds with is reported unchanged, of every type; a refusal is
/// reported by its stage, and a row that could not be read with its own error.
pub proof fn turso_reports_the_run<T>(value: T, refusal: TursoRefusal, unread: turso_db::Error)
    ensures
        turso_db::run_reported(Ok::<T, Failure<TursoRefusal, turso_db::Error>>(value)) == Ok::<
            T,
            turso_db::Error,
        >(value),
        turso_db::run_reported(
            Err::<T, Failure<TursoRefusal, turso_db::Error>>(Failure::Prepare(refusal)),
        ) == Err::<T, turso_db::Error>(
            error::Error { kind: ErrorKind::Prepare, cause: turso_db::Cause::Turso(refusal) },
        ),
        turso_db::run_reported(
            Err::<T, Failure<TursoRefusal, turso_db::Error>>(Failure::Query(refusal)),
        ) == Err::<T, turso_db::Error>(
            error::Error { kind: ErrorKind::Query, cause: turso_db::Cause::Turso(refusal) },
        ),
        turso_db::run_reported(
            Err::<T, Failure<TursoRefusal, turso_db::Error>>(Failure::Row(unread)),
        ) == Err::<T, turso_db::Error>(unread),
{
}

/// A row that must be there is given as it is if it is there, of every type; if it is
/// not, the query fails for want of rows; and an error stays as it is.
pub proof fn required_row_is_given<R>(
    row: R,
    sqlite_error: sqlite::Error,
    turso_error: turso_db::Error,
)
    ensures
        sqlite::required(Ok::<Option<R>, sqlite::Error>(Some(row))) == Ok::<R, sqlite::Error>(row),
        sqlite::required(Ok::<Option<R>, sqlite::Error>(None)) == Err::<R, sqlite::Error>(
            error::Error { kind: ErrorKind::Query, cause: sqlite::Cause::QueryReturnedNoRows },
        ),
        sqlite::required(Err::<Option<R>, sqlite::Error>(sqlite_error)) == Err::<
            R,
            sqlite::Error,
        >(sqlite_error),
        turso_db::required(Ok::<Option<R>, turso_db::Error>(Some(row))) == Ok::<
            R,
            turso_db::Error,
        >(row),
        turso_db::required(Ok::<Option<R>, turso_db::Error>(None)) == Err::<R, turso_db::Error>(
            error::Error { kind: ErrorKind::Query, cause: turso_db::Cause::QueryReturnedNoRows },
        ),
        turso_db::required(Err::<Option<R>, turso_db::Error>(turso_error)) == Err::<
            R,
            turso_db::Error,
        >(turso_error),
{
}

/// A query whose driver gives `rows` one by one and then says that none is left reports
/// exactly `rows`, on either database.
pub proof fn query_reports_the_given_rows<S, W, R, X>(
    statement: S,
    cursor: W,
    rows: Seq<R>,
    from_turso: Seq<Fetch<R, TursoRefusal, turso_db::Error>>,
    from_sqlite: Seq<Fetch<R, RusqliteRefusal, X>>,
    carried: spec_fn(RusqliteRefusal) -> SqliteRefusal,
)
    requires
        from_turso.len() == rows.len() + 1,
        from_sqlite.len() == rows.len() + 1,
        forall|i: int|
            #![trigger rows[i]]
            0 <= i < rows.len() ==> {
                &&& from_turso[i] == Ok::<Option<Result<R, turso_db::Error>>, TursoRefusal>(
                    Some(Ok(rows[i])),
                )
                &&& from_sqlite[i] == Ok::<Option<Result<R, X>>, RusqliteRefusal>(
                    Some(Ok(rows[i])),
                )
            },
        from_turso.last() == Ok::<Option<Result<R, turso_db::Error>>, TursoRefusal>(None),
        from_sqlite.last() == Ok::<Option<Result<R, X>>, RusqliteRefusal>(None),
    ensures
        ({
            let turso = query_outcome(
                Ok::<S, TursoRefusal>(statement),
                Ok::<W, TursoRefusal>(cursor),
                from_turso,
            );
            let sqlite = query_outcome(
                Ok::<S, RusqliteRefusal>(statement),
                Ok::<W, RusqliteRefusal>(cursor),
                from_sqlite,
            );
            &&& turso is Some
            &&& turso_db::run_reported(turso->0) == Ok::<Seq<R>, turso_db::Error>(rows)
            &&& sqlite is Some
            &&& sqlite_reported(sqlite->0, carried) == Ok::<Seq<R>, sqlite::Error>(rows)
        }),
{
    let none = Seq::<Fetch<R, TursoRefusal, turso_db::Error>>::empty();
    assert(from_turso =~= giving::<R, TursoRefusal, turso_db::Error>(rows) + seq![Ok(None)] + none)
        by {
        assert forall|i: int| 0 <= i < rows.len() implies from_turso[i] == giving::<
            R,
            TursoRefusal,
            turso_db::Error,
        >(rows)[i] by {
            assert(rows[i] == rows[i]);
        }
    }
    query_returns_every_row(statement, cursor, rows, none);
    let none = Seq::<Fetch<R, RusqliteRefusal, X>>::empty();
    assert(from_sqlite =~= giving::<R, RusqliteRefusal, X>(rows) + seq![Ok(None)] + none) by {
        assert forall|i: int| 0 <= i < rows.len() implies from_sqlite[i] == giving::<
            R,
            RusqliteRefusal,
            X,
        >(rows)[i] by {
            assert(rows[i] == rows[i]);
        }
    }
    query_returns_every_row(statement, cursor, rows, none);
}

/// A query for the first row that fetches `row` reports exactly `row`, on either
/// database, whether the row must be there or may be; a query that fetches no row
/// reports its absence, or fails for want of it; and a statement run for its effect
/// reports the driver's count.
pub proof fn first_row_and_count_are_reported<S, W, R, X>(
    statement: S,
    cursor: W,
    row: R,
    changed: u64,
    affected: usize,
    carried: spec_fn(RusqliteRefusal) -> SqliteRefusal,
)
    ensures
        ({
            let prepared = Ok::<S, TursoRefusal>(statement);
            let queried = Ok::<W, TursoRefusal>(cursor);
            let found: Fetch<R, TursoRefusal, turso_db::Error> = Ok(Some(Ok(row)));
            let missing: Fetch<R, TursoRefusal, turso_db::Error> = Ok(None);
            let there = turso_db::run_reported(first_outcome(prepared, queried, found));
            let absent = turso_db::run_reported(first_outcome(prepared, queried, missing));
            &&& there == Ok::<Option<R>, turso_db::Error>(Some(row))
            &&& turso_db::required(there) == Ok::<R, turso_db::Error>(row)
            &&& absent == Ok::<Option<R>, turso_db::Error>(None)
            &&& turso_db::required(absent) == Err::<R, turso_db::Error>(
                error::Error {
                    kind: ErrorKind::Query,
                    cause: turso_db::Cause::QueryReturnedNoRows,
                },
            )
            &&& turso_db::run_reported(
                execute_outcome(prepared, Ok::<u64, TursoRefusal>(changed)),
            ) == Ok::<u64, turso_db::Error>(changed)
        }),
        ({
            let prepared = Ok::<S, RusqliteRefusal>(statement);
            let queried = Ok::<W, RusqliteRefusal>(cursor);
            let found: Fetch<R, RusqliteRefusal, X> = Ok(Some(Ok(row)));
            let missing: Fetch<R, RusqliteRefusal, X> = Ok(None);
            let there = sqlite_reported(first_outcome(prepared, queried, found), carried);
            let absent = sqlite_reported(first_outcome(prepared, queried, missing), carried);
            &&& there == Ok::<Option<R>, sqlite::Error>(Some(row))
            &&& sqlite::required(there) == Ok::<R, sqlite::Error>(row)
            &&& absent == Ok::<Option<R>, sqlite::Error>(None)
            &&& sqlite::required(absent) == Err::<R, sqlite::Error>(
                error::Error {
                    kind: ErrorKind::Query,
                    cause: sqlite::Cause::QueryReturnedNoRows,
                },
            )
            &&& sqlite_reported(
                execute_outcome::<S, usize, RusqliteRefusal, X>(prepared, Ok(affected)),
                carried,
            ) == Ok::<usize, sqlite::Error>(affected)
        }),
{
}

/// Ending an open transaction sends `COMMIT` to commit it and `ROLLBACK` to roll it
/// back, over its own connection; ending a finished one sends nothing and succeeds.
pub proof fn transaction_ends_as_asked(
    transaction: sqlite::Transaction,
    commits: bool,
    control: sqlite::Control,
)
    requires
        sqlite::ends(transaction, commits, control),
    ensures
        transaction.is_finished() ==> control == sqlite::Control::Return(Ok(())),
        !transaction.is_finished() ==> {
            &&& control is Send
            &&& control->Send_0.handle() == transaction.handle()
            &&& commits ==> control->Send_0.text() == "COMMIT"@
            &&& !commits ==> control->Send_0.text() == "ROLLBACK"@
        },
{
}

/// A transaction sends a statement to end it exactly while it is open. A refused end
/// leaves it as it was, an accepted one finishes it, and it stays finished.
pub proof fn transaction_stays_finished(finished: bool, succeeded: bool)
    ensures
        sqlite::sends(finished) <==> !finished,
        sqlite::finished_by(finished, false) == finished,
        sqlite::finished_by(finished, true),
        sqlite::finished_by(true, succeeded),
{
}

/// An attempt to end a transaction, and whether the database accepts the statement.
pub ghost struct Attempt {
    pub commits: bool,
    pub accepted: bool,
}

/// The attempts for which a statement is sent.
pub open spec fn sent(finished: bool, attempts: Seq<Attempt>) -> Seq<Attempt>
    decreases attempts.len(),
{
    if attempts.len() == 0 {
        Seq::empty()
    } else if sqlite::sends(finished) {
        let attempt = attempts.first();
        seq![attempt] + sent(
            sqlite::finished_by(finished, attempt.accepted),
            attempts.drop_first(),
        )
    } else {
        sent(finished, attempts.drop_first())
    }
}

/// The statements that are sent for `attempts`.
pub open spec fn texts(attempts: Seq<Attempt>) -> Seq<Seq<char>> {
    Seq::new(attempts.len(), |i: int| sqlite::ending(attempts[i].commits))
}

/// Whether the transaction is finished after `attempts`.
pub open spec fn finished_after(finished: bool, attempts: Seq<Attempt>) -> bool
    decreases attempts.len(),
{
    if attempts.len() == 0 {
        finished
    } else if sqlite::sends(finished) {
        finished_after(
            sqlite::finished_by(finished, attempts.first().accepted),
            attempts.drop_first(),
        )
    } else {
        finished_after(finished, attempts.drop_first())
    }
}

/// A transaction is finished exactly if it was before, or if the database has
/// accepted a statement that ends it.
pub proof fn transaction_is_finished_by_acceptance_alone(finished: bool, attempts: Seq<Attempt>)
    ensures
        finished_after(finished, attempts) <==> finished || exists|i: int|
            0 <= i < attempts.len() && (#[trigger] attempts[i]).accepted,
    decreases attempts.len(),
{
    if attempts.len() > 0 {
        let later = attempts.drop_first();
        let next = if sqlite::sends(finished) {
            sqlite::finished_by(finished, attempts.first().accepted)
        } else {
            finished
        };
        transaction_is_finished_by_acceptance_alone(next, later);
        assert(forall|i: int| 0 <= i < later.len() ==> later[i] == #[trigger] attempts[i + 1]);
        if exists|i: int| 0 <= i < later.len() && (#[trigger] later[i]).accepted {
            let i = choose|i: int| 0 <= i < later.len() && (#[trigger] later[i]).accepted;
            assert(attempts[i + 1].accepted);
        }
        if exists|i: int| 0 <= i < attempts.len() && (#[trigger] attempts[i]).accepted {
            let i = choose|i: int| 0 <= i < attempts.len() && (#[trigger] attempts[i]).accepted;
            if i > 0 {
                assert(later[i - 1].accepted);
            }
        }
    }
}

/// A finished transaction sends nothing more.
pub proof fn finished_transaction_is_silent(attempts: Seq<Attempt>)
    ensures
        sent(true, attempts) == Seq::<Attempt>::empty(),
    decreases attempts.len(),
{
    if attempts.len() > 0 {
        finished_transaction_is_silent(attempts.drop_first());
    }
}

/// However often a transaction is committed and rolled back, attempts are sent up to
/// the first that the database accepts and none after it, each as the `COMMIT` or
/// `ROLLBACK` that it asks for; so at most one of them takes effect, and a refused one
/// can be tried again.
pub proof fn transaction_finishes_once(refused: Seq<Attempt>, accepted: Attempt, rest: Seq<Attempt>)
    requires
        forall|i: int| 0 <= i < refused.len() ==> !(#[trigger] refused[i]).accepted,
        accepted.accepted,
    ensures
        sent(false, refused) == refused,
        sent(false, refused + seq![accepted] + rest) == refused.push(accepted),
        texts(sent(false, refused + seq![accepted] + rest)) == texts(refused).push(
            sqlite::ending(accepted.commits),
        ),
    decreases refused.len(),
{
    let all = refused + seq![accepted] + rest;
    if refused.len() == 0 {
        finished_transaction_is_silent(rest);
        assert(all.drop_first() =~= rest);
        assert(sent(false, all) =~= refused.push(accepted));
        assert(refused =~= Seq::empty());
    } else {
        let later = refused.drop_first();
        assert forall|i: int| 0 <= i < later.len() implies !(#[trigger] later[i]).accepted by {
            assert(later[i] == refused[i + 1]);
        }
        transaction_finishes_once(later, accepted, rest);
        assert(!refused[0].accepted);
        assert(all.drop_first() =~= later + seq![accepted] + rest);
        assert(seq![refused.first()] + later.push(accepted) =~= refused.push(accepted));
        assert(seq![refused.first()] + later =~= refused);
    }
    assert(texts(refused.push(accepted)) =~= texts(refused).push(sqlite::ending(accepted.commits)));
}

} // verus!
