//! Memory search, memory statistics and the status summary.
use vstd::prelude::*;
use crate::config::Config;
use crate::error::AppError;

verus! {

/// Number of results a search returns when the request gives no limit.
pub const DEFAULT_SEARCH_LIMIT: usize = 10;

pub open spec fn effective_limit(limit: Option<usize>) -> usize {
    match limit {
        Some(n) => n,
        None => DEFAULT_SEARCH_LIMIT,
    }
}

/// The limit handed to the store: the requested one, else the default.
pub fn search_limit(limit: Option<usize>) -> (r: usize)
    ensures
        r == effective_limit(limit),
{
    match limit {
        Some(n) => n,
        None => DEFAULT_SEARCH_LIMIT,
    }
}

/// Reply to a search: the records found, best first, and the query as given.
#[derive(Debug)]
pub struct SearchResponse<R> {
    pub results: Vec<R>,
    pub query: String,
}

/// The records of a search that the reply may hold: those the store returned,
/// in its order, cut to the effective limit.
pub open spec fn kept_results<R>(found: Seq<R>, limit: Option<usize>) -> Seq<R> {
    if found.len() <= effective_limit(limit) {
        found
    } else {
        found.subrange(0, effective_limit(limit) as int)
    }
}

/// Shapes the outcome of a store search into the reply: on success the
/// records in the store's order, never more than the effective limit, and the
/// query unchanged; a store failure becomes a generic failure with its message.
pub fn memory_search_inner<R>(query: &str, limit: Option<usize>, found: Result<Vec<R>, String>) -> (r:
    Result<SearchResponse<R>, AppError>)
    ensures
        found is Ok <==> r is Ok,
        r is Ok ==> r->Ok_0.results@ == kept_results(found->Ok_0@, limit),
        r is Ok ==> r->Ok_0.query@ == query@,
        found is Err ==> r == Err::<SearchResponse<R>, AppError>(AppError::Failed(found->Err_0)),
{
    match found {
        Ok(records) => {
            let mut results = records;
            results.truncate(search_limit(limit));
            Ok(SearchResponse { results, query: query.to_owned() })
        },
        Err(message) => Err(AppError::Failed(message)),
    }
}

/// A search reply never holds more records than the limit asked for, or the
/// default limit when none was, and always echoes the query.
pub proof fn lemma_search_respects_limit<R>(query: Seq<char>, limit: Option<usize>, found: Seq<R>)
    ensures
        kept_results(found, limit).len() <= effective_limit(limit),
        limit is None ==> kept_results(found, limit).len() <= 10,
        forall|i: int|
            0 <= i < kept_results(found, limit).len() ==> kept_results(found, limit)[i] == found[i],
{
}

/// Aggregate counts of the memory store.
#[derive(Debug)]
pub struct MemoryStats {
    pub workspace: String,
    pub total_files: usize,
    pub total_chunks: usize,
    pub index_size_kb: u64,
}

/// Reply of `GET /api/memory/stats`.
#[derive(Debug)]
pub struct StatsResponse {
    pub workspace: String,
    pub total_files: usize,
    pub total_chunks: usize,
    pub index_size_kb: u64,
}

/// Shapes the outcome of opening the store and reading its counts: the counts
/// as they are, or a generic failure that carries the store's message.
pub fn memory_stats_inner(stats: Result<MemoryStats, String>) -> (r: Result<StatsResponse, AppError>)
    ensures
        stats is Ok <==> r is Ok,
        r is Ok ==> r->Ok_0 == (StatsResponse {
            workspace: stats->Ok_0.workspace,
            total_files: stats->Ok_0.total_files,
            total_chunks: stats->Ok_0.total_chunks,
            index_size_kb: stats->Ok_0.index_size_kb,
        }),
        stats is Err ==> r == Err::<StatsResponse, AppError>(AppError::Failed(stats->Err_0)),
{
    match stats {
        Ok(s) => Ok(
            StatsResponse {
                workspace: s.workspace,
                total_files: s.total_files,
                total_chunks: s.total_chunks,
                index_size_kb: s.index_size_kb,
            },
        ),
        Err(message) => Err(AppError::Failed(message)),
    }
}

/// Reply of `GET /api/status`.
#[derive(Debug)]
pub struct StatusResponse {
    pub version: String,
    pub model: String,
    pub memory_chunks: usize,
}

/// The status summary: the build's version, the default model and the chunk
/// count, which is zero when the store could not be opened or counted.
pub fn status_response(version: &str, config: &Config, chunk_count: Option<usize>) -> (r: StatusResponse)
    ensures
        r.version@ == version@,
        r.model == config.agent.default_model,
        r.memory_chunks == (match chunk_count {
            Some(n) => n,
            None => 0,
        }),
{
    let memory_chunks = match chunk_count {
        Some(n) => n,
        None => 0,
    };
    StatusResponse { version: version.to_owned(), model: config.agent.default_model.clone(), memory_chunks }
}

} // verus!
