//! Verified core of a token-metadata indexer for an EVM chain.
//!
//! The indexer picks up token contracts whose metadata has not been catalogued,
//! asks the chain's JSON-RPC endpoint for `name()`, `symbol()`, `decimals()`,
//! `totalSupply()` and `contractURI()` in batches, decodes the answers, and writes
//! the resulting metadata back. This crate holds the decisions and data handling
//! of that pipeline; network, database and scheduling live around it.

pub mod abi;
pub mod job;
pub mod rpc;
pub mod settings;
pub mod token;
pub mod token_db;
pub mod token_rpc;

pub use abi::{CallOutput, ReturnKind, TokenMethod};
pub use job::{default_jobs, JobAction, JobOutcome, JobRun, RetryInterval, RunPhase, TokenDataJob};
pub use rpc::{build_calls, decode_batch, decode_call_result, EthCall, InternalError, RpcClientError};
pub use settings::{default_batch_size, IndexersSettings, RpcSettings, TokenIndexerSettings};
pub use token::{ContractURIData, ContractUriLookup, TokenData};
pub use token_db::{latest_block_number, token_update, token_updates, TokenUpdate};
pub use token_rpc::{assemble_token_data, get_all_token_data_from_answers, RawTokenAnswers, TokenAnswers};
