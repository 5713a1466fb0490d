//! Decision core of a Gravity node: the block buffer between consensus and execution, block
//! synchronisation, epoch management, block execution requests and the node's HTTP surface.

pub mod bcs_encoding;
pub mod block_buffer_manager;
pub mod block_executor;
pub mod block_map;
pub mod block_retrieval;
pub mod block_retriever;
pub mod block_state;
pub mod block_store;
pub mod buffer_effects;
pub mod buffer_laws;
pub mod buffer_model;
pub mod commit_laws;
pub mod consensus_types;
pub mod epoch_laws;
pub mod epoch_manager;
pub mod epoch_start;
pub mod external;
pub mod https;
pub mod pipelined_block;
pub mod places;
pub mod proposer_election;
pub mod randomness_setup;
pub mod reader;
pub mod retrieval_laws;
pub mod set_failpoints;
pub mod state_computer;
pub mod sync_laws;
pub mod sync_manager;
pub mod txn_buffer;
pub mod types;
pub mod validators;
pub mod vote_proposal;
