//! Per-test process data of a tableau reasoner: the arena-owning process
//! context, the linker chains and candidate hashes that the completion graph
//! uses for blocking, merging and reapplication, and the bookkeeping records
//! that are localised from a parent task on demand.
//!
//! Every arena object is addressed by an [`ids::Id`]; linker chains are
//! sequences of ids threaded through `next` fields, and their contracts are
//! stated over the walks of those chains (see [`chain`]).

pub mod ids;
pub mod chain;
pub mod collections;
pub mod models;
pub mod concept_process_linker;
pub mod branching_tree;
pub mod backend_control;
pub mod blocking_follow;
pub mod backend_sync;
pub mod review;
pub mod analized_concept_expansion;
pub mod binding_hash;
pub mod blocking_hash;
pub mod blocking_test_data;
pub mod signature_candidates;
pub mod condensed_reapply;
pub mod merging_restriction;
pub mod databox;
pub mod context;
pub mod laws;
pub mod journal;
pub mod saturation_label;
pub mod saturation_extension;
pub mod backward_propagation;
pub mod saturation_node;
