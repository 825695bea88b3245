//! Replace symbolic links with concrete copies of what they point to.
//!
//! The library holds the decisions of the unfold engine: which bound a run
//! uses, how a chain of links is walked, what replaces a link of each kind,
//! how a failed replacement is reverted, and in which order the arguments of
//! a run are taken. The filesystem work itself is done by the caller, which
//! reports what it observed and performs what the engine decides.

mod errors;
mod laws;
mod machine;
mod model;
mod options;
mod paths;
mod resolve;
mod session;
mod unfold;

pub use errors::{Failure, UnfoldError};
pub use laws::{
    dir_unfolded, law_dir_unfold, law_file_unfold, law_full_chain, law_partial_chain,
    law_revert_restores, law_unfolding_revert,
};
pub use machine::{Phase, Request, Unfolding};
pub use model::{apply, apply_all, is_entry_of, ops_view, Fs, Node, Op, OpModel};
pub use options::{bound_of, choose_bound, Bound, OptionError, MAX_LAYERS};
pub use paths::{joined, link_step, parent_of, resolve_link_value};
pub use resolve::{
    agrees, is_chain, lemma_walk_chain, read_step, walk, LinkRead, LinkTable, Resolver,
};
pub use session::{law_in_order, law_stop_at_failure, law_zero_layers_noop, ArgStatus, Session};
pub use unfold::{
    choose_replacement, copy_ops, entries_distinct, entry_paths_distinct, copy_plan, dir_ops, dir_plan, entry_link, relink_ops,
    relink_plan, replacement_of, revert_ops, revert_plan, settle, validate, NodeKind, Replacement,
};
