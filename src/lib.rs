//! A vector whose elements live in fixed-capacity segments, each sized for a
//! backing file of exactly `capacity * size_of::<T>()` bytes.
//!
//! The library decides everything about the contents: where elements go, how
//! a full vector grows (a fresh, page-rounded segment that the live elements
//! move into), what `truncate`, `truncate_first`, `clear` and `pop` leave
//! behind, which byte ranges a prefetch hint covers, and where a new segment's
//! backing file is named. Creating, sizing and deleting the files themselves is
//! left to the surrounding program.

mod error;
mod laws;
mod mmap_vec;
mod segment;
mod segment_builder;
mod stats;
mod utils;
mod vec_builder;

pub use error::{error_message, MmapVecError};
pub use laws::{
    law_clear_idempotent, law_clone_compares_equal, law_eq_ignores_capacity, law_growth,
    law_pops_are_lifo, law_push_pop_interleaving, law_pushes_keep_order, law_reserve, law_truncate, law_truncate_first,
    law_removals_account_for_each_element, lemma_round_up_to, pop_count, popped_n, push_count, pushed_all, run_stack_ops,
    stack_step, StackOp,
};
pub use mmap_vec::{elementwise_eq, growth_capacity, MmapVec};
pub use segment::{cleared, first_truncated, truncated, Segment};
pub use segment_builder::{
    default_store, default_store_path, segment_file_path, DefaultSegmentBuilder, SegmentBuilder, SEGMENT_ID_LEN,
};
pub use utils::{
    check_zst, checked_round_up, elements_per_page, fits_in_bytes, page_elements, page_start,
    reserve_target, reserved_capacity, round_up_to, PrefetchRange,
};
pub use stats::MmapStats;
pub use vec_builder::{default_capacity, MmapVecBuilder};
