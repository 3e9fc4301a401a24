//! Verified call-marshalling core for a WIPI-style native service layer:
//! word codecs, a guest memory arena, kernel services, and an
//! ordinal-indexed dispatch table.

mod arena;
mod base;
mod codec;
mod dispatch;
mod error;
mod kernel;
mod resources;
mod scheduler;
mod timer;
mod utf8_util;

pub use arena::{
    has_nul, lemma_released_handle_rejected, lemma_str_at_terminated, splice, str_at, valid_range,
    Allocation, Arena,
};
pub use base::{WIPICError, WIPICErrorKind, WIPICMemoryId, WIPICResult, WIPICWord};
pub use codec::{
    bytes_eq, decode_i32, encode_i32, i32_as_word, le32_bytes, le64_bytes,
    lemma_i32_word_round_trip, lemma_word_i32_round_trip, word_as_i32, word_of_le,
};
pub use dispatch::{
    arity, fatal_ok, gen_stub, get_kernel_method_table, invoke, invoke_post, is_stub,
    WIPICMethodBody,
};
pub use error::{
    code_of_value, code_value, error_code_of_word, lemma_error_code_round_trip,
    lemma_error_value_round_trip, lemma_error_word_round_trip, word_of_error_code, WIPICErrorCode,
};
pub use kernel::{
    allocate, calloc, combine_timeout, current_time, def_timer, free, get_free_memory,
    get_resource, get_resource_id, get_system_property, get_total_memory, printk,
    property_lookup, set_timer, unset_timer, PropertyLookup, WIPICContext,
    SIMULATED_MEMORY_SIZE,
};
pub use resources::{
    id_lookup, lemma_id_lookup_valid, lemma_leading_separator_ignored, normalized_name, Resource,
    ResourceStore, PATH_SEPARATOR,
};
pub use scheduler::{
    earliest_index, lemma_earliest_fires_first, lemma_earliest_index_bounds,
    lemma_earliest_index_first_min, lemma_single_timer_fires_once,
    lemma_two_timers_fire_in_delay_order, PendingTimer, Scheduler,
};
pub use timer::{
    lemma_timer_bytes_len, lemma_timer_round_trip, read_timer, timer_bytes, timer_of_bytes,
    write_timer, WIPICTimer, TIMER_RECORD_SIZE,
};
pub use utf8_util::{ascii_bytes, lit_bytes};
