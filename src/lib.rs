//! Placement of a small overlay beside the user's point of text input.
//!
//! The library holds the decisions: where the overlay goes given the caret
//! and pointer readings, how the accessibility queries that locate the caret
//! proceed, and which language the active input source stands for. Reading
//! the operating system and moving the window are left to the caller.

mod caret;
mod language;
mod position;

pub use position::{
    CursorPosition, get_best_position_logic, lemma_placement_is_repeatable,
    obeys_placement_policy, caret_is_plausible, manhattan, caret_anchor, pointer_anchor,
    default_anchor, CARET_MIN, STALE_DISTANCE, CARET_OFFSET, POINTER_OFFSET, DEFAULT_X,
    DEFAULT_Y,
};
pub use caret::{
    CaretQuery, AxReply, CaretProbe, query_after, caret_step, caret_probe_start,
    get_caret_position, run_lookup, copy_succeeded, lemma_caret_found_only_after_full_chain,
};
pub use language::{
    LanguageTag, tag_code, occurs_at, has_substring, is_korean_source, language_of,
    contains_text, classify_input_source, lower_of, InputSourceNames, shown, diagnostic,
    get_mac_input_language,
};
