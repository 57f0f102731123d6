//! The refresh counter and its state file.
//!
//! The counter goes up by one before every refresh attempt, whether or not the
//! attempt then succeeds, and is persisted as plain decimal text. Reading the
//! file back yields the stored value, or zero when the file's text is not a
//! decimal number that fits the counter.

use crate::text::{dec_chars, dec_parse, lemma_dec_roundtrip, parse_dec_u64, u64_to_dec_string};
use vstd::prelude::*;

verus! {

/// The counter value that the state file's text stands for: the decimal value
/// of the trimmed text when there is one and it fits, and zero otherwise.
pub open spec fn counter_of_text(s: Seq<char>) -> u32 {
    match dec_parse(s) {
        Some(v) => if v <= u32::MAX as nat {
            v as u32
        } else {
            0
        },
        None => 0,
    }
}

/// The counter value stepped once per trigger.
pub open spec fn counter_after_triggers(start: nat, triggers: nat) -> nat
    decreases triggers,
{
    if triggers == 0 {
        start
    } else {
        counter_after_triggers(start, (triggers - 1) as nat) + 1
    }
}

/// The next counter: one more than the last, regardless of how the last
/// refresh ended.
pub fn next_counter(counter: u32) -> (r: u32)
    requires
        counter < u32::MAX,
    ensures
        r == counter + 1,
        r as nat == counter_after_triggers(counter as nat, 1),
{
    proof {
        assert(counter_after_triggers(counter as nat, 0) == counter as nat);
    }
    counter + 1
}

/// One manual trigger's decision, taken before the pipeline runs and so made
/// whether or not the refresh then succeeds: the stepped counter, and the
/// exact text the state file must hold for it.
pub fn begin_trigger(counter: u32) -> (r: (u32, String))
    requires
        counter < u32::MAX,
    ensures
        r.0 == counter + 1,
        r.1@ == dec_chars((counter + 1) as nat),
        counter_of_text(r.1@) == r.0,
{
    let stepped = next_counter(counter);
    (stepped, counter_file_text(stepped))
}

/// The exact text the state file holds for a counter value.
pub fn counter_file_text(counter: u32) -> (r: String)
    ensures
        r@ == dec_chars(counter as nat),
        counter_of_text(r@) == counter,
{
    proof {
        lemma_dec_roundtrip(counter as nat);
    }
    u64_to_dec_string(counter as u64)
}

/// Reads a counter back from the state file's text: the stored value, or zero
/// for text that is not a decimal number fitting the counter.
pub fn parse_counter_text(s: &str) -> (r: u32)
    ensures
        r == counter_of_text(s@),
{
    match parse_dec_u64(s) {
        Some(v) => {
            if v <= u32::MAX as u64 {
                v as u32
            } else {
                0
            }
        },
        None => 0,
    }
}

/// Law: after any number of triggers the counter stands exactly that many
/// steps above where it started; started at zero, it reads the number of
/// triggers made so far.
pub proof fn lemma_counter_counts_triggers(start: nat, triggers: nat)
    ensures
        counter_after_triggers(start, triggers) == start + triggers,
    decreases triggers,
{
    if triggers > 0 {
        lemma_counter_counts_triggers(start, (triggers - 1) as nat);
    }
}

/// Law: what one trigger persists is read back unchanged — the state file
/// round-trips the counter.
pub proof fn lemma_counter_file_roundtrip(counter: u32)
    ensures
        counter_of_text(dec_chars(counter as nat)) == counter,
{
    lemma_dec_roundtrip(counter as nat);
}

} // verus!
