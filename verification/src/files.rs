//! Wallpaper file naming and the staleness rule behind cleanup.
//!
//! Every file a refresh writes is named `wallpaper_<counter>` plus an
//! extension. After a refresh with counter `K` succeeds, every file whose stem
//! carries a counter strictly below `K` is stale and gets deleted; stems that
//! do not match the pattern, and counters at or above `K`, are left alone.

use crate::text::{
    all_digits, dec_chars, dec_val, lemma_dec_roundtrip, parse_digits_range, u64_to_dec_string,
};
use vstd::prelude::*;

verus! {

/// The stem prefix every wallpaper file name starts with.
pub open spec fn file_prefix() -> Seq<char> {
    "wallpaper_"@
}

/// The counter a file stem carries: the decimal value after the prefix, when
/// the stem is the prefix followed by a nonempty digit run whose value fits
/// the counter; any other stem carries none and is ignored.
pub open spec fn parse_stem_spec(stem: Seq<char>) -> Option<u32> {
    let p = file_prefix();
    if stem.len() > p.len() && stem.take(p.len() as int) == p {
        let digits = stem.skip(p.len() as int);
        if all_digits(digits) && dec_val(digits) <= u32::MAX as nat {
            Some(dec_val(digits) as u32)
        } else {
            None
        }
    } else {
        None
    }
}

/// A stem is stale for the current counter exactly when it carries a counter
/// strictly below it.
pub open spec fn is_stale(stem: Seq<char>, counter: u32) -> bool {
    parse_stem_spec(stem) matches Some(n) && n < counter
}

/// The stem of the files written for a counter value.
pub open spec fn stem_chars(counter: u32) -> Seq<char> {
    file_prefix() + dec_chars(counter as nat)
}

/// Builds the stem `wallpaper_<counter>`.
pub fn wallpaper_stem(counter: u32) -> (r: String)
    ensures
        r@ == stem_chars(counter),
{
    let mut s = String::from_str("wallpaper_");
    let digits = u64_to_dec_string(counter as u64);
    s.append(digits.as_str());
    s
}

/// Builds the full file name `wallpaper_<counter>.<ext>`.
pub fn wallpaper_file_name(counter: u32, ext: &str) -> (r: String)
    ensures
        r@ == stem_chars(counter) + "."@ + ext@,
{
    let mut s = wallpaper_stem(counter);
    s.append(".");
    s.append(ext);
    s
}

/// Reads the counter out of a file stem, exactly as the staleness rule sees
/// it.
pub fn parse_wallpaper_stem(stem: &str) -> (r: Option<u32>)
    ensures
        r == parse_stem_spec(stem@),
{
    let p = "wallpaper_";
    proof {
        reveal_strlit("wallpaper_");
    }
    let plen: usize = p.unicode_len();
    let len: usize = stem.unicode_len();
    if len <= plen {
        return None;
    }
    let mut i: usize = 0;
    while i < plen
        invariant
            0 <= i <= plen,
            p@ == file_prefix(),
            plen == p@.len(),
            plen < len == stem@.len(),
            forall|j: int| 0 <= j < i ==> stem@[j] == p@[j],
        decreases plen - i,
    {
        if stem.get_char(i) != p.get_char(i) {
            proof {
                reveal_strlit("wallpaper_");
                let fp = file_prefix();
                assert(p@ =~= fp);
                assert(stem@.take(fp.len() as int)[i as int] == stem@[i as int]);
                assert(stem@[i as int] != fp[i as int]);
                assert(stem@.take(fp.len() as int) != fp);
            }
            return None;
        }
        i = i + 1;
    }
    proof {
        assert(stem@.take(plen as int) =~= p@);
    }
    match parse_digits_range(stem, plen, len) {
        Some(v) => {
            proof {
                assert(stem@.subrange(plen as int, len as int) =~= stem@.skip(plen as int));
            }
            if v <= u32::MAX as u64 {
                Some(v as u32)
            } else {
                None
            }
        },
        None => {
            proof {
                assert(stem@.subrange(plen as int, len as int) =~= stem@.skip(plen as int));
            }
            None
        },
    }
}

/// Marks each stem of a directory listing: `true` exactly for the stems the
/// cleanup after a refresh with the given counter must delete. Stems that do
/// not match the naming pattern, and stems whose counter is at or above the
/// current one, are marked `false` and so survive every cleanup.
pub fn stale_marks(stems: &Vec<String>, counter: u32) -> (r: Vec<bool>)
    ensures
        r@.len() == stems@.len(),
        forall|i: int| 0 <= i < stems@.len() ==> r@[i] == is_stale(stems@[i]@, counter),
{
    let mut r: Vec<bool> = Vec::new();
    let mut i: usize = 0;
    while i < stems.len()
        invariant
            0 <= i <= stems@.len(),
            r@.len() == i,
            forall|j: int| 0 <= j < i ==> r@[j] == is_stale(stems@[j]@, counter),
        decreases stems@.len() - i,
    {
        let stale = match parse_wallpaper_stem(stems[i].as_str()) {
            Some(n) => n < counter,
            None => false,
        };
        r.push(stale);
        i = i + 1;
    }
    r
}

/// Law: the stem written for counter `n` carries exactly `n`, so after a
/// refresh with counter `k` the cleanup deletes the files of every earlier
/// counter and keeps the file just written and every later one.
pub proof fn lemma_named_file_staleness(n: u32, k: u32)
    ensures
        parse_stem_spec(stem_chars(n)) == Some(n),
        is_stale(stem_chars(n), k) <==> n < k,
{
    reveal_strlit("wallpaper_");
    lemma_dec_roundtrip(n as nat);
    let p = file_prefix();
    let d = dec_chars(n as nat);
    assert((p + d).take(p.len() as int) =~= p);
    assert((p + d).skip(p.len() as int) =~= d);
}

} // verus!
