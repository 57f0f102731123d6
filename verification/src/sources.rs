//! The candidate image sources and their once-per-refresh shuffle.

use rand::seq::SliceRandom;
use vstd::prelude::*;

verus! {

/// The fixed list of random-image endpoints, in its unshuffled order.
pub open spec fn default_source_list() -> Seq<Seq<char>> {
    seq![
        "https://minimalistic-wallpaper.demolab.com/?random"@,
        "https://source.unsplash.com/random/1920x1080"@,
        "https://picsum.photos/1920/1080"@,
        "https://images.pexels.com/photos/random/1920/1080"@,
    ]
}

/// The fixed candidate sources, in their unshuffled order.
pub fn default_sources() -> (r: Vec<String>)
    ensures
        r.deep_view() == default_source_list(),
{
    let mut v: Vec<String> = Vec::new();
    v.push(String::from_str("https://minimalistic-wallpaper.demolab.com/?random"));
    v.push(String::from_str("https://source.unsplash.com/random/1920x1080"));
    v.push(String::from_str("https://picsum.photos/1920/1080"));
    v.push(String::from_str("https://images.pexels.com/photos/random/1920/1080"));
    proof {
        assert(v.deep_view() =~= default_source_list());
    }
    v
}

/// Relies on rand::seq::SliceRandom::shuffle driven by rand::rng: it permutes
/// the list in place, every permutation equally likely. Which permutation
/// comes back depends on the thread-local generator, so only what holds of
/// every outcome is stated: the same sources, each exactly as often as before.
#[verifier::external_body]
fn shuffle_in_place(urls: &mut Vec<String>)
    ensures
        final(urls)@.len() == old(urls)@.len(),
        final(urls).deep_view().to_multiset() == old(urls).deep_view().to_multiset(),
{
    urls.shuffle(&mut rand::rng());
}

/// The candidate list one refresh walks: the fixed sources, permuted once per
/// refresh invocation, never between the attempts of one refresh.
pub fn shuffled_sources() -> (r: Vec<String>)
    ensures
        r.deep_view().to_multiset() == default_source_list().to_multiset(),
        r@.len() == default_source_list().len(),
{
    let mut v = default_sources();
    proof {
        assert(v.deep_view().len() == v@.len());
    }
    shuffle_in_place(&mut v);
    proof {
        assert(v.deep_view().len() == v@.len());
        v.deep_view().to_multiset_ensures();
        default_source_list().to_multiset_ensures();
    }
    v
}

} // verus!
