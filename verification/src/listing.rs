//! Enumeration of stored videos: selecting the `.mp4` entries of the library
//! folder's directory listing and presenting them in ascending lexicographic
//! order, as stems (for listing) or as full paths (for batch playback).
use vstd::prelude::*;
use vstd::string::*;

use crate::paths::{is_mp4_name, stem_of, mp4_suffix, is_mp4_file_name, video_stem};
use crate::text::{views_of, lex_sorted, sort_strings};

verus! {

/// Whether a directory entry name is a stored video's file name.
pub open spec fn mp4_pred() -> spec_fn(Seq<char>) -> bool {
    |n: Seq<char>| is_mp4_name(n)
}

/// From an entry name to the video's stem.
pub open spec fn stem_fn() -> spec_fn(Seq<char>) -> Seq<char> {
    |n: Seq<char>| stem_of(n)
}

/// From an entry name to the video's full path inside `folder`.
pub open spec fn path_fn(folder: Seq<char>) -> spec_fn(Seq<char>) -> Seq<char> {
    |n: Seq<char>| folder + "/"@ + n
}

/// The stems of the `.mp4` entries among `names`, in listing order.
pub open spec fn mp4_stems(names: Seq<Seq<char>>) -> Seq<Seq<char>> {
    names.filter(mp4_pred()).map_values(stem_fn())
}

/// The full paths of the `.mp4` entries among `names`, in listing order.
pub open spec fn mp4_paths(folder: Seq<char>, names: Seq<Seq<char>>) -> Seq<Seq<char>> {
    names.filter(mp4_pred()).map_values(path_fn(folder))
}

/// Appending one element to a filtered sequence: the filter keeps or drops
/// exactly that element.
proof fn lemma_filter_push(s: Seq<Seq<char>>, pred: spec_fn(Seq<char>) -> bool, x: Seq<char>)
    ensures
        s.push(x).filter(pred) == if pred(x) {
            s.filter(pred).push(x)
        } else {
            s.filter(pred)
        },
{
    assert(s.push(x) =~= s + seq![x]);
    Seq::filter_distributes_over_add(s, seq![x], pred);
    reveal_with_fuel(Seq::filter, 2);
    assert(seq![x].drop_last() =~= Seq::<Seq<char>>::empty());
    if pred(x) {
        assert(s.filter(pred) + seq![x].filter(pred) =~= s.filter(pred).push(x));
    } else {
        assert(s.filter(pred) + seq![x].filter(pred) =~= s.filter(pred));
    }
}

fn select_mp4_stems(names: &Vec<String>) -> (r: Vec<String>)
    ensures
        views_of(r@) == mp4_stems(views_of(names@)),
{
    let mut out: Vec<String> = Vec::new();
    let mut k: usize = 0;
    while k < names.len()
        invariant
            k <= names.len(),
            views_of(out@) == mp4_stems(views_of(names@).take(k as int)),
        decreases names.len() - k,
    {
        let ghost vn = views_of(names@);
        let ghost before = views_of(out@);
        let name = &names[k];
        if is_mp4_file_name(name.as_str()) {
            let s = video_stem(name.as_str());
            out.push(s);
        }
        proof {
            assert(vn.take(k + 1) =~= vn.take(k as int).push(vn[k as int]));
            lemma_filter_push(vn.take(k as int), mp4_pred(), vn[k as int]);
            if mp4_pred()(vn[k as int]) {
                assert(views_of(out@) =~= before.push(stem_of(vn[k as int])));
                assert(mp4_stems(vn.take(k + 1)) =~= mp4_stems(vn.take(k as int)).push(
                    stem_of(vn[k as int]),
                ));
            } else {
                assert(mp4_stems(vn.take(k + 1)) =~= mp4_stems(vn.take(k as int)));
            }
        }
        k = k + 1;
    }
    proof {
        assert(views_of(names@).take(names@.len() as int) =~= views_of(names@));
    }
    out
}

fn select_mp4_paths(folder: &str, names: &Vec<String>) -> (r: Vec<String>)
    ensures
        views_of(r@) == mp4_paths(folder@, views_of(names@)),
{
    let mut out: Vec<String> = Vec::new();
    let mut k: usize = 0;
    while k < names.len()
        invariant
            k <= names.len(),
            views_of(out@) == mp4_paths(folder@, views_of(names@).take(k as int)),
        decreases names.len() - k,
    {
        let ghost vn = views_of(names@);
        let ghost before = views_of(out@);
        let name = &names[k];
        if is_mp4_file_name(name.as_str()) {
            let p = folder.to_owned().concat("/").concat(name.as_str());
            out.push(p);
        }
        proof {
            assert(vn.take(k + 1) =~= vn.take(k as int).push(vn[k as int]));
            lemma_filter_push(vn.take(k as int), mp4_pred(), vn[k as int]);
            if mp4_pred()(vn[k as int]) {
                assert(views_of(out@) =~= before.push(folder@ + "/"@ + vn[k as int]));
                assert(mp4_paths(folder@, vn.take(k + 1)) =~= mp4_paths(
                    folder@,
                    vn.take(k as int),
                ).push(folder@ + "/"@ + vn[k as int]));
            } else {
                assert(mp4_paths(folder@, vn.take(k + 1)) =~= mp4_paths(
                    folder@,
                    vn.take(k as int),
                ));
            }
        }
        k = k + 1;
    }
    proof {
        assert(views_of(names@).take(names@.len() as int) =~= views_of(names@));
    }
    out
}

/// Lists the stored videos among the folder's entry names: the stems of the
/// `.mp4` entries, sorted ascending lexicographically. Entries with any
/// other extension are excluded; no entries means an empty list, not an
/// error.
pub fn list_videos(names: &Vec<String>) -> (r: Vec<String>)
    ensures
        lex_sorted(views_of(r@)),
        views_of(r@).to_multiset() == mp4_stems(views_of(names@)).to_multiset(),
        names@.len() == 0 ==> r@.len() == 0,
{
    let mut stems = select_mp4_stems(names);
    proof {
        if names@.len() == 0 {
            Seq::lemma_filter_len(views_of(names@), mp4_pred());
        }
    }
    sort_strings(&mut stems);
    proof {
        vstd::seq_lib::to_multiset_len(views_of(stems@));
        vstd::seq_lib::to_multiset_len(mp4_stems(views_of(names@)));
    }
    stems
}

/// The full paths of the stored videos among the folder's entry names,
/// sorted ascending lexicographically: the batch playback order.
pub fn sorted_mp4_paths(folder: &str, names: &Vec<String>) -> (r: Vec<String>)
    ensures
        lex_sorted(views_of(r@)),
        views_of(r@).to_multiset() == mp4_paths(folder@, views_of(names@)).to_multiset(),
{
    let mut full = select_mp4_paths(folder, names);
    sort_strings(&mut full);
    full
}

/// A video stored under a non-empty `stem` is always listed: whenever the
/// folder holds an entry named `<stem>.mp4`, any listing with the contract
/// of `list_videos` over those entry names contains `stem`.
pub proof fn lemma_downloaded_video_is_listed(
    names: Seq<Seq<char>>,
    stem: Seq<char>,
    listed: Seq<Seq<char>>,
)
    requires
        stem.len() > 0,
        names.contains(stem + mp4_suffix()),
        listed.to_multiset() == mp4_stems(names).to_multiset(),
    ensures
        listed.contains(stem),
{
    let full = stem + mp4_suffix();
    assert(mp4_suffix().len() == 4) by {
        reveal_strlit(".mp4");
    }
    assert(is_mp4_name(full)) by {
        assert(full.subrange(full.len() - 4, full.len() as int) =~= mp4_suffix());
    }
    assert(stem_of(full) =~= stem);
    let i = choose|i: int| 0 <= i < names.len() && names[i] == full;
    Seq::lemma_filter_contains(names, mp4_pred(), i);
    let kept = names.filter(mp4_pred());
    let j = choose|j: int| 0 <= j < kept.len() && kept[j] == full;
    assert(mp4_stems(names)[j] == stem);
    assert(mp4_stems(names).contains(stem));
    vstd::seq_lib::to_multiset_contains(mp4_stems(names), stem);
    vstd::seq_lib::to_multiset_contains(listed, stem);
}

} // verus!
