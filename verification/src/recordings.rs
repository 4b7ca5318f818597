//! The finished recordings on disk: selecting the video files out of a
//! directory listing, and ordering them by creation time, newest first.

use vstd::prelude::*;

verus! {

/// A file name refers to a finished recording when it carries the video
/// extension: a final `.mp4` after a non-empty stem.
pub open spec fn is_mp4_name(name: Seq<char>) -> bool {
    &&& name.len() > 4
    &&& name.subrange(name.len() - 4, name.len() as int) == ".mp4"@
}

/// The views of a list of owned file names.
pub open spec fn views_of(names: Seq<String>) -> Seq<Seq<char>> {
    names.map_values(|s: String| s@)
}

/// The sublist of recording names, in their original order.
pub open spec fn mp4_names(names: Seq<Seq<char>>) -> Seq<Seq<char>> {
    names.filter(|n: Seq<char>| is_mp4_name(n))
}

/// Decides whether `name` is the file name of a recording.
pub fn is_recording_name(name: &str) -> (r: bool)
    ensures
        r == is_mp4_name(name@),
{
    proof {
        reveal_strlit(".mp4");
    }
    let n = name.unicode_len();
    if n <= 4 {
        return false;
    }
    let r = name.get_char(n - 4) == '.' && name.get_char(n - 3) == 'm' && name.get_char(n - 2)
        == 'p' && name.get_char(n - 1) == '4';
    proof {
        let tail = name@.subrange(name@.len() - 4, name@.len() as int);
        if r {
            assert(tail =~= ".mp4"@);
        }
        if tail == ".mp4"@ {
            assert(name@[name@.len() - 4] == tail[0]);
            assert(name@[name@.len() - 3] == tail[1]);
            assert(name@[name@.len() - 2] == tail[2]);
            assert(name@[name@.len() - 1] == tail[3]);
        }
    }
    r
}

/// Keeps, in order, the entries of a directory listing that are recordings.
pub fn get_recordings(names: &Vec<String>) -> (r: Vec<String>)
    ensures
        views_of(r@) == mp4_names(views_of(names@)),
{
    let ghost pred = |n: Seq<char>| is_mp4_name(n);
    let ghost all = views_of(names@);
    let mut r: Vec<String> = Vec::new();
    let mut i: usize = 0;
    while i < names.len()
        invariant
            i <= names.len(),
            all == views_of(names@),
            all.len() == names@.len(),
            pred == (|n: Seq<char>| is_mp4_name(n)),
            views_of(r@) == all.take(i as int).filter(pred),
        decreases names.len() - i,
    {
        let name = &names[i];
        let keep = is_recording_name(name.as_str());
        proof {
            reveal_with_fuel(Seq::<_>::filter, 2);
            assert(all.take(i as int + 1).drop_last() =~= all.take(i as int));
            assert(all.take(i as int + 1).last() == name@);
        }
        if keep {
            let ghost r_old = r@;
            r.push(name.clone());
            proof {
                assert(views_of(r@) =~= views_of(r_old).push(name@));
            }
        }
        i = i + 1;
    }
    proof {
        assert(all.take(names@.len() as int) =~= all);
    }
    r
}

/// Orders two recordings by their creation instants so that the newer one
/// comes first: the reverse of the natural order of the timestamps.
pub fn compare_time(a_created: u64, b_created: u64) -> (r: core::cmp::Ordering)
    ensures
        r is Less <==> a_created > b_created,
        r is Equal <==> a_created == b_created,
        r is Greater <==> a_created < b_created,
{
    if a_created > b_created {
        core::cmp::Ordering::Less
    } else if a_created == b_created {
        core::cmp::Ordering::Equal
    } else {
        core::cmp::Ordering::Greater
    }
}

} // verus!
