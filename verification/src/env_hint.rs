//! Where the bot looks for its `.env` file, and how that list is shown.
//!
//! Reading the environment and the file system stays with the caller: it hands
//! in the override variable's value and the candidate paths (already made
//! canonical where that was possible), as display strings.
use vstd::prelude::*;

use crate::text::{owned, str_eq, trim, trim_str};

verus! {

/// The file name looked for in each directory.
pub open spec fn env_file_name() -> Seq<char> {
    ".env"@
}

/// The override variable's value becomes the first candidate when it is not
/// blank once trimmed.
pub open spec fn override_candidate_spec(value: Option<Seq<char>>) -> Option<Seq<char>> {
    match value {
        Some(v) => if trim(v).len() > 0 {
            Some(trim(v))
        } else {
            None
        },
        None => None,
    }
}

/// The paths in their first-seen order, each kept once.
pub open spec fn dedup_spec(paths: Seq<Seq<char>>) -> Seq<Seq<char>>
    decreases paths.len(),
{
    if paths.len() == 0 {
        seq![]
    } else {
        let kept = dedup_spec(paths.drop_last());
        if kept.contains(paths.last()) {
            kept
        } else {
            kept.push(paths.last())
        }
    }
}

/// One line of the hint.
pub open spec fn hint_line(path: Seq<char>) -> Seq<char> {
    "  - "@ + path
}

/// The lines of the hint, separated by line breaks.
pub open spec fn hint_lines(paths: Seq<Seq<char>>) -> Seq<char>
    decreases paths.len(),
{
    if paths.len() == 0 {
        seq![]
    } else if paths.len() == 1 {
        hint_line(paths[0])
    } else {
        hint_lines(paths.drop_last()) + "\n"@ + hint_line(paths.last())
    }
}

/// The hint: one line per candidate, or the bare file name when the candidates
/// could not be listed.
pub open spec fn environment_hint_spec(candidates: Option<Seq<Seq<char>>>) -> Seq<char> {
    match candidates {
        Some(paths) => hint_lines(paths),
        None => hint_line(env_file_name()),
    }
}

pub open spec fn string_views(v: Seq<String>) -> Seq<Seq<char>> {
    Seq::new(v.len(), |i: int| v[i]@)
}

/// The first candidate, taken from the override variable's value.
pub fn override_candidate(value: Option<&str>) -> (r: Option<String>)
    ensures
        match r {
            Some(s) => override_candidate_spec(
                match value {
                    Some(v) => Some(v@),
                    None => None,
                },
            ) == Some(s@),
            None => override_candidate_spec(
                match value {
                    Some(v) => Some(v@),
                    None => None,
                },
            ) is None,
        },
{
    match value {
        Some(v) => {
            let trimmed = trim_str(v);
            if trimmed.unicode_len() > 0 {
                Some(owned(trimmed))
            } else {
                None
            }
        },
        None => None,
    }
}

/// Whether `paths` holds `candidate`.
fn holds_path(paths: &Vec<String>, candidate: &String) -> (r: bool)
    ensures
        r == string_views(paths@).contains(candidate@),
{
    let mut i: usize = 0;
    while i < paths.len()
        invariant
            i <= paths@.len(),
            forall|j: int| 0 <= j < i ==> paths@[j]@ != candidate@,
        decreases paths@.len() - i,
    {
        if str_eq(paths[i].as_str(), candidate.as_str()) {
            assert(string_views(paths@)[i as int] == candidate@);
            return true;
        }
        i = i + 1;
    }
    proof {
        if string_views(paths@).contains(candidate@) {
            let k = choose|k: int|
                0 <= k < string_views(paths@).len() && string_views(paths@)[k] == candidate@;
            assert(paths@[k]@ == candidate@);
        }
    }
    false
}

/// Keeps the first occurrence of each path, in order.
pub fn deduplicate_paths(paths: Vec<String>) -> (r: Vec<String>)
    ensures
        string_views(r@) == dedup_spec(string_views(paths@)),
{
    let mut result: Vec<String> = Vec::new();
    let mut i: usize = 0;
    let ghost all = string_views(paths@);
    while i < paths.len()
        invariant
            i <= paths@.len(),
            all == string_views(paths@),
            string_views(result@) == dedup_spec(all.take(i as int)),
        decreases paths@.len() - i,
    {
        let path = &paths[i];
        proof {
            let t = all.take(i + 1);
            assert(t.drop_last() =~= all.take(i as int));
            assert(t.last() == path@);
        }
        if !holds_path(&result, path) {
            let copy = owned(path.as_str());
            result.push(copy);
            assert(string_views(result@) =~= dedup_spec(all.take(i as int)).push(path@));
        }
        i = i + 1;
    }
    assert(all.take(i as int) =~= all);
    result
}

/// The list of places that were searched for `.env`, one per line.
pub fn environment_hint(candidates: Option<Vec<String>>) -> (r: String)
    ensures
        r@ == environment_hint_spec(
            match candidates {
                Some(v) => Some(string_views(v@)),
                None => None,
            },
        ),
{
    match candidates {
        None => {
            let mut out = owned("  - ");
            out.append(".env");
            proof {
                reveal_strlit("  - ");
                reveal_strlit(".env");
            }
            out
        },
        Some(paths) => {
            let ghost all = string_views(paths@);
            let mut out = String::new();
            let mut i: usize = 0;
            while i < paths.len()
                invariant
                    i <= paths@.len(),
                    all == string_views(paths@),
                    out@ == hint_lines(all.take(i as int)),
                decreases paths@.len() - i,
            {
                proof {
                    reveal_strlit("  - ");
                    reveal_strlit("\n");
                    let t = all.take(i + 1);
                    assert(t.drop_last() =~= all.take(i as int));
                    assert(t.last() == paths@[i as int]@);
                }
                if i > 0 {
                    out.append("\n");
                }
                out.append("  - ");
                out.append(paths[i].as_str());
                proof {
                    let t = all.take(i + 1);
                    if i == 0 {
                        assert(t.len() == 1);
                        assert(out@ =~= hint_line(t[0]));
                    } else {
                        assert(out@ =~= hint_lines(t.drop_last()) + "\n"@ + hint_line(t.last()));
                    }
                }
                i = i + 1;
            }
            assert(all.take(i as int) =~= all);
            out
        },
    }
}

/// Deduplication keeps every path exactly once: each input path is in the result,
/// the result holds only input paths, and no path appears twice in it.
pub proof fn lemma_dedup_keeps_each_path_once(paths: Seq<Seq<char>>)
    ensures
        forall|k: int| 0 <= k < paths.len() ==> dedup_spec(paths).contains(#[trigger] paths[k]),
        forall|k: int| 0 <= k < dedup_spec(paths).len() ==> paths.contains(#[trigger] dedup_spec(paths)[k]),
        forall|i: int, j: int|
            0 <= i < j < dedup_spec(paths).len() ==> dedup_spec(paths)[i] != dedup_spec(paths)[j],
    decreases paths.len(),
{
    if paths.len() > 0 {
        let front = paths.drop_last();
        let last = paths.last();
        lemma_dedup_keeps_each_path_once(front);
        let kept = dedup_spec(front);
        assert forall|k: int| 0 <= k < paths.len() implies dedup_spec(paths).contains(
            #[trigger] paths[k],
        ) by {
            if k < paths.len() - 1 {
                assert(paths[k] == front[k]);
                let m = choose|m: int| 0 <= m < kept.len() && kept[m] == front[k];
                if !kept.contains(last) {
                    assert(kept.push(last)[m] == kept[m]);
                }
            } else {
                if !kept.contains(last) {
                    assert(kept.push(last)[kept.len() as int] == last);
                }
            }
        }
        assert forall|k: int| 0 <= k < dedup_spec(paths).len() implies paths.contains(
            #[trigger] dedup_spec(paths)[k],
        ) by {
            if k < kept.len() {
                assert(dedup_spec(paths)[k] == kept[k]);
                let m = choose|m: int| 0 <= m < front.len() && front[m] == kept[k];
                assert(paths[m] == front[m]);
            } else {
                assert(dedup_spec(paths)[k] == last);
                assert(paths[paths.len() - 1] == last);
            }
        }
    }
}

} // verus!
