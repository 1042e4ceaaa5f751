//! Identifier Decoder.
//!
//! A report names itself with a compound identifier such as
//! `search_songs_main_6bf9824f`: everything up to the second-to-last
//! underscore is the logical benchmark name, the next segment is the
//! branch, and the final segment is the commit hash. Decoding splits
//! on the last two underscores and fails when fewer than two exist.

use vstd::prelude::*;

use crate::DecodedIdentifier;
use crate::errors::ItemError;

verus! {

/// Index of the last `'_'` in `s`, or `-1` when `s` has none.
pub open spec fn last_sep(s: Seq<char>) -> int
    decreases s.len(),
{
    if s.len() == 0 {
        -1
    } else if s[s.len() - 1] == '_' {
        s.len() - 1
    } else {
        last_sep(s.drop_last())
    }
}

/// `last_sep` finds an underscore with none after it, or reports that
/// the sequence holds none at all.
pub proof fn lemma_last_sep_properties(s: Seq<char>)
    ensures
        -1 <= last_sep(s) < s.len(),
        last_sep(s) == -1 ==> forall|k: int| 0 <= k < s.len() ==> (#[trigger] s[k]) != '_',
        last_sep(s) >= 0 ==> last_sep(s) < s.len() && s[last_sep(s)] == '_',
        last_sep(s) >= 0 ==> forall|k: int|
            last_sep(s) < k < s.len() ==> (#[trigger] s[k]) != '_',
    decreases s.len(),
{
    if s.len() == 0 {
    } else if s[s.len() - 1] == '_' {
    } else {
        lemma_last_sep_properties(s.drop_last());
        assert(forall|k: int| 0 <= k < s.len() - 1 ==> s[k] == s.drop_last()[k]);
    }
}

/// An underscore with no underscore after it is exactly where
/// `last_sep` points.
pub proof fn lemma_last_sep_unique(s: Seq<char>, i: int)
    requires
        0 <= i < s.len(),
        s[i] == '_',
        forall|k: int| i < k < s.len() ==> s[k] != '_',
    ensures
        last_sep(s) == i,
{
    lemma_last_sep_properties(s);
    if last_sep(s) == -1 {
        assert(s[i] != '_');
    } else if last_sep(s) < i {
        assert(s[i] != '_');
    } else if last_sep(s) > i {
        assert(s[last_sep(s)] != '_');
    }
}

/// What decoding a compound identifier yields: `None` when the text
/// holds fewer than two underscores, otherwise the benchmark name,
/// the branch and the commit, split on the last two underscores.
pub open spec fn spec_decode(s: Seq<char>) -> Option<(Seq<char>, Seq<char>, Seq<char>)> {
    let j = last_sep(s);
    if j < 0 {
        None
    } else {
        let i = last_sep(s.take(j));
        if i < 0 {
            None
        } else {
            Some((s.take(i), s.subrange(i + 1, j), s.subrange(j + 1, s.len() as int)))
        }
    }
}

/// Index of the last `'_'` strictly before `end`, if any.
fn rfind_sep(s: &str, end: usize) -> (r: Option<usize>)
    requires
        end <= s@.len(),
    ensures
        match r {
            Some(i) => i == last_sep(s@.take(end as int)),
            None => last_sep(s@.take(end as int)) == -1,
        },
{
    let mut k: usize = end;
    while k > 0
        invariant
            k <= end <= s@.len(),
            forall|m: int| k <= m < end ==> s@.take(end as int)[m] != '_',
        decreases k,
    {
        k = k - 1;
        let c = s.get_char(k);
        if c == '_' {
            proof {
                lemma_last_sep_unique(s@.take(end as int), k as int);
            }
            return Some(k);
        }
    }
    proof {
        lemma_last_sep_properties(s@.take(end as int));
        if last_sep(s@.take(end as int)) >= 0 {
            assert(s@.take(end as int)[last_sep(s@.take(end as int))] != '_');
        }
    }
    None
}

impl DecodedIdentifier {
    /// Splits a compound report identifier on its last two
    /// underscores: the final segment is the commit hash, the one
    /// before it the branch, and the remainder the benchmark name.
    /// Fails with `MalformedIdentifier` when fewer than two
    /// underscores exist.
    pub fn decode(name: &str) -> (r: Result<DecodedIdentifier, ItemError>)
        ensures
            match r {
                Ok(d) => spec_decode(name@) == Some((d.benchmark_name@, d.branch@, d.commit@)),
                Err(e) => e == ItemError::MalformedIdentifier && spec_decode(name@) is None,
            },
    {
        let n = name.unicode_len();
        proof {
            assert(name@.take(n as int) =~= name@);
        }
        let j = match rfind_sep(name, n) {
            Some(j) => j,
            None => {
                return Err(ItemError::MalformedIdentifier);
            },
        };
        proof {
            lemma_last_sep_properties(name@);
        }
        let i = match rfind_sep(name, j) {
            Some(i) => i,
            None => {
                return Err(ItemError::MalformedIdentifier);
            },
        };
        proof {
            lemma_last_sep_properties(name@.take(j as int));
        }
        let benchmark_name = String::from_str(name.substring_char(0, i));
        let branch = String::from_str(name.substring_char(i + 1, j));
        let commit = String::from_str(name.substring_char(j + 1, n));
        proof {
            assert(name@.subrange(0, i as int) =~= name@.take(i as int));
        }
        Ok(DecodedIdentifier { benchmark_name, branch, commit })
    }
}

/// Appending `"_" + tail` to any text puts the last underscore right
/// before `tail`, provided `tail` itself holds none.
proof fn lemma_last_sep_of_append(head: Seq<char>, tail: Seq<char>)
    requires
        forall|k: int| 0 <= k < tail.len() ==> tail[k] != '_',
    ensures
        last_sep(head + seq!['_'] + tail) == head.len(),
{
    let s = head + seq!['_'] + tail;
    assert(s[head.len() as int] == '_');
    assert forall|k: int| head.len() < k < s.len() implies s[k] != '_' by {
        assert(s[k] == tail[k - head.len() - 1]);
    }
    lemma_last_sep_unique(s, head.len() as int);
}

/// Round trip: composing `<name>_<branch>_<commit>` and decoding it
/// recovers exactly the original three components, for any branch and
/// commit that do not themselves contain the separator.
pub proof fn lemma_decode_round_trip(name: Seq<char>, branch: Seq<char>, commit: Seq<char>)
    requires
        forall|k: int| 0 <= k < branch.len() ==> branch[k] != '_',
        forall|k: int| 0 <= k < commit.len() ==> commit[k] != '_',
    ensures
        spec_decode(name + seq!['_'] + branch + seq!['_'] + commit) == Some(
            (name, branch, commit),
        ),
{
    let head = name + seq!['_'] + branch;
    let s = head + seq!['_'] + commit;
    lemma_last_sep_of_append(head, commit);
    let j = last_sep(s);
    assert(j == head.len());
    assert(s.take(j) =~= head);
    lemma_last_sep_of_append(name, branch);
    let i = last_sep(s.take(j));
    assert(i == name.len());
    assert(s.take(i) =~= name);
    assert(s.subrange(i + 1, j) =~= branch);
    assert(s.subrange(j + 1, s.len() as int) =~= commit);
}

} // verus!
