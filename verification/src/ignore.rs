//! The ignore-list merger: given the lines of an ignore file and an entry,
//! compute the minimal edit that makes the entry present exactly once.
//!
//! A file is classified fresh on every call into one of three states —
//! entry already present, managed-block marker present but entry absent,
//! neither marker nor entry — and a fourth terminal case when the file does
//! not exist at all. Only the two "entry absent" states produce new content
//! to write back.

use vstd::prelude::*;

use crate::text::is_blank_line;
use crate::text::occurs_at;
use crate::text::occurs_in;
use crate::text::str_contains;
use crate::text::str_is_blank;

verus! {

/// The text scanned for, and written, to mark the block of lines this tool
/// manages inside the ignore file.
pub open spec fn marker_line() -> Seq<char> {
    "# Generated by nanobot"@
}

/// A line is the managed-block marker when it is exactly the marker comment.
pub open spec fn is_marker(l: Seq<char>) -> bool {
    l == marker_line()
}

/// Some line of the file already includes `entry` as a substring.
pub open spec fn entry_present(lines: Seq<Seq<char>>, entry: Seq<char>) -> bool {
    exists|k: int| 0 <= k < lines.len() && occurs_in(#[trigger] lines[k], entry)
}

/// Some line of the file is the managed-block marker.
pub open spec fn has_marker(lines: Seq<Seq<char>>) -> bool {
    exists|k: int| 0 <= k < lines.len() && is_marker(#[trigger] lines[k])
}

/// Index of the most recent (last) marker line, or -1 when there is none.
pub open spec fn last_marker(lines: Seq<Seq<char>>) -> int
    decreases lines.len(),
{
    if lines.len() == 0 {
        -1
    } else if is_marker(lines[lines.len() - 1]) {
        lines.len() - 1
    } else {
        last_marker(lines.drop_last())
    }
}

/// The file ends in a blank line.
pub open spec fn ends_blank(lines: Seq<Seq<char>>) -> bool {
    lines.len() > 0 && is_blank_line(lines[lines.len() - 1])
}

/// Content after inserting `entry` as a new line immediately after the most
/// recent marker line.
pub open spec fn inserted_lines(lines: Seq<Seq<char>>, entry: Seq<char>) -> Seq<Seq<char>> {
    lines.insert(last_marker(lines) + 1, entry)
}

/// Content after appending a fresh managed block at the end of the file: a
/// blank separator line (only when the file does not already end blank),
/// the marker comment, then the entry.
pub open spec fn appended_lines(lines: Seq<Seq<char>>, entry: Seq<char>) -> Seq<Seq<char>> {
    if ends_blank(lines) {
        lines + seq![marker_line(), entry]
    } else {
        lines + seq![Seq::<char>::empty(), marker_line(), entry]
    }
}

/// How a merge attempt ended.
#[derive(Clone, Copy, Debug, PartialEq, Eq, Structural)]
pub enum MergeOutcome {
    /// The entry was already present; the file was left alone.
    Found,
    /// A managed block existed; the entry was inserted right after its marker.
    InsertedIntoBlock,
    /// No managed block existed; a new one was appended at the end.
    AppendedNewBlock,
    /// There is no ignore file; nothing was done.
    NoFile,
}

/// The outcome of classifying an existing file's lines.
pub open spec fn merge_outcome_spec(lines: Seq<Seq<char>>, entry: Seq<char>) -> MergeOutcome {
    if entry_present(lines, entry) {
        MergeOutcome::Found
    } else if has_marker(lines) {
        MergeOutcome::InsertedIntoBlock
    } else {
        MergeOutcome::AppendedNewBlock
    }
}

/// The content to write back for an existing file, or `None` when the file
/// is already satisfied.
pub open spec fn merge_write_spec(lines: Seq<Seq<char>>, entry: Seq<char>) -> Option<
    Seq<Seq<char>>,
> {
    if entry_present(lines, entry) {
        None
    } else if has_marker(lines) {
        Some(inserted_lines(lines, entry))
    } else {
        Some(appended_lines(lines, entry))
    }
}

/// What one merge attempt decided: the outcome tag, and the whole new file
/// content when (and only when) a write is needed.
pub struct MergePlan {
    pub outcome: MergeOutcome,
    pub write: Option<Vec<String>>,
}

/// The file content after a merge attempt: the new content when a write was
/// needed, the old content otherwise.
pub open spec fn merged_file(lines: Seq<Seq<char>>, entry: Seq<char>) -> Seq<Seq<char>> {
    match merge_write_spec(lines, entry) {
        Some(w) => w,
        None => lines,
    }
}

/// No two distinct lines of the file are both the managed-block marker.
pub open spec fn marker_unique(lines: Seq<Seq<char>>) -> bool {
    forall|i: int, j: int|
        0 <= i < lines.len() && 0 <= j < lines.len() && is_marker(#[trigger] lines[i])
            && is_marker(#[trigger] lines[j]) ==> i == j
}

/// Relates the most recent marker index tracked by the scan to `last_marker`.
proof fn lemma_last_marker_push(lines: Seq<Seq<char>>, l: Seq<char>)
    ensures
        last_marker(lines.push(l)) == if is_marker(l) {
            lines.len() as int
        } else {
            last_marker(lines)
        },
{
    let p = lines.push(l);
    assert(p.len() == lines.len() + 1);
    assert(p[p.len() - 1] == l);
    assert(p.drop_last() =~= lines);
}

/// `last_marker` finds the last marker when one exists, and -1 otherwise.
pub proof fn lemma_last_marker_bounds(lines: Seq<Seq<char>>)
    ensures
        has_marker(lines) <==> 0 <= last_marker(lines) < lines.len(),
        has_marker(lines) ==> is_marker(lines[last_marker(lines)]),
        !has_marker(lines) ==> last_marker(lines) == -1,
        forall|k: int| last_marker(lines) < k < lines.len() ==> !is_marker(#[trigger] lines[k]),
    decreases lines.len(),
{
    if lines.len() > 0 {
        lemma_last_marker_bounds(lines.drop_last());
        if is_marker(lines[lines.len() - 1]) {
        } else {
            assert(lines.drop_last() =~= lines.subrange(0, lines.len() - 1));
            if has_marker(lines) {
                let k = choose|k: int| 0 <= k < lines.len() && is_marker(lines[k]);
                assert(k < lines.len() - 1);
                assert(lines.drop_last()[k] == lines[k]);
                assert(has_marker(lines.drop_last()));
            }
            if has_marker(lines.drop_last()) {
                let k = last_marker(lines.drop_last());
                assert(lines.drop_last()[k] == lines[k]);
                assert(has_marker(lines));
            }
            assert forall|k: int| last_marker(lines) < k < lines.len() implies !is_marker(
                #[trigger] lines[k],
            ) by {
                if k < lines.len() - 1 {
                    assert(lines.drop_last()[k] == lines[k]);
                }
            }
        }
    }
}

/// Compute the merge decision for one entry against the current lines of
/// the ignore file (`None` when the file does not exist). The entry must be
/// a single line. No write happens here: when `write` is `Some`, the caller
/// is expected to replace the whole file with those lines.
pub fn ensure_entry(file: Option<&Vec<String>>, entry: &String) -> (r: MergePlan)
    requires
        !entry@.contains('\n'),
    ensures
        file is None ==> r.outcome == MergeOutcome::NoFile && r.write is None,
        file matches Some(lines) ==> {
            &&& r.outcome == merge_outcome_spec(lines.deep_view(), entry@)
            &&& r.write.deep_view() == merge_write_spec(lines.deep_view(), entry@)
        },
{
    match file {
        None => MergePlan { outcome: MergeOutcome::NoFile, write: None },
        Some(lines) => {
            let ghost ls = lines.deep_view();
            let n = lines.len();
            let marker = String::from_str("# Generated by nanobot");
            let mut found = false;
            let mut mark_at: Option<usize> = None;
            let mut i: usize = 0;
            proof {
                assert(ls.subrange(0, 0) =~= Seq::<Seq<char>>::empty());
            }
            while i < n
                invariant
                    n == lines.len(),
                    ls == lines.deep_view(),
                    marker@ == marker_line(),
                    i <= n,
                    found == entry_present(ls.subrange(0, i as int), entry@),
                    mark_at is None ==> last_marker(ls.subrange(0, i as int)) == -1,
                    mark_at matches Some(m) ==> m < i && last_marker(ls.subrange(0, i as int))
                        == m as int,
                decreases n - i,
            {
                let ghost prefix = ls.subrange(0, i as int);
                let line: &String = &lines[i];
                proof {
                    assert(ls[i as int] == lines@[i as int]@);
                    assert(ls.subrange(0, i + 1 as int) =~= prefix.push(line@));
                }
                if str_contains(line.as_str(), entry.as_str()) {
                    found = true;
                }
                proof {
                    if entry_present(prefix, entry@) {
                        let k = choose|k: int|
                            0 <= k < prefix.len() && occurs_in(#[trigger] prefix[k], entry@);
                        assert(ls.subrange(0, i + 1 as int)[k] == prefix[k]);
                        assert(entry_present(ls.subrange(0, i + 1 as int), entry@));
                    }
                    if entry_present(ls.subrange(0, i + 1 as int), entry@) {
                        let k = choose|k: int|
                            0 <= k < i + 1 && occurs_in(
                                #[trigger] ls.subrange(0, i + 1 as int)[k],
                                entry@,
                            );
                        if k < i {
                            assert(prefix[k] == ls.subrange(0, i + 1 as int)[k]);
                            assert(entry_present(prefix, entry@));
                        } else {
                            assert(ls.subrange(0, i + 1 as int)[k] == line@);
                        }
                    }
                }
                if line.eq(&marker) {
                    mark_at = Some(i);
                }
                proof {
                    lemma_last_marker_push(prefix, line@);
                }
                i = i + 1;
            }
            proof {
                assert(ls.subrange(0, n as int) =~= ls);
                lemma_last_marker_bounds(ls);
            }
            if found {
                MergePlan { outcome: MergeOutcome::Found, write: None }
            } else {
                match mark_at {
                    Some(m) => {
                        let mut out = lines.clone();
                        proof {
                            assert(out.deep_view() =~= ls);
                        }
                        out.insert(m + 1, entry.clone());
                        proof {
                            assert(out.deep_view() =~= inserted_lines(ls, entry@));
                        }
                        MergePlan { outcome: MergeOutcome::InsertedIntoBlock, write: Some(out) }
                    },
                    None => {
                        let mut out = lines.clone();
                        proof {
                            assert(out.deep_view() =~= ls);
                        }
                        let blank_end = if n > 0 {
                            str_is_blank(lines[n - 1].as_str())
                        } else {
                            false
                        };
                        proof {
                            assert(blank_end == ends_blank(ls));
                        }
                        if !blank_end {
                            out.push(String::new());
                        }
                        out.push(marker);
                        out.push(entry.clone());
                        proof {
                            assert(out.deep_view() =~= appended_lines(ls, entry@));
                        }
                        MergePlan { outcome: MergeOutcome::AppendedNewBlock, write: Some(out) }
                    },
                }
            }
        },
    }
}

/// Every run of characters occurs in itself, at position zero.
proof fn lemma_occurs_in_self(s: Seq<char>)
    ensures
        occurs_in(s, s),
{
    assert(s.subrange(0, s.len() as int) =~= s);
    assert(occurs_at(s, s, 0));
}

/// `last_marker` is the position of a marker that nothing follows.
proof fn lemma_last_marker_is(lines: Seq<Seq<char>>, p: int)
    requires
        0 <= p < lines.len(),
        is_marker(lines[p]),
        forall|k: int| p < k < lines.len() ==> !is_marker(#[trigger] lines[k]),
    ensures
        last_marker(lines) == p,
    decreases lines.len(),
{
    if p == lines.len() - 1 {
    } else {
        assert(!is_marker(lines[lines.len() - 1]));
        assert(forall|k: int|
            p < k < lines.drop_last().len() ==> !is_marker(#[trigger] lines.drop_last()[k]));
        lemma_last_marker_is(lines.drop_last(), p);
    }
}

/// Law: after a merge attempt on an existing file, the resulting content —
/// written back or left alone — contains a line that includes the entry as
/// a substring.
pub proof fn lemma_merge_satisfies(lines: Seq<Seq<char>>, entry: Seq<char>)
    ensures
        entry_present(merged_file(lines, entry), entry),
{
    let m = merged_file(lines, entry);
    lemma_occurs_in_self(entry);
    if entry_present(lines, entry) {
    } else if has_marker(lines) {
        lemma_last_marker_bounds(lines);
        let p = last_marker(lines) + 1;
        lines.insert_ensures(p, entry);
        assert(m[p] == entry);
        assert(entry_present(m, entry));
    } else {
        assert(m[m.len() - 1] == entry);
        assert(entry_present(m, entry));
    }
}

/// Law: the merge is idempotent. Once a merge attempt has produced new
/// content, a second attempt with the same entry classifies the file as
/// satisfied and writes nothing, so the content stays identical.
pub proof fn lemma_merge_idempotent(lines: Seq<Seq<char>>, entry: Seq<char>)
    ensures
        merge_outcome_spec(merged_file(lines, entry), entry) == MergeOutcome::Found,
        merge_write_spec(merged_file(lines, entry), entry) is None,
        merged_file(merged_file(lines, entry), entry) == merged_file(lines, entry),
{
    lemma_merge_satisfies(lines, entry);
}

/// Law: a merge never duplicates the managed-block marker. When the file
/// has at most one marker line and the entry is not itself the marker
/// comment, the merged content still has at most one marker line; when the
/// file had none and content was appended, it gains exactly one.
pub proof fn lemma_merge_marker_unique(lines: Seq<Seq<char>>, entry: Seq<char>)
    requires
        marker_unique(lines),
        entry != marker_line(),
    ensures
        marker_unique(merged_file(lines, entry)),
        !entry_present(lines, entry) && !has_marker(lines) ==> has_marker(
            merged_file(lines, entry),
        ),
{
    let m = merged_file(lines, entry);
    if entry_present(lines, entry) {
    } else if has_marker(lines) {
        lemma_last_marker_bounds(lines);
        let p = last_marker(lines) + 1;
        lines.insert_ensures(p, entry);
        assert forall|i: int, j: int|
            0 <= i < m.len() && 0 <= j < m.len() && is_marker(#[trigger] m[i]) && is_marker(
                #[trigger] m[j],
            ) implies i == j by {
            assert(m[p] == entry);
            if i < p {
                assert(m[i] == lines[i]);
            } else if i > p {
                assert(m[i] == lines[i - 1]);
            }
            if j < p {
                assert(m[j] == lines[j]);
            } else if j > p {
                assert(m[j] == lines[j - 1]);
            }
        }
    } else {
        reveal_strlit("# Generated by nanobot");
        assert(marker_line().len() == 22);
        let base = if ends_blank(lines) {
            lines.len() as int
        } else {
            lines.len() + 1 as int
        };
        assert(m[base] == marker_line());
        assert forall|i: int, j: int|
            0 <= i < m.len() && 0 <= j < m.len() && is_marker(#[trigger] m[i]) && is_marker(
                #[trigger] m[j],
            ) implies i == j by {
            assert(forall|k: int| 0 <= k < lines.len() ==> m[k] == lines[k]);
            assert(m[m.len() - 1] == entry);
            if !ends_blank(lines) {
                assert(m[lines.len() as int] =~= Seq::<char>::empty());
                assert(!is_marker(m[lines.len() as int]));
            }
            assert(i == base && j == base);
        }
        assert(has_marker(m));
    }
}

/// Law: two successive merges against a file whose managed block exists but
/// holds neither entry insert both entries directly after the marker line:
/// the second entry right after the marker, the first just below it, with
/// every other line preserved and each entry appearing as exactly one line.
pub proof fn lemma_merge_two_entries(lines: Seq<Seq<char>>, e1: Seq<char>, e2: Seq<char>)
    requires
        has_marker(lines),
        !entry_present(lines, e1),
        e1 != e2,
        !entry_present(inserted_lines(lines, e1), e2),
    ensures
        ({
            let p = last_marker(lines);
            let w2 = merged_file(merged_file(lines, e1), e2);
            &&& merge_outcome_spec(lines, e1) == MergeOutcome::InsertedIntoBlock
            &&& merge_outcome_spec(merged_file(lines, e1), e2) == MergeOutcome::InsertedIntoBlock
            &&& w2 == lines.insert(p + 1, e1).insert(p + 1, e2)
            &&& is_marker(w2[p])
            &&& w2[p + 1] == e2
            &&& w2[p + 2] == e1
            &&& forall|k: int| 0 <= k <= p ==> #[trigger] w2[k] == lines[k]
            &&& forall|k: int| p + 2 < k < w2.len() ==> #[trigger] w2[k] == lines[k - 2]
            &&& forall|k: int| 0 <= k < w2.len() ==> (w2[k] == e1 <==> k == p + 2)
            &&& forall|k: int| 0 <= k < w2.len() ==> (w2[k] == e2 <==> k == p + 1)
        }),
{
    lemma_last_marker_bounds(lines);
    let p = last_marker(lines);
    let w1 = merged_file(lines, e1);
    lines.insert_ensures(p + 1, e1);
    assert(w1 == lines.insert(p + 1, e1));
    // The marker in `lines` occurs in itself, so e1 cannot be the marker
    // comment: a file whose marker line contained e1 would satisfy e1.
    lemma_occurs_in_self(lines[p]);
    assert(e1 != marker_line());
    // The last marker of w1 is still p: everything past p is either e1 or a
    // line of `lines` past p, none of which is a marker.
    assert(is_marker(w1[p]));
    assert forall|k: int| p < k < w1.len() implies !is_marker(#[trigger] w1[k]) by {
        if k > p + 1 {
            assert(w1[k] == lines[k - 1]);
        }
    }
    lemma_last_marker_is(w1, p);
    assert(has_marker(w1));
    let w2 = merged_file(w1, e2);
    w1.insert_ensures(p + 1, e2);
    assert(w2 == w1.insert(p + 1, e2));
    lemma_occurs_in_self(e1);
    lemma_occurs_in_self(e2);
    assert(w2[p + 1] == e2);
    assert(w2[p + 2] == w1[p + 1]);
    assert forall|k: int| 0 <= k <= p implies #[trigger] w2[k] == lines[k] by {
        assert(w2[k] == w1[k]);
    }
    assert forall|k: int| p + 2 < k < w2.len() implies #[trigger] w2[k] == lines[k - 2] by {
        assert(w2[k] == w1[k - 1]);
        assert(w1[k - 1] == lines[k - 2]);
    }
    // e1 appears only as the line at p + 2, e2 only as the line at p + 1:
    // any other line is a line of the original file, which would otherwise
    // already have satisfied the entry.
    assert forall|k: int| 0 <= k < w2.len() implies (w2[k] == e1 <==> k == p + 2) by {
        if k < p + 1 {
            assert(w2[k] == lines[k]);
            if w2[k] == e1 {
                assert(occurs_in(lines[k], e1));
            }
        } else if k == p + 1 {
            assert(w2[k] == e2);
            if w2[k] == e1 {
                lemma_occurs_in_self(e1);
                assert(occurs_in(w1[p + 1], e1));
            }
        } else if k > p + 2 {
            assert(w2[k] == lines[k - 2]);
            if w2[k] == e1 {
                assert(occurs_in(lines[k - 2], e1));
            }
        }
    }
    assert forall|k: int| 0 <= k < w2.len() implies (w2[k] == e2 <==> k == p + 1) by {
        if k <= p {
            assert(w2[k] == lines[k]);
            assert(w1[k] == lines[k]);
            if w2[k] == e2 {
                assert(occurs_in(w1[k], e2));
                assert(entry_present(w1, e2));
            }
        } else if k == p + 2 {
            assert(w2[k] == e1);
        } else if k > p + 2 {
            assert(w2[k] == w1[k - 1]);
            if w2[k] == e2 {
                assert(occurs_in(w1[k - 1], e2));
                assert(entry_present(w1, e2));
            }
        }
    }
}

} // verus!
