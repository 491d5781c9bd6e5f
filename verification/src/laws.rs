//! General properties of the submission store, stated over its rows model
//! and proved once and for all. `Store::store` says that each successful
//! call pushes exactly its pair onto the rows; these laws follow runs of
//! such calls.

use vstd::prelude::*;

verus! {

/// The rows after a run of submissions, each appended in turn — the shape
/// that a run of successful `Store::store` calls gives the table, whatever
/// order the concurrent callers were serialized in.
pub open spec fn rows_after(
    rows: Seq<(Seq<char>, Seq<char>)>,
    subs: Seq<(Seq<char>, Seq<char>)>,
) -> Seq<(Seq<char>, Seq<char>)>
    decreases subs.len(),
{
    if subs.len() == 0 {
        rows
    } else {
        rows_after(rows.push(subs[0]), subs.drop_first())
    }
}

/// Appending a run of submissions in turn is concatenation: the rows from
/// before keep their places, and the submitted pairs follow them in order.
pub proof fn lemma_rows_after_is_concat(
    rows: Seq<(Seq<char>, Seq<char>)>,
    subs: Seq<(Seq<char>, Seq<char>)>,
)
    ensures
        rows_after(rows, subs) == rows + subs,
    decreases subs.len(),
{
    if subs.len() == 0 {
        assert(rows + subs =~= rows);
    } else {
        lemma_rows_after_is_concat(rows.push(subs[0]), subs.drop_first());
        assert(rows.push(subs[0]) + subs.drop_first() =~= rows + subs);
    }
}

/// Each successful submission in a run appends exactly one row: after a run
/// of `n` submissions the table has grown by exactly `n`, the rows from
/// before are unchanged, and each submitted pair stands in its own row, in
/// run order.
pub proof fn lemma_each_submission_one_row(
    rows: Seq<(Seq<char>, Seq<char>)>,
    subs: Seq<(Seq<char>, Seq<char>)>,
)
    ensures
        rows_after(rows, subs).len() == rows.len() + subs.len(),
        forall|i: int| 0 <= i < rows.len() ==> rows_after(rows, subs)[i] == rows[i],
        forall|i: int|
            0 <= i < subs.len() ==> rows_after(rows, subs)[rows.len() + i] == subs[i],
{
    lemma_rows_after_is_concat(rows, subs);
}

/// Two submissions of one and the same pair produce two distinct rows: the
/// table grows by two, and both new places hold that pair — nothing enforces
/// uniqueness.
pub proof fn lemma_duplicate_pairs_kept(
    rows: Seq<(Seq<char>, Seq<char>)>,
    encrypted: Seq<char>,
    captcha: Seq<char>,
)
    ensures
        ({
            let after = rows.push((encrypted, captcha)).push((encrypted, captcha));
            &&& after.len() == rows.len() + 2
            &&& after[rows.len() as int] == (encrypted, captcha)
            &&& after[rows.len() as int + 1] == (encrypted, captcha)
        }),
{
}

} // verus!
