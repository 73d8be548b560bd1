use vstd::prelude::*;

use crate::collector::{
    output_of, path_relative_to, section, section_of, skipped_of, Candidate, FileFault, Skipped,
};
use crate::selector::selected;

verus! {

/// The output of two runs of candidates, one after the other, is the output of the
/// first followed by the output of the second.
pub proof fn lemma_output_concat(a: Seq<Candidate>, b: Seq<Candidate>, base: Seq<char>)
    ensures
        output_of(a + b, base) == output_of(a, base) + output_of(b, base),
    decreases b.len(),
{
    if b.len() == 0 {
        assert(a + b =~= a);
        assert(output_of(a, base) + output_of(b, base) =~= output_of(a, base));
    } else {
        assert((a + b).drop_last() =~= a + b.drop_last());
        assert((a + b).last() == b.last());
        lemma_output_concat(a, b.drop_last(), base);
        assert(output_of(a + b, base) =~= output_of(a, base) + output_of(b, base));
    }
}

proof fn lemma_output_single(c: Candidate, base: Seq<char>)
    ensures
        output_of(seq![c], base) == section_of(c, base),
{
    let none = seq![c].drop_last();
    assert(none.len() == 0);
    assert(output_of(none, base) == Seq::<char>::empty());
    assert(output_of(seq![c], base) =~= section_of(c, base));
}

proof fn lemma_output_split(cands: Seq<Candidate>, base: Seq<char>, i: int)
    requires
        0 <= i < cands.len(),
    ensures
        output_of(cands, base) == output_of(cands.take(i), base) + section_of(cands[i], base)
            + output_of(cands.skip(i + 1), base),
{
    assert(cands =~= cands.take(i) + seq![cands[i]] + cands.skip(i + 1));
    lemma_output_concat(cands.take(i) + seq![cands[i]], cands.skip(i + 1), base);
    lemma_output_concat(cands.take(i), seq![cands[i]], base);
    lemma_output_single(cands[i], base);
}

proof fn lemma_skipped_kept(cands: Seq<Candidate>, base: Seq<char>, k: int)
    requires
        0 <= k <= cands.len(),
    ensures
        forall|s: Skipped|
            skipped_of(cands.take(k), base).contains(s) ==> skipped_of(cands, base).contains(s),
    decreases cands.len(),
{
    if k == cands.len() {
        assert(cands.take(k) =~= cands);
    } else {
        assert(cands.drop_last().take(k) =~= cands.take(k));
        lemma_skipped_kept(cands.drop_last(), base, k);
        let rest = skipped_of(cands.drop_last(), base);
        assert forall|s: Skipped|
            skipped_of(cands.take(k), base).contains(s) implies skipped_of(cands, base).contains(
            s,
        ) by {
            assert(skipped_of(cands.drop_last().take(k), base).contains(s));
            assert(rest.contains(s));
            let j = choose|j: int| 0 <= j < rest.len() && rest[j] == s;
            assert(skipped_of(cands, base)[j] == s);
        }
    }
}

/// A target file whose contents `C` were read and whose path relative to the base
/// directory is `R` appears in the output as its whole section: `## R`, a fence, `C`
/// verbatim, a closing fence and a blank line, in one piece.
pub proof fn lemma_section_in_output(
    cands: Seq<Candidate>,
    base: Seq<char>,
    i: int,
    rel: Seq<char>,
)
    requires
        0 <= i < cands.len(),
        selected(cands[i].path@),
        cands[i].content is Ok,
        path_relative_to(cands[i].path@, base) == Some(rel),
    ensures
        exists|before: Seq<char>, after: Seq<char>|
            output_of(cands, base) == before + section(rel, cands[i].content->Ok_0@) + after,
{
    lemma_output_split(cands, base, i);
    let before = output_of(cands.take(i), base);
    let after = output_of(cands.skip(i + 1), base);
    assert(output_of(cands, base) == before + section(rel, cands[i].content->Ok_0@) + after);
}

/// Where no candidate is a target file, the output is empty and nothing is skipped.
pub proof fn lemma_no_targets(cands: Seq<Candidate>, base: Seq<char>)
    requires
        forall|i: int| 0 <= i < cands.len() ==> !selected(#[trigger] cands[i].path@),
    ensures
        output_of(cands, base) == Seq::<char>::empty(),
        skipped_of(cands, base) == Seq::<Skipped>::empty(),
    decreases cands.len(),
{
    if cands.len() > 0 {
        let rest = cands.drop_last();
        assert forall|i: int| 0 <= i < rest.len() implies !selected(#[trigger] rest[i].path@) by {
            assert(rest[i] == cands[i]);
        }
        lemma_no_targets(rest, base);
        assert(!selected(cands[cands.len() - 1].path@));
        assert(output_of(cands, base) =~= Seq::<char>::empty());
    }
}

/// A target file that cannot be read leaves the output exactly as it would be without
/// it, and is recorded as skipped for being unreadable, with its position.
pub proof fn lemma_unreadable_left_out(cands: Seq<Candidate>, base: Seq<char>, i: int)
    requires
        0 <= i < cands.len(),
        selected(cands[i].path@),
        cands[i].content is Err,
    ensures
        output_of(cands, base) == output_of(cands.take(i) + cands.skip(i + 1), base),
        skipped_of(cands, base).contains(Skipped { index: i as usize, fault: FileFault::Unreadable }),
{
    lemma_output_split(cands, base, i);
    lemma_output_concat(cands.take(i), cands.skip(i + 1), base);
    assert(output_of(cands, base) =~= output_of(cands.take(i) + cands.skip(i + 1), base));
    let upto = cands.take(i + 1);
    assert(upto.drop_last() =~= cands.take(i));
    assert(upto.last() == cands[i]);
    let s = Skipped { index: i as usize, fault: FileFault::Unreadable };
    assert(skipped_of(upto, base) == skipped_of(cands.take(i), base).push(s));
    assert(skipped_of(upto, base).last() == s);
    lemma_skipped_kept(cands, base, i + 1);
}

} // verus!
