//! Where the parts of a joined byte sequence stand in it.

use vstd::prelude::*;

verus! {

/// A part of the start of a sequence is the same part of the sequence.
pub proof fn lemma_part_of_start(whole: Seq<u8>, start: Seq<u8>, from: int, to: int)
    requires
        start.is_prefix_of(whole),
        0 <= from <= to <= start.len(),
    ensures
        whole.subrange(from, to) == start.subrange(from, to),
{
    assert(whole.subrange(from, to) =~= start.subrange(from, to));
}

/// A part of a part of a sequence is a part of the sequence.
pub proof fn lemma_part_of_part(whole: Seq<u8>, part: Seq<u8>, start: int, from: int, to: int)
    requires
        0 <= start,
        start + part.len() <= whole.len(),
        whole.subrange(start, start + part.len()) == part,
        0 <= from <= to <= part.len(),
    ensures
        whole.subrange(start + from, start + to) == part.subrange(from, to),
{
    assert(whole.subrange(start + from, start + to) =~= whole.subrange(
        start,
        start + part.len(),
    ).subrange(from, to));
}

/// Where three joined sequences stand in what they are joined to.
pub proof fn lemma_parts_of_three(first: Seq<u8>, second: Seq<u8>, third: Seq<u8>)
    ensures
        ({
            let joined = first + second + third;
            let second_start: int = first.len() as int;
            let third_start: int = second_start + second.len();
            &&& joined.len() == third_start + third.len()
            &&& joined.subrange(0, second_start) == first
            &&& joined.subrange(second_start, third_start) == second
            &&& joined.subrange(third_start, third_start + third.len()) == third
            &&& first.is_prefix_of(joined)
            &&& (first + second).is_prefix_of(joined)
        }),
{
    let joined = first + second + third;
    let second_start: int = first.len() as int;
    let third_start: int = second_start + second.len();
    assert(joined.subrange(0, second_start) =~= first);
    assert(joined.subrange(second_start, third_start) =~= second);
    assert(joined.subrange(third_start, third_start + third.len()) =~= third);
}

/// Where four joined sequences stand in what they are joined to.
pub proof fn lemma_parts_of_four(
    first: Seq<u8>,
    second: Seq<u8>,
    third: Seq<u8>,
    fourth: Seq<u8>,
)
    ensures
        ({
            let joined = first + second + third + fourth;
            let second_start: int = first.len() as int;
            let third_start: int = second_start + second.len();
            let fourth_start: int = third_start + third.len();
            &&& joined.len() == fourth_start + fourth.len()
            &&& joined.subrange(0, second_start) == first
            &&& joined.subrange(second_start, third_start) == second
            &&& joined.subrange(third_start, fourth_start) == third
            &&& joined.subrange(fourth_start, joined.len() as int) == fourth
        }),
{
    let joined = first + second + third + fourth;
    let second_start: int = first.len() as int;
    let third_start: int = second_start + second.len();
    let fourth_start: int = third_start + third.len();
    assert(joined.subrange(0, second_start) =~= first);
    assert(joined.subrange(second_start, third_start) =~= second);
    assert(joined.subrange(third_start, fourth_start) =~= third);
    assert(joined.subrange(fourth_start, joined.len() as int) =~= fourth);
}

} // verus!
