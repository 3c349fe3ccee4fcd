//! Deterministic allocator of two-letter jump tags, "aa" through "zz".
use vstd::prelude::*;

verus! {

/// Number of tags in one cycle: every pair of lowercase letters.
pub const TAG_COUNT: u16 = 676;

/// The upper limit on two-letter values ("zz").
pub const TAG_INDEX_LIMIT: u16 = 675;

/// The lowercase letter with the given rank, `0` for 'a' up to `25` for 'z'.
pub open spec fn letter(rank: int) -> char {
    (97 + rank) as char
}

/// The tag at a position of the cycle: base-26 counting over two letters.
pub open spec fn tag_at(index: int) -> Seq<char> {
    seq![letter(index / 26), letter(index % 26)]
}

/// What the generator hands out at a given counter value.
pub open spec fn tag_or_none(index: int) -> Option<Seq<char>> {
    if 0 <= index < 676 {
        Some(tag_at(index))
    } else {
        None
    }
}

/// The counter after `calls` requests made from the counter value `index`.
pub open spec fn index_after(index: int, calls: nat) -> int
    decreases calls,
{
    if calls == 0 {
        index
    } else if index > 675 {
        index_after(index, (calls - 1) as nat)
    } else {
        index_after(index + 1, (calls - 1) as nat)
    }
}

pub struct TagGenerator {
    index: u16,
}

impl TagGenerator {
    /// The counter: how many tags were handed out since the last reset,
    /// as long as the cycle is not exhausted.
    pub closed spec fn position(&self) -> int {
        self.index as int
    }

    pub fn index(&self) -> (r: u16)
        ensures
            r == self.position(),
    {
        self.index
    }

    /// Returns the next two-letter tag, or none if the cycle has passed "zz".
    pub fn next(&mut self) -> (r: Option<String>)
        ensures
            match r {
                Some(tag) => Some(tag@) == tag_or_none(old(self).position()),
                None => tag_or_none(old(self).position()) is None,
            },
            final(self).position() == index_after(old(self).position(), 1),
    {
        reveal_with_fuel(index_after, 2);
        if self.index > TAG_INDEX_LIMIT {
            return None;
        }
        let first: u8 = ((self.index / 26) + 97) as u8;
        let second: u8 = ((self.index % 26) + 97) as u8;
        let ghost at: int = self.index as int;
        self.index += 1;

        let mut tag = String::new();
        tag.push(first as char);
        tag.push(second as char);
        proof {
            assert(first as char == letter(at / 26));
            assert(second as char == letter(at % 26));
            assert(tag@ =~= tag_at(at));
        }
        Some(tag)
    }

    /// Restarts the generator sequence at the beginning.
    pub fn reset(&mut self)
        ensures
            final(self).position() == 0,
    {
        self.index = 0;
    }
}

/// Builds a new zero-indexed tag generator.
pub fn new() -> (r: TagGenerator)
    ensures
        r.position() == 0,
{
    TagGenerator { index: 0 }
}

/// Counting from a fresh or reset generator, the counter after `calls`
/// requests is `calls`, capped at the size of the cycle.
pub proof fn lemma_index_after_reset(calls: nat)
    ensures
        index_after(0, calls) == if calls <= 676 { calls as int } else { 676 },
{
    lemma_index_after(0, calls);
}

/// From any counter value within the cycle, requests advance the counter
/// one by one until it rests just past the last tag.
pub proof fn lemma_index_after(index: int, calls: nat)
    requires
        0 <= index <= 676,
    ensures
        index_after(index, calls) == if index + calls <= 676 { index + calls } else { 676 },
    decreases calls,
{
    if calls > 0 {
        if index > 675 {
            lemma_index_after(index, (calls - 1) as nat);
        } else {
            lemma_index_after(index + 1, (calls - 1) as nat);
        }
    }
}

/// After a reset, request number `k` (counted from zero) yields the tag at
/// position `k` of the cycle, and every request past the 676th yields none.
pub proof fn lemma_sequence_after_reset(k: nat)
    ensures
        k < 676 ==> tag_or_none(index_after(0, k)) == Some(tag_at(k as int)),
        k >= 676 ==> tag_or_none(index_after(0, k)) is None,
{
    lemma_index_after_reset(k);
}

/// The cycle starts with "aa", "ab", "ac" and ends with "zz".
pub proof fn lemma_cycle_ends()
    ensures
        tag_at(0) == seq!['a', 'a'],
        tag_at(1) == seq!['a', 'b'],
        tag_at(2) == seq!['a', 'c'],
        tag_at(26) == seq!['b', 'a'],
        tag_at(675) == seq!['z', 'z'],
{
    assert(tag_at(0) =~= seq!['a', 'a']);
    assert(tag_at(1) =~= seq!['a', 'b']);
    assert(tag_at(2) =~= seq!['a', 'c']);
    assert(tag_at(26) =~= seq!['b', 'a']);
    assert(tag_at(675) =~= seq!['z', 'z']);
}

/// Tags are lowercase letters, and no two positions of a cycle share a tag.
pub proof fn lemma_tags_distinct(i: int, j: int)
    requires
        0 <= i < 676,
        0 <= j < 676,
        i != j,
    ensures
        tag_at(i) != tag_at(j),
        tag_at(i).len() == 2,
        'a' <= tag_at(i)[0] <= 'z',
        'a' <= tag_at(i)[1] <= 'z',
{
    if tag_at(i) == tag_at(j) {
        assert(tag_at(i)[0] == tag_at(j)[0]);
        assert(tag_at(i)[1] == tag_at(j)[1]);
        assert(i / 26 == j / 26);
        assert(i % 26 == j % 26);
        assert(false);
    }
}

} // verus!
