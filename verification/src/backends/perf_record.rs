//! The record that the kernel writes when a group of events is read.
//!
//! The record is a run of 64-bit words: the number of members, the time for
//! which the group was enabled, the time for which it was counting, and then
//! for each member its raw count followed by its identifier. Each word is
//! read lowest byte first; a host of the other byte order turns the words
//! around before it hands the record over.

use vstd::bytes::{
    lemma_auto_spec_u64_to_from_le_bytes, spec_u64_from_le_bytes, spec_u64_to_le_bytes,
    u64_from_le_bytes,
};
use vstd::prelude::*;
use vstd::slice::slice_subrange;

verus! {

/// The bytes of one word.
pub const WORD: usize = 8;

/// The bytes before the first member: three words.
pub const HEADER: usize = 24;

/// The bytes of one member: two words.
pub const MEMBER: usize = 16;

/// The word that starts at `offset`.
pub open spec fn word_at(bytes: Seq<u8>, offset: int) -> u64 {
    spec_u64_from_le_bytes(bytes.subrange(offset, offset + 8))
}

/// The number of members that the record holds in full: the number that its
/// first word announces, as far as the bytes reach.
pub open spec fn member_count(bytes: Seq<u8>) -> int {
    if bytes.len() < 24 {
        0
    } else if word_at(bytes, 0) as int <= (bytes.len() - 24) / 16 {
        word_at(bytes, 0) as int
    } else {
        (bytes.len() - 24) / 16
    }
}

pub open spec fn time_enabled(bytes: Seq<u8>) -> u64 {
    word_at(bytes, 8)
}

pub open spec fn time_running(bytes: Seq<u8>) -> u64 {
    word_at(bytes, 16)
}

/// The raw count of member `index`.
pub open spec fn member_value(bytes: Seq<u8>, index: int) -> u64 {
    word_at(bytes, 24 + 16 * index)
}

/// The identifier of member `index`.
pub open spec fn member_id(bytes: Seq<u8>, index: int) -> u64 {
    word_at(bytes, 24 + 16 * index + 8)
}

/// The first member at or after `from` that bears the identifier.
pub open spec fn find_member(bytes: Seq<u8>, id: u64, from: int) -> Option<int>
    decreases member_count(bytes) - from,
{
    if from < 0 || from >= member_count(bytes) {
        None
    } else if member_id(bytes, from) == id {
        Some(from)
    } else {
        find_member(bytes, id, from + 1)
    }
}

/// A raw count corrected for the time in which its group was not counting:
/// `raw * enabled / running`, rounded down, and the largest value there is
/// where that is too large. A group that never counted has counted nothing.
pub open spec fn scaled(raw: u64, enabled: u64, running: u64) -> usize {
    if running == 0 {
        0
    } else if (raw as int) * (enabled as int) / (running as int) > usize::MAX as int {
        usize::MAX
    } else {
        ((raw as int) * (enabled as int) / (running as int)) as usize
    }
}

/// The corrected count of the member that bears the identifier, if the
/// record holds such a member.
pub open spec fn value_of(bytes: Seq<u8>, id: u64) -> Option<usize> {
    match find_member(bytes, id, 0) {
        Some(index) => Some(
            scaled(member_value(bytes, index), time_enabled(bytes), time_running(bytes)),
        ),
        None => None,
    }
}

/// Reads the word that starts at `offset`.
pub fn read_word(bytes: &[u8], offset: usize) -> (word: u64)
    requires
        offset + 8 <= bytes@.len(),
    ensures
        word == word_at(bytes@, offset as int),
{
    let total = bytes.len();
    assert(offset + 8 <= total);
    u64_from_le_bytes(slice_subrange(bytes, offset, offset + WORD))
}

/// Corrects a raw count for the time in which its group was not counting.
pub fn scale(raw: u64, enabled: u64, running: u64) -> (value: usize)
    ensures
        value == scaled(raw, enabled, running),
{
    if running == 0 {
        return 0;
    }
    assert((raw as u128) * (enabled as u128) <= 0xffff_ffff_ffff_ffff * 0xffff_ffff_ffff_ffff)
        by (nonlinear_arith)
        requires
            raw <= 0xffff_ffff_ffff_ffff,
            enabled <= 0xffff_ffff_ffff_ffff,
    ;
    let product: u128 = (raw as u128) * (enabled as u128);
    let quotient: u128 = product / (running as u128);
    if quotient > usize::MAX as u128 {
        usize::MAX
    } else {
        quotient as usize
    }
}

/// The number of members that the record holds in full.
pub fn count_members(bytes: &[u8]) -> (count: usize)
    ensures
        count == member_count(bytes@),
{
    if bytes.len() < HEADER {
        return 0;
    }
    let room: usize = (bytes.len() - HEADER) / MEMBER;
    let announced: u64 = read_word(bytes, 0);
    if announced <= room as u64 {
        announced as usize
    } else {
        room
    }
}

/// Looks up the member that bears the identifier and corrects its count.
pub fn read_value(bytes: &[u8], id: u64) -> (value: Option<usize>)
    ensures
        value == value_of(bytes@, id),
{
    let count = count_members(bytes);
    let total = bytes.len();
    let mut index: usize = 0;
    while index < count
        invariant
            index <= count,
            count == member_count(bytes@),
            total == bytes@.len(),
            count == 0 || 24 + 16 * count <= total,
            find_member(bytes@, id, 0) == find_member(bytes@, id, index as int),
        decreases count - index,
    {
        let at: usize = HEADER + MEMBER * index;
        if read_word(bytes, at + WORD) == id {
            let raw = read_word(bytes, at);
            let enabled = read_word(bytes, WORD);
            let running = read_word(bytes, 2 * WORD);
            return Some(scale(raw, enabled, running));
        }
        index += 1;
    }
    None
}

/// The bytes of a run of words: eight for each word, lowest byte first.
pub open spec fn bytes_of(words: Seq<u64>) -> Seq<u8>
    decreases words.len(),
{
    if words.len() == 0 {
        Seq::empty()
    } else {
        bytes_of(words.drop_last()) + spec_u64_to_le_bytes(words.last())
    }
}

/// The words of the members of a group: for each its raw count and then its
/// identifier.
pub open spec fn member_words(members: Seq<(u64, u64)>) -> Seq<u64>
    decreases members.len(),
{
    if members.len() == 0 {
        Seq::empty()
    } else {
        member_words(members.drop_last()).push(members.last().0).push(members.last().1)
    }
}

/// The record that the kernel writes for a group: the number of members,
/// the two times, and the members in the kernel's order.
pub open spec fn record_of(enabled: u64, running: u64, members: Seq<(u64, u64)>) -> Seq<u8> {
    bytes_of(seq![members.len() as u64, enabled, running] + member_words(members))
}

/// A run of words takes eight bytes for each word, and each word is read
/// back from where it was written.
pub proof fn lemma_words_read_back(words: Seq<u64>, index: int)
    requires
        0 <= index < words.len(),
    ensures
        bytes_of(words).len() == 8 * words.len(),
        word_at(bytes_of(words), 8 * index) == words[index],
    decreases words.len(),
{
    lemma_auto_spec_u64_to_from_le_bytes();
    lemma_bytes_len(words);
    let head = words.drop_last();
    let tail = spec_u64_to_le_bytes(words.last());
    lemma_bytes_len(head);
    if index == words.len() - 1 {
        assert(bytes_of(words).subrange(8 * index, 8 * index + 8) =~= tail);
    } else {
        lemma_words_read_back(head, index);
        assert(bytes_of(words).subrange(8 * index, 8 * index + 8) =~= bytes_of(head).subrange(
            8 * index,
            8 * index + 8,
        ));
    }
}

proof fn lemma_bytes_len(words: Seq<u64>)
    ensures
        bytes_of(words).len() == 8 * words.len(),
    decreases words.len(),
{
    lemma_auto_spec_u64_to_from_le_bytes();
    if words.len() > 0 {
        lemma_bytes_len(words.drop_last());
    }
}

proof fn lemma_member_words(members: Seq<(u64, u64)>, index: int)
    requires
        0 <= index < members.len(),
    ensures
        member_words(members).len() == 2 * members.len(),
        member_words(members)[2 * index] == members[index].0,
        member_words(members)[2 * index + 1] == members[index].1,
    decreases members.len(),
{
    lemma_member_words_len(members.drop_last());
    if index < members.len() - 1 {
        lemma_member_words(members.drop_last(), index);
    }
}

proof fn lemma_member_words_len(members: Seq<(u64, u64)>)
    ensures
        member_words(members).len() == 2 * members.len(),
    decreases members.len(),
{
    if members.len() > 0 {
        lemma_member_words_len(members.drop_last());
    }
}

/// What is read of a record is what the kernel wrote: the record of a group
/// holds all its members, its two times, and for each member its raw count
/// and its identifier.
pub proof fn lemma_record_reads_back(
    enabled: u64,
    running: u64,
    members: Seq<(u64, u64)>,
    index: int,
)
    requires
        0 <= index < members.len() <= u64::MAX,
    ensures
        member_count(record_of(enabled, running, members)) == members.len(),
        time_enabled(record_of(enabled, running, members)) == enabled,
        time_running(record_of(enabled, running, members)) == running,
        member_value(record_of(enabled, running, members), index) == members[index].0,
        member_id(record_of(enabled, running, members), index) == members[index].1,
{
    let words = seq![members.len() as u64, enabled, running] + member_words(members);
    lemma_member_words(members, index);
    lemma_words_read_back(words, 0);
    lemma_words_read_back(words, 1);
    lemma_words_read_back(words, 2);
    lemma_words_read_back(words, 3 + 2 * index);
    lemma_words_read_back(words, 3 + 2 * index + 1);
    assert(words[3 + 2 * index] == member_words(members)[2 * index]);
    assert(words[3 + 2 * index + 1] == member_words(members)[2 * index + 1]);
    assert(8 * (3 + 2 * index) == 24 + 16 * index);
    assert(8 * (3 + 2 * index + 1) == 24 + 16 * index + 8);
    assert((16 * members.len()) / 16 == members.len());
}

/// The value read for an identifier from the
/// record of a group is the raw count of the first member that bears the
/// identifier, scaled by the time enabled over the time running.
pub proof fn lemma_value_of_member(
    enabled: u64,
    running: u64,
    members: Seq<(u64, u64)>,
    index: int,
)
    requires
        0 <= index < members.len() <= u64::MAX,
        forall|j: int| 0 <= j < index ==> members[j].1 != members[index].1,
    ensures
        value_of(record_of(enabled, running, members), members[index].1) == Some(
            scaled(members[index].0, enabled, running),
        ),
{
    let record = record_of(enabled, running, members);
    let id = members[index].1;
    lemma_record_reads_back(enabled, running, members, index);
    assert forall|j: int| 0 <= j < index implies member_id(record, j) != id by {
        lemma_record_reads_back(enabled, running, members, j);
    }
    lemma_find_passes(record, id, 0, index);
}

/// A search passes over the members that do not bear the identifier.
proof fn lemma_find_passes(bytes: Seq<u8>, id: u64, from: int, to: int)
    requires
        0 <= from <= to <= member_count(bytes),
        forall|j: int| from <= j < to ==> member_id(bytes, j) != id,
    ensures
        find_member(bytes, id, from) == find_member(bytes, id, to),
    decreases to - from,
{
    if from < to {
        lemma_find_passes(bytes, id, from + 1, to);
    }
}

/// A corrected count is the raw count where the group counted all the
/// time, and is never less than the raw count where the time running is
/// within the time enabled.
pub proof fn lemma_scaled_bounds(raw: u64, enabled: u64, running: u64)
    requires
        0 < running <= enabled,
    ensures
        enabled == running ==> scaled(raw, enabled, running) == (if raw > usize::MAX {
            usize::MAX
        } else {
            raw as usize
        }),
        scaled(raw, enabled, running) >= (if raw > usize::MAX {
            usize::MAX
        } else {
            raw as usize
        }),
{
    let product = (raw as int) * (enabled as int);
    assert(product >= (raw as int) * (running as int)) by (nonlinear_arith)
        requires
            product == (raw as int) * (enabled as int),
            running <= enabled,
            raw >= 0,
    ;
    assert(((raw as int) * (running as int)) / (running as int) == raw as int)
        by (nonlinear_arith)
        requires
            running > 0,
    ;
    assert(product / (running as int) >= ((raw as int) * (running as int)) / (running as int))
        by (nonlinear_arith)
        requires
            product >= (raw as int) * (running as int),
            running > 0,
    ;
}

/// A larger raw count never gives a smaller corrected count, the two times
/// being the same.
pub proof fn lemma_scaled_monotone(small: u64, large: u64, enabled: u64, running: u64)
    requires
        small <= large,
    ensures
        scaled(small, enabled, running) <= scaled(large, enabled, running),
{
    if running != 0 {
        assert((small as int) * (enabled as int) <= (large as int) * (enabled as int))
            by (nonlinear_arith)
            requires
                small <= large,
                enabled >= 0,
        ;
        assert(((small as int) * (enabled as int)) / (running as int) <= ((large as int) * (
        enabled as int)) / (running as int)) by (nonlinear_arith)
            requires
                (small as int) * (enabled as int) <= (large as int) * (enabled as int),
                running > 0,
        ;
        assert(0 <= ((small as int) * (enabled as int)) / (running as int))
            by (nonlinear_arith)
            requires
                small >= 0,
                enabled >= 0,
                running > 0,
        ;
    }
}

} // verus!
