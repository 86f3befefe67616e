use vstd::prelude::*;

use crate::errors::LogError;
use crate::json::{spec_as_u64, spec_field, JsonValue};

verus! {

/// The sum of a sequence of shard sizes, as an unbounded integer.
pub open spec fn sum_of(sizes: Seq<u64>) -> int
    decreases sizes.len(),
{
    if sizes.len() == 0 {
        0
    } else {
        sum_of(sizes.drop_last()) + sizes.last()
    }
}

/// A prefix of a sequence of unsigned sizes never sums to more than the whole.
proof fn lemma_sum_of_take_le(sizes: Seq<u64>, n: int)
    requires
        0 <= n <= sizes.len(),
    ensures
        sum_of(sizes.take(n)) <= sum_of(sizes),
    decreases sizes.len() - n,
{
    if n < sizes.len() {
        assert(sizes.take(n + 1).drop_last() =~= sizes.take(n));
        lemma_sum_of_take_le(sizes, n + 1);
    } else {
        assert(sizes.take(n) =~= sizes);
    }
}

/// Every element is no more than the sum of the elements up to and past it.
proof fn lemma_sum_of_take_succ(sizes: Seq<u64>, n: int)
    requires
        0 <= n < sizes.len(),
    ensures
        sum_of(sizes.take(n + 1)) == sum_of(sizes.take(n)) + sizes[n],
{
    assert(sizes.take(n + 1).drop_last() =~= sizes.take(n));
    assert(sizes.take(n + 1).last() == sizes[n]);
}

/// The total committed entry count of the log: the primary tree's size plus
/// the size of every inactive shard. `None` exactly when the mathematical sum
/// does not fit in a `u64`.
pub fn total_size(primary: u64, shards: &Vec<u64>) -> (r: Option<u64>)
    ensures
        r matches Some(t) ==> t == primary + sum_of(shards@),
        r is None <==> primary + sum_of(shards@) > u64::MAX,
{
    let mut acc: u64 = primary;
    let mut i: usize = 0;
    while i < shards.len()
        invariant
            0 <= i <= shards@.len(),
            acc == primary + sum_of(shards@.take(i as int)),
        decreases shards@.len() - i,
    {
        proof {
            lemma_sum_of_take_succ(shards@, i as int);
        }
        match acc.checked_add(shards[i]) {
            Some(next) => {
                acc = next;
            }
            None => {
                proof {
                    lemma_sum_of_take_le(shards@, i + 1);
                }
                return None;
            }
        }
        i = i + 1;
    }
    proof {
        assert(shards@.take(shards@.len() as int) =~= shards@);
    }
    Some(acc)
}

/// The primary tree size in the log's metadata document: the field
/// `treeSize`, read as an unsigned integer.
pub open spec fn spec_primary(info: JsonValue) -> Option<u64> {
    match spec_field(info, "treeSize"@) {
        Some(v) => spec_as_u64(v),
        None => None,
    }
}

/// The list of inactive shards in the metadata document: the field
/// `inactiveShards`, which must be an array.
pub open spec fn spec_shards_array(info: JsonValue) -> Option<Seq<JsonValue>> {
    match spec_field(info, "inactiveShards"@) {
        Some(JsonValue::Array(a)) => Some(a@),
        _ => None,
    }
}

/// One shard's size: its `treeSize` field, read as an unsigned integer.
pub open spec fn spec_shard_size(shard: JsonValue) -> Option<u64> {
    match spec_field(shard, "treeSize"@) {
        Some(v) => spec_as_u64(v),
        None => None,
    }
}

/// The sizes of all shards in order, or `None` as soon as one lacks a
/// numeric `treeSize`.
pub open spec fn spec_shard_sizes(shards: Seq<JsonValue>) -> Option<Seq<u64>>
    decreases shards.len(),
{
    if shards.len() == 0 {
        Some(Seq::empty())
    } else {
        match (spec_shard_sizes(shards.drop_last()), spec_shard_size(shards.last())) {
            (Some(rest), Some(s)) => Some(rest.push(s)),
            _ => None,
        }
    }
}

/// One shard without a numeric size spoils the whole list.
proof fn lemma_shard_sizes_none(shards: Seq<JsonValue>, i: int)
    requires
        0 <= i < shards.len(),
        spec_shard_size(shards[i]) is None,
    ensures
        spec_shard_sizes(shards) is None,
    decreases shards.len(),
{
    if i < shards.len() - 1 {
        assert(shards.drop_last()[i] == shards[i]);
        lemma_shard_sizes_none(shards.drop_last(), i);
    }
}

/// The total the metadata document states: the primary tree size plus the
/// sum of every inactive shard's tree size; `None` where the document does
/// not have the expected shape.
pub open spec fn spec_log_total(info: JsonValue) -> Option<int> {
    match (spec_primary(info), spec_shards_array(info)) {
        (Some(p), Some(arr)) => match spec_shard_sizes(arr) {
            Some(sizes) => Some(p + sum_of(sizes)),
            None => None,
        },
        _ => None,
    }
}

/// Reads the total committed entry count out of the log's parsed metadata
/// document. Errs with `Schema` exactly where the document lacks the
/// expected numeric fields — or where the stated total does not fit in a
/// `u64`, which no genuine log metadata reaches.
pub fn size_from_log_info(info: &JsonValue) -> (r: Result<u64, LogError>)
    ensures
        r matches Ok(t) ==> spec_log_total(*info) == Some(t as int),
        spec_log_total(*info) matches Some(t) ==> (t <= u64::MAX ==> r == Ok::<u64, LogError>(
            t as u64,
        )),
        r matches Err(e) ==> e == LogError::Schema && (spec_log_total(*info) is None
            || spec_log_total(*info).unwrap() > u64::MAX),
{
    let primary: u64 = match info.get("treeSize") {
        Some(v) => match v.as_u64() {
            Some(p) => p,
            None => {
                return Err(LogError::Schema);
            }
        },
        None => {
            return Err(LogError::Schema);
        }
    };
    let shards: &Vec<JsonValue> = match info.get("inactiveShards") {
        Some(JsonValue::Array(a)) => a,
        _ => {
            return Err(LogError::Schema);
        }
    };
    let mut sizes: Vec<u64> = Vec::new();
    let mut i: usize = 0;
    while i < shards.len()
        invariant
            0 <= i <= shards@.len(),
            spec_shard_sizes(shards@.take(i as int)) == Some(sizes@),
            spec_shards_array(*info) == Some(shards@),
        decreases shards@.len() - i,
    {
        proof {
            assert(shards@.take(i + 1).drop_last() =~= shards@.take(i as int));
            assert(shards@.take(i + 1).last() == shards@[i as int]);
        }
        let size = match shards[i].get("treeSize") {
            Some(v) => match v.as_u64() {
                Some(s) => s,
                None => {
                    proof {
                        lemma_shard_sizes_none(shards@, i as int);
                    }
                    return Err(LogError::Schema);
                }
            },
            None => {
                proof {
                    lemma_shard_sizes_none(shards@, i as int);
                }
                return Err(LogError::Schema);
            }
        };
        sizes.push(size);
        i = i + 1;
    }
    proof {
        assert(shards@.take(shards@.len() as int) =~= shards@);
    }
    match total_size(primary, &sizes) {
        Some(t) => Ok(t),
        None => Err(LogError::Schema),
    }
}

} // verus!
