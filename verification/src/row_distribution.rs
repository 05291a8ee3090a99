//! Partition size presets: a deterministic map from a row's ordinal to the
//! partition that holds it, for synthetic data with partitions of unequal
//! size.
//!
//! A preset cuts the rows `0 .. total_rows` into consecutive partitions.
//! Groups are declared in text as `multiplier:partitions`, separated by
//! commas: `5:2,3:10` declares two partitions of five times the base size
//! followed by ten partitions of three times the base size. The rows that the
//! groups leave over go into partitions of the base size, and where the base
//! size does not divide what is left, the last partition holds the shortfall.

use crate::error::{Error, ErrorKind};
use crate::named_table::NamedTable;
use vstd::prelude::*;
use vstd::string::StringSliceAdditionalSpecFns;

verus! {

/// A declared group of equal partitions.
#[derive(Clone, Copy, Debug, PartialEq, Eq)]
pub struct Group {
    /// How many times the base size each partition of the group holds.
    pub multiplier: u64,
    /// How many partitions the group has.
    pub partitions: u64,
}

/// The byte that separates a group's two numbers.
pub const COLON: u8 = 58u8;

/// The byte that separates two groups.
pub const COMMA: u8 = 44u8;

/// Whether `b` is an ASCII decimal digit.
pub open spec fn is_digit(b: u8) -> bool {
    48 <= b && b <= 57
}

/// Whether `s` holds decimal digits only.
pub open spec fn all_digits(s: Seq<u8>) -> bool {
    forall|i: int| 0 <= i < s.len() ==> is_digit(#[trigger] s[i])
}

/// The number that the digits `s` write, most significant digit first.
pub open spec fn digits_value(s: Seq<u8>) -> nat
    decreases s.len(),
{
    if s.len() == 0 {
        0
    } else {
        digits_value(s.drop_last()) * 10 + (s.last() - 48) as nat
    }
}

/// The number written by `s`: one or more decimal digits whose value fits in
/// 64 bits. Leading zeros are accepted.
pub open spec fn number(s: Seq<u8>) -> Option<u64> {
    if s.len() > 0 && all_digits(s) && digits_value(s) <= u64::MAX {
        Some(digits_value(s) as u64)
    } else {
        None
    }
}

/// The position of the first `b` in `s`, or the length of `s` if it holds
/// none.
pub open spec fn index_of(s: Seq<u8>, b: u8) -> nat
    decreases s.len(),
{
    if s.len() == 0 || s[0] == b {
        0
    } else {
        1 + index_of(s.skip(1), b)
    }
}

/// The group written by `s`: a number, a colon, a number.
pub open spec fn group(s: Seq<u8>) -> Option<Group> {
    let i = index_of(s, COLON) as int;
    if i < s.len() {
        match (number(s.take(i)), number(s.skip(i + 1))) {
            (Some(m), Some(p)) => Some(Group { multiplier: m, partitions: p }),
            _ => None,
        }
    } else {
        None
    }
}

/// The groups written by the non-empty list `s`: groups separated by commas.
pub open spec fn group_list(s: Seq<u8>) -> Option<Seq<Group>>
    decreases s.len(),
{
    let i = index_of(s, COMMA) as int;
    match group(s.take(i)) {
        None => None,
        Some(g) => if i >= s.len() {
            Some(seq![g])
        } else {
            match group_list(s.skip(i + 1)) {
                None => None,
                Some(rest) => Some(seq![g] + rest),
            }
        },
    }
}

/// The groups that the text `s` declares, or `None` if `s` is not a list of
/// groups. The empty text declares no group.
pub open spec fn groups_of(s: Seq<u8>) -> Option<Seq<Group>> {
    if s.len() == 0 {
        Some(Seq::empty())
    } else {
        group_list(s)
    }
}

proof fn lemma_index_of(s: Seq<u8>, b: u8, i: int)
    requires
        0 <= i <= s.len(),
        forall|j: int| 0 <= j < i ==> s[j] != b,
        i == s.len() || s[i] == b,
    ensures
        index_of(s, b) == i,
    decreases i,
{
    if i > 0 {
        let t = s.skip(1);
        assert forall|j: int| 0 <= j < i - 1 implies t[j] != b by {
            assert(t[j] == s[j + 1]);
        }
        lemma_index_of(t, b, i - 1);
    }
}

proof fn lemma_prefix_value(s: Seq<u8>, k: int)
    requires
        0 <= k <= s.len(),
    ensures
        digits_value(s.take(k)) <= digits_value(s),
    decreases s.len() - k,
{
    if k == s.len() {
        assert(s.take(k) =~= s);
    } else {
        lemma_prefix_value(s.drop_last(), k);
        assert(s.drop_last().take(k) =~= s.take(k));
    }
}

fn find(bytes: &[u8], from: usize, to: usize, b: u8) -> (i: usize)
    requires
        from <= to <= bytes@.len(),
    ensures
        from <= i <= to,
        i - from == index_of(bytes@.subrange(from as int, to as int), b),
{
    let mut i: usize = from;
    while i < to && bytes[i] != b
        invariant
            from <= i <= to <= bytes@.len(),
            forall|j: int| from <= j < i ==> bytes@[j] != b,
        decreases to - i,
    {
        i += 1;
    }
    proof {
        lemma_index_of(bytes@.subrange(from as int, to as int), b, i - from);
    }
    i
}

fn parse_number(bytes: &[u8], from: usize, to: usize) -> (r: Option<u64>)
    requires
        from <= to <= bytes@.len(),
    ensures
        r == number(bytes@.subrange(from as int, to as int)),
{
    let ghost s = bytes@.subrange(from as int, to as int);
    if from == to {
        return None;
    }
    let mut acc: u64 = 0;
    let mut i: usize = from;
    assert(s.take(0) =~= Seq::<u8>::empty());
    while i < to
        invariant
            from <= i <= to <= bytes@.len(),
            s == bytes@.subrange(from as int, to as int),
            all_digits(s.take(i - from)),
            acc == digits_value(s.take(i - from)),
        decreases to - i,
    {
        let b: u8 = bytes[i];
        proof {
            assert(s.take(i - from + 1).drop_last() =~= s.take(i - from));
            assert(s.take(i - from + 1).last() == b);
            lemma_prefix_value(s, i - from + 1);
        }
        if b < 48 || b > 57 {
            assert(s[i - from] == b);
            return None;
        }
        let d: u64 = (b - 48) as u64;
        let shifted: u64 = match acc.checked_mul(10) {
            Some(v) => v,
            None => { return None; },
        };
        acc = match shifted.checked_add(d) {
            Some(v) => v,
            None => { return None; },
        };
        i += 1;
        assert forall|j: int| 0 <= j < i - from implies is_digit(#[trigger] s.take(i - from)[j]) by {
            if j < i - from - 1 {
                assert(s.take(i - from - 1)[j] == s[j]);
            }
        }
    }
    assert(s.take(i - from) =~= s);
    Some(acc)
}

fn parse_group(bytes: &[u8], from: usize, to: usize) -> (r: Option<Group>)
    requires
        from <= to <= bytes@.len(),
    ensures
        r == group(bytes@.subrange(from as int, to as int)),
{
    let ghost s = bytes@.subrange(from as int, to as int);
    let mid: usize = find(bytes, from, to, COLON);
    if mid == to {
        return None;
    }
    assert(s.take(mid - from) =~= bytes@.subrange(from as int, mid as int));
    assert(s.skip(mid - from + 1) =~= bytes@.subrange(mid + 1, to as int));
    let m = parse_number(bytes, from, mid);
    let p = parse_number(bytes, mid + 1, to);
    match (m, p) {
        (Some(multiplier), Some(partitions)) => Some(Group { multiplier, partitions }),
        _ => None,
    }
}

/// The groups that are still to come, after those already read.
spec fn continued(read: Seq<Group>, rest: Option<Seq<Group>>) -> Option<Seq<Group>> {
    match rest {
        None => None,
        Some(more) => Some(read + more),
    }
}

/// Reads the groups that `text` declares. `None` means that `text` is not a
/// comma-separated list of `multiplier:partitions` pairs.
pub fn parse_groups(text: &str) -> (r: Option<Vec<Group>>)
    ensures
        match r {
            Some(groups) => groups_of(text.spec_bytes()) == Some(groups@),
            None => groups_of(text.spec_bytes()) is None,
        },
{
    let bytes = text.as_bytes();
    let n: usize = bytes.len();
    let mut out: Vec<Group> = Vec::new();
    if n == 0 {
        return Some(out);
    }
    let mut pos: usize = 0;
    assert(bytes@.skip(0) =~= bytes@);
    loop
        invariant
            0 < n,
            pos <= n == bytes@.len(),
            bytes@ == text.spec_bytes(),
            group_list(bytes@) == continued(out@, group_list(bytes@.skip(pos as int))),
        decreases n - pos,
    {
        let ghost tail = bytes@.skip(pos as int);
        let end: usize = find(bytes, pos, n, COMMA);
        assert(bytes@.subrange(pos as int, n as int) =~= tail);
        assert(tail.take(end - pos) =~= bytes@.subrange(pos as int, end as int));
        match parse_group(bytes, pos, end) {
            None => {
                return None;
            },
            Some(g) => {
                if end == n {
                    assert(out@ + seq![g] =~= out@.push(g));
                    out.push(g);
                    return Some(out);
                }
                assert(tail.skip(end - pos + 1) =~= bytes@.skip(end + 1));
                proof {
                    if let Some(more) = group_list(bytes@.skip(end + 1)) {
                        assert(out@ + (seq![g] + more) =~= out@.push(g) + more);
                    }
                }
                out.push(g);
                pos = end + 1;
            },
        }
    }
}

/// What a preset was made from.
pub struct PresetView {
    /// The number of rows that the preset cuts into partitions.
    pub total_rows: nat,
    /// The number of rows of a partition that belongs to no group.
    pub base: nat,
    /// The declared groups, in the order of declaration.
    pub groups: Seq<Group>,
}

/// Whether every group has at least one partition and a multiplier of at
/// least one.
pub open spec fn groups_positive(groups: Seq<Group>) -> bool {
    forall|i: int|
        0 <= i < groups.len() ==> (#[trigger] groups[i]).multiplier > 0 && groups[i].partitions > 0
}

/// The number of rows that one group declares.
pub open spec fn group_rows(base: nat, g: Group) -> nat {
    base * g.multiplier as nat * g.partitions as nat
}

/// The number of rows that the groups declare together.
pub open spec fn declared_rows(base: nat, groups: Seq<Group>) -> nat
    decreases groups.len(),
{
    if groups.len() == 0 {
        0
    } else {
        declared_rows(base, groups.drop_last()) + group_rows(base, groups.last())
    }
}

/// `n` partitions of `size` rows each.
pub open spec fn repeat(size: nat, n: nat) -> Seq<nat> {
    Seq::new(n, |i: int| size)
}

/// The sizes of the partitions of the declared groups, group after group.
pub open spec fn group_sizes(base: nat, groups: Seq<Group>) -> Seq<nat>
    decreases groups.len(),
{
    if groups.len() == 0 {
        Seq::empty()
    } else {
        group_sizes(base, groups.drop_last()) + repeat(
            base * groups.last().multiplier as nat,
            groups.last().partitions as nat,
        )
    }
}

/// The sizes of the partitions that hold the `rest` rows which no group
/// declares: partitions of the base size, and a last, shorter one where the
/// base size does not divide `rest`.
pub open spec fn rest_sizes(rest: nat, base: nat) -> Seq<nat> {
    if base == 0 {
        Seq::empty()
    } else if rest % base > 0 {
        repeat(base, rest / base).push(rest % base)
    } else {
        repeat(base, rest / base)
    }
}

/// The sum of the first `p` of `sizes`: the ordinal of the first row of
/// partition `p`.
pub open spec fn rows_before(sizes: Seq<nat>, p: int) -> nat
    decreases p,
{
    if p <= 0 {
        0
    } else {
        rows_before(sizes, p - 1) + sizes[p - 1]
    }
}

/// Whether partition `p` of `sizes` holds the row with the given ordinal.
pub open spec fn owns(sizes: Seq<nat>, p: int, ordinal: nat) -> bool {
    &&& 0 <= p < sizes.len()
    &&& rows_before(sizes, p) <= ordinal < rows_before(sizes, p) + sizes[p]
}

impl PresetView {
    /// Whether a preset can be made from these values: the base size is
    /// positive, so is every group's multiplier and partition count, and the
    /// groups declare no more rows than there are.
    pub open spec fn valid(self) -> bool {
        &&& self.base > 0
        &&& groups_positive(self.groups)
        &&& declared_rows(self.base, self.groups) <= self.total_rows
    }

    /// The number of rows that no group declares.
    pub open spec fn rest(self) -> nat {
        if declared_rows(self.base, self.groups) <= self.total_rows {
            (self.total_rows - declared_rows(self.base, self.groups)) as nat
        } else {
            0
        }
    }

    /// The size of every partition, in the order of the partitions.
    pub open spec fn sizes(self) -> Seq<nat> {
        group_sizes(self.base, self.groups) + rest_sizes(self.rest(), self.base)
    }
}

/// Why no preset can be made from the given values.
pub open spec fn preset_fault(v: PresetView) -> Seq<char>
    recommends
        !v.valid(),
{
    if v.base == 0 {
        "The base number of rows per partition must be positive"@
    } else if !groups_positive(v.groups) {
        "A partition group needs a positive multiplier and a positive number of partitions"@
    } else {
        "The partition groups declare more rows than the preset holds"@
    }
}

proof fn lemma_same_prefix(a: Seq<nat>, b: Seq<nat>, p: int)
    requires
        0 <= p <= a.len() <= b.len(),
        forall|i: int| 0 <= i < a.len() ==> a[i] == b[i],
    ensures
        rows_before(a, p) == rows_before(b, p),
    decreases p,
{
    if p > 0 {
        lemma_same_prefix(a, b, p - 1);
    }
}

proof fn lemma_run(sizes: Seq<nat>, from: int, size: nat, k: int)
    requires
        0 <= from,
        0 <= k,
        from + k <= sizes.len(),
        forall|i: int| from <= i < from + k ==> sizes[i] == size,
    ensures
        rows_before(sizes, from + k) == rows_before(sizes, from) + k * size,
    decreases k,
{
    if k > 0 {
        lemma_run(sizes, from, size, k - 1);
        assert(sizes[from + k - 1] == size);
        assert((k - 1) * size + size == k * size) by (nonlinear_arith);
    } else {
        assert(k * size == 0) by (nonlinear_arith)
            requires
                k == 0,
        ;
    }
}

proof fn lemma_concat(a: Seq<nat>, b: Seq<nat>, k: int)
    requires
        0 <= k <= b.len(),
    ensures
        rows_before(a + b, a.len() + k) == rows_before(a, a.len() as int) + rows_before(b, k),
    decreases k,
{
    if k == 0 {
        lemma_same_prefix(a, a + b, a.len() as int);
    } else {
        lemma_concat(a, b, k - 1);
        assert((a + b)[a.len() + k - 1] == b[k - 1]);
    }
}

proof fn lemma_rows_before_grows(sizes: Seq<nat>, p: int, q: int)
    requires
        p <= q,
    ensures
        rows_before(sizes, p) <= rows_before(sizes, q),
    decreases q - p,
{
    if p < q {
        lemma_rows_before_grows(sizes, p, q - 1);
    }
}

proof fn lemma_group_step(base: nat, groups: Seq<Group>, i: int)
    requires
        0 <= i < groups.len(),
    ensures
        group_sizes(base, groups.take(i + 1)) == group_sizes(base, groups.take(i)) + repeat(
            base * groups[i].multiplier as nat,
            groups[i].partitions as nat,
        ),
        declared_rows(base, groups.take(i + 1)) == declared_rows(base, groups.take(i))
            + group_rows(base, groups[i]),
{
    assert(groups.take(i + 1).drop_last() =~= groups.take(i));
}

proof fn lemma_group_prefix(base: nat, groups: Seq<Group>, i: int)
    requires
        0 <= i <= groups.len(),
    ensures
        group_sizes(base, groups.take(i)).len() <= group_sizes(base, groups).len(),
        forall|k: int|
            0 <= k < group_sizes(base, groups.take(i)).len() ==> group_sizes(
                base,
                groups.take(i),
            )[k] == group_sizes(base, groups)[k],
        declared_rows(base, groups.take(i)) <= declared_rows(base, groups),
    decreases groups.len() - i,
{
    if i == groups.len() {
        assert(groups.take(i) =~= groups);
    } else {
        lemma_group_prefix(base, groups, i + 1);
        lemma_group_step(base, groups, i);
    }
}

proof fn lemma_group_total(base: nat, groups: Seq<Group>)
    ensures
        rows_before(group_sizes(base, groups), group_sizes(base, groups).len() as int)
            == declared_rows(base, groups),
    decreases groups.len(),
{
    if groups.len() > 0 {
        let head = group_sizes(base, groups.drop_last());
        let size = base * groups.last().multiplier as nat;
        let n = groups.last().partitions as nat;
        lemma_group_total(base, groups.drop_last());
        lemma_concat(head, repeat(size, n), n as int);
        lemma_run(repeat(size, n), 0, size, n as int);
    }
}

proof fn lemma_rest_total(rest: nat, base: nat)
    requires
        base > 0,
    ensures
        rows_before(rest_sizes(rest, base), rest_sizes(rest, base).len() as int) == rest,
{
    let q = rest / base;
    let sizes = rest_sizes(rest, base);
    lemma_run(sizes, 0, base, q as int);
    assert(q * base + rest % base == rest) by (nonlinear_arith)
        requires
            base > 0,
            q == rest / base,
    ;
}

/// The partitions of a preset hold all of its rows, and no others: their
/// sizes add up to the preset's number of rows.
pub proof fn lemma_sizes_add_up(v: PresetView)
    requires
        v.valid(),
    ensures
        rows_before(v.sizes(), v.sizes().len() as int) == v.total_rows,
{
    let head = group_sizes(v.base, v.groups);
    let tail = rest_sizes(v.rest(), v.base);
    lemma_group_total(v.base, v.groups);
    lemma_rest_total(v.rest(), v.base);
    lemma_concat(head, tail, tail.len() as int);
}

proof fn lemma_group_sizes_positive(base: nat, groups: Seq<Group>)
    requires
        base > 0,
        groups_positive(groups),
    ensures
        forall|p: int|
            0 <= p < group_sizes(base, groups).len() ==> #[trigger] group_sizes(base, groups)[p]
                > 0,
    decreases groups.len(),
{
    if groups.len() > 0 {
        lemma_group_sizes_positive(base, groups.drop_last());
        let head = group_sizes(base, groups.drop_last());
        let m = groups.last().multiplier as nat;
        assert(base * m > 0) by (nonlinear_arith)
            requires
                base > 0,
                m > 0,
        ;
        assert forall|p: int| 0 <= p < group_sizes(base, groups).len() implies #[trigger] group_sizes(
            base,
            groups,
        )[p] > 0 by {
            if p < head.len() {
                assert(head[p] > 0);
            }
        }
    }
}

/// No partition of a preset is empty.
pub proof fn lemma_sizes_positive(v: PresetView)
    requires
        v.valid(),
    ensures
        forall|p: int| 0 <= p < v.sizes().len() ==> #[trigger] v.sizes()[p] > 0,
{
    lemma_group_sizes_positive(v.base, v.groups);
}

/// The partition index never decreases as the row ordinal grows: of two rows,
/// the later one lies in the same partition as the earlier one or in a later
/// partition.
pub proof fn lemma_owner_monotonic(sizes: Seq<nat>, p: int, row: nat, q: int, later: nat)
    requires
        owns(sizes, p, row),
        owns(sizes, q, later),
        row <= later,
    ensures
        p <= q,
{
    if q < p {
        lemma_rows_before_grows(sizes, q + 1, p);
    }
}

/// No row lies in two partitions.
pub proof fn lemma_owner_unique(sizes: Seq<nat>, p: int, q: int, ordinal: nat)
    requires
        owns(sizes, p, ordinal),
        owns(sizes, q, ordinal),
    ensures
        p == q,
{
    lemma_owner_monotonic(sizes, p, ordinal, q, ordinal);
    lemma_owner_monotonic(sizes, q, ordinal, p, ordinal);
}

/// Every row below the sum of the first `n` sizes lies in one of the first
/// `n` partitions.
pub proof fn lemma_owner_exists(sizes: Seq<nat>, n: int, ordinal: nat)
    requires
        0 <= n <= sizes.len(),
        ordinal < rows_before(sizes, n),
    ensures
        exists|p: int| p < n && owns(sizes, p, ordinal),
    decreases n,
{
    if rows_before(sizes, n - 1) <= ordinal {
        assert(owns(sizes, n - 1, ordinal));
    } else {
        lemma_owner_exists(sizes, n - 1, ordinal);
    }
}

/// A run of consecutive partitions of one size. Of the partitions of the
/// last run, the last one may be shorter than the others.
#[derive(Clone, Copy, Debug)]
struct Segment {
    /// The index of the run's first partition.
    first_partition: u64,
    /// The ordinal of the run's first row.
    first_row: u64,
    /// The size of the run's partitions.
    partition_rows: u64,
    /// The number of partitions in the run.
    partitions: u64,
    /// The number of rows in the run.
    rows: u64,
}

impl Segment {
    /// Whether the run describes the partitions of `sizes` that it covers.
    spec fn matches_sizes(self, sizes: Seq<nat>) -> bool {
        &&& self.partitions > 0
        &&& self.partition_rows > 0
        &&& (self.partitions - 1) * self.partition_rows < self.rows
        &&& self.rows <= self.partitions * self.partition_rows
        &&& self.first_partition + self.partitions <= sizes.len()
        &&& self.first_partition <= self.first_row
        &&& rows_before(sizes, self.first_partition as int) == self.first_row
        &&& forall|p: int|
            self.first_partition <= p < self.first_partition + self.partitions - 1 ==> sizes[p]
                == self.partition_rows
        &&& sizes[self.first_partition + self.partitions - 1] == self.rows - (self.partitions - 1)
            * self.partition_rows
    }

    spec fn end_partition(self) -> int {
        self.first_partition + self.partitions
    }

    spec fn end_row(self) -> int {
        self.first_row + self.rows
    }
}

/// Whether the runs `segs` follow one another from partition 0 and row 0 up
/// to the given ends, each describing its part of `sizes`.
spec fn chained(sizes: Seq<nat>, segs: Seq<Segment>, end_partition: int, end_row: int) -> bool {
    &&& forall|j: int| 0 <= j < segs.len() ==> (#[trigger] segs[j]).matches_sizes(sizes)
    &&& forall|j: int|
        0 <= j < segs.len() - 1 ==> (#[trigger] segs[j]).end_partition() == segs[j
            + 1].first_partition && segs[j].end_row() == segs[j + 1].first_row
    &&& segs.len() > 0 ==> segs[0].first_partition == 0 && segs[0].first_row == 0
        && segs.last().end_partition() == end_partition && segs.last().end_row() == end_row
    &&& segs.len() == 0 ==> end_partition == 0 && end_row == 0
}

proof fn lemma_chain_grows(sizes: Seq<nat>, segs: Seq<Segment>, seg: Segment)
    requires
        chained(sizes, segs, seg.first_partition as int, seg.first_row as int),
        seg.matches_sizes(sizes),
    ensures
        chained(sizes, segs.push(seg), seg.end_partition(), seg.end_row()),
{
    let longer = segs.push(seg);
    assert forall|j: int| 0 <= j < longer.len() implies (#[trigger] longer[j]).matches_sizes(
        sizes,
    ) by {
        if j < segs.len() {
            assert(longer[j] == segs[j]);
        }
    }
    assert forall|j: int| 0 <= j < longer.len() - 1 implies (#[trigger] longer[j]).end_partition()
        == longer[j + 1].first_partition && longer[j].end_row() == longer[j + 1].first_row by {
        assert(longer[j] == segs[j]);
        if j + 1 < segs.len() {
            assert(longer[j + 1] == segs[j + 1]);
        }
    }
}

proof fn lemma_locate(sizes: Seq<nat>, seg: Segment, ordinal: u64)
    requires
        seg.matches_sizes(sizes),
        seg.first_row <= ordinal < seg.end_row(),
    ensures
        ({
            let k = (ordinal - seg.first_row) / (seg.partition_rows as int);
            &&& 0 <= k < seg.partitions
            &&& k * seg.partition_rows <= ordinal - seg.first_row
            &&& k <= ordinal - seg.first_row
            &&& owns(sizes, seg.first_partition + k, ordinal as nat)
            &&& k == seg.partitions - 1 ==> sizes[seg.first_partition + k] == seg.rows - k
                * seg.partition_rows
            &&& k < seg.partitions - 1 ==> sizes[seg.first_partition + k] == seg.partition_rows
        }),
{
    let off = ordinal - seg.first_row;
    let pr = seg.partition_rows as int;
    let np = seg.partitions as int;
    let k = off / pr;
    assert(0 <= k < np && k * pr <= off < (k + 1) * pr && k <= off && (k + 1) * pr == k * pr + pr)
        by (nonlinear_arith)
        requires
            pr > 0,
            0 <= off < np * pr,
            k == off / pr,
    ;
    lemma_run(sizes, seg.first_partition as int, seg.partition_rows as nat, k);
}

/// The values that a preset is made from, as the view of a preset.
pub open spec fn preset_view(total_rows: u64, base: u64, groups: Seq<Group>) -> PresetView {
    PresetView { total_rows: total_rows as nat, base: base as nat, groups }
}

/// The text of the error for a row ordinal that the preset does not hold.
pub open spec fn out_of_range_text(ordinal: u64) -> Seq<char> {
    "Row "@ + crate::text::decimal(ordinal as nat) + " lies outside the preset"@
}

/// A named way to cut a number of rows into partitions of unequal size,
/// compiled into a table of runs of equal partitions. Every preset is made
/// from valid values: its lookups say so, which brings the laws of valid
/// presets to bear on a preset that a table holds.
#[derive(Debug)]
pub struct RowDistributionPreset {
    total_rows: u64,
    base: u64,
    groups: Vec<Group>,
    segments: Vec<Segment>,
}

impl View for RowDistributionPreset {
    type V = PresetView;

    closed spec fn view(&self) -> PresetView {
        preset_view(self.total_rows, self.base, self.groups@)
    }
}

fn argument_error(text: &str) -> (e: Error)
    ensures
        e.0 is ArgumentError,
        e.0.text() == text@,
{
    Error(ErrorKind::ArgumentError(String::from_str(text)))
}

impl RowDistributionPreset {
    #[verifier::type_invariant]
    spec fn well_formed(&self) -> bool {
        &&& self@.valid()
        &&& chained(
            self@.sizes(),
            self.segments@,
            self@.sizes().len() as int,
            self.total_rows as int,
        )
    }

    /// Makes the preset that cuts `total_rows` rows into the partitions of
    /// `groups`, in their order, followed by partitions of `base` rows for
    /// the rows that are left. Fails with an argument error if `base` is
    /// zero, if a group has a multiplier or a partition count of zero, or if
    /// the groups declare more rows than `total_rows`.
    pub fn new(total_rows: u64, base: u64, groups: Vec<Group>) -> (r: Result<
        RowDistributionPreset,
        Error,
    >)
        ensures
            match r {
                Ok(p) => {
                    &&& preset_view(total_rows, base, groups@).valid()
                    &&& p@ == preset_view(total_rows, base, groups@)
                },
                Err(e) => {
                    &&& !preset_view(total_rows, base, groups@).valid()
                    &&& e.0 is ArgumentError
                    &&& e.0.text() == preset_fault(preset_view(total_rows, base, groups@))
                },
            },
    {
        let ghost v = preset_view(total_rows, base, groups@);
        let ghost sizes = v.sizes();
        if base == 0 {
            return Err(argument_error("The base number of rows per partition must be positive"));
        }
        let n: usize = groups.len();
        let mut i: usize = 0;
        while i < n
            invariant
                i <= n == groups@.len(),
                base > 0,
                groups_positive(groups@.take(i as int)),
            decreases n - i,
        {
            if groups[i].multiplier == 0 || groups[i].partitions == 0 {
                assert(!(groups@[i as int].multiplier > 0 && groups@[i as int].partitions > 0));
                return Err(
                    argument_error(
                        "A partition group needs a positive multiplier and a positive number of partitions",
                    ),
                );
            }
            i += 1;
            assert forall|j: int| 0 <= j < i implies (#[trigger] groups@.take(i as int)[j]).multiplier
                > 0 && groups@.take(i as int)[j].partitions > 0 by {
                if j < i - 1 {
                    assert(groups@.take(i - 1)[j] == groups@[j]);
                }
            }
        }
        assert(groups@.take(n as int) =~= groups@);
        let mut segments: Vec<Segment> = Vec::new();
        let mut next_partition: u64 = 0;
        let mut next_row: u64 = 0;
        i = 0;
        while i < n
            invariant
                i <= n == groups@.len(),
                base > 0,
                groups_positive(groups@),
                v == preset_view(total_rows, base, groups@),
                sizes == v.sizes(),
                segments@.len() == i,
                next_partition == group_sizes(base as nat, groups@.take(i as int)).len(),
                next_row == declared_rows(base as nat, groups@.take(i as int)),
                next_partition <= next_row <= total_rows,
                rows_before(sizes, next_partition as int) == next_row,
                chained(sizes, segments@, next_partition as int, next_row as int),
            decreases n - i,
        {
            let g = groups[i];
            let ghost b = base as nat;
            let ghost m = g.multiplier as nat;
            let ghost c = g.partitions as nat;
            proof {
                lemma_group_step(b, groups@, i as int);
                lemma_group_prefix(b, groups@, i as int + 1);
                assert(b * m * c >= b * m && b * m >= 1 && b * m * c >= c) by (nonlinear_arith)
                    requires
                        b >= 1,
                        m >= 1,
                        c >= 1,
                ;
            }
            let fault = "The partition groups declare more rows than the preset holds";
            let size: u64 = match base.checked_mul(g.multiplier) {
                Some(x) => x,
                None => { return Err(argument_error(fault)); },
            };
            let rows: u64 = match size.checked_mul(g.partitions) {
                Some(x) => x,
                None => { return Err(argument_error(fault)); },
            };
            let end_row: u64 = match next_row.checked_add(rows) {
                Some(x) => x,
                None => { return Err(argument_error(fault)); },
            };
            if end_row > total_rows {
                return Err(argument_error(fault));
            }
            let seg = Segment {
                first_partition: next_partition,
                first_row: next_row,
                partition_rows: size,
                partitions: g.partitions,
                rows,
            };
            proof {
                let head = group_sizes(b, groups@.take(i as int));
                let upto = group_sizes(b, groups@.take(i as int + 1));
                assert forall|p: int| next_partition <= p < next_partition + c implies sizes[p]
                    == size by {
                    assert(upto[p] == size);
                    assert(group_sizes(b, groups@)[p] == upto[p]);
                }
                assert((c - 1) * size < rows && rows - (c - 1) * size == size) by (nonlinear_arith)
                    requires
                        rows == size * c,
                        size >= 1,
                        c >= 1,
                ;
                assert(c * size == rows) by (nonlinear_arith)
                    requires
                        rows == size * c,
                ;
                lemma_run(sizes, next_partition as int, size as nat, c as int);
                assert(seg.matches_sizes(sizes));
            }
            proof {
                lemma_chain_grows(sizes, segments@, seg);
            }
            segments.push(seg);
            next_partition = next_partition + g.partitions;
            next_row = end_row;
            i += 1;
        }
        assert(groups@.take(n as int) =~= groups@);
        let rest: u64 = total_rows - next_row;
        if rest > 0 {
            let whole: u64 = rest / base;
            let short: u64 = rest % base;
            assert(whole * base + short == rest && whole <= whole * base) by (nonlinear_arith)
                requires
                    base > 0,
                    whole == rest / base,
                    short == rest % base,
            ;
            let partitions: u64 = if short > 0 {
                whole + 1
            } else {
                whole
            };
            let seg = Segment {
                first_partition: next_partition,
                first_row: next_row,
                partition_rows: base,
                partitions,
                rows: rest,
            };
            proof {
                let head = group_sizes(base as nat, groups@);
                let tail = rest_sizes(rest as nat, base as nat);
                assert(v.rest() == rest);
                assert((whole + 1) * base == whole * base + base && (whole - 1) * base == whole
                    * base - base) by (nonlinear_arith);
                assert(short == 0 ==> whole > 0) by (nonlinear_arith)
                    requires
                        whole * base + short == rest,
                        rest > 0,
                ;
                assert(sizes == head + tail);
                assert(head.len() == next_partition);
                assert(tail.len() == partitions);
                assert forall|p: int|
                    next_partition <= p < next_partition + partitions - 1 implies sizes[p]
                    == base by {
                    assert(sizes[p] == tail[p - head.len()]);
                }
                assert(sizes[next_partition + partitions - 1] == tail[partitions - 1]);
                assert(seg.matches_sizes(sizes));
            }
            proof {
                lemma_chain_grows(sizes, segments@, seg);
            }
            segments.push(seg);
        } else {
            assert(rest_sizes(0, base as nat) =~= Seq::<nat>::empty());
            assert(sizes =~= group_sizes(base as nat, groups@));
        }
        Ok(RowDistributionPreset { total_rows, base, groups, segments })
    }

    /// The partition that holds the row with the given ordinal, and the
    /// number of rows of that partition. Fails with a lookup error if the
    /// preset holds no such row.
    pub fn get_partition_info(&self, ordinal: u64) -> (r: Result<(u64, u64), Error>)
        ensures
            self@.valid(),
            match r {
                Ok(found) => {
                    &&& ordinal < self@.total_rows
                    &&& owns(self@.sizes(), found.0 as int, ordinal as nat)
                    &&& found.1 == self@.sizes()[found.0 as int]
                },
                Err(e) => {
                    &&& ordinal >= self@.total_rows
                    &&& e.0 is LookupError
                    &&& e.0.text() == out_of_range_text(ordinal)
                },
            },
    {
        proof {
            use_type_invariant(self);
        }
        if ordinal >= self.total_rows {
            let mut text = String::from_str("Row ");
            crate::text::push_decimal(&mut text, ordinal);
            text.append(" lies outside the preset");
            return Err(Error(ErrorKind::LookupError(text)));
        }
        let ghost sizes = self@.sizes();
        let mut lo: usize = 0;
        let mut hi: usize = self.segments.len();
        while hi - lo > 1
            invariant
                0 <= lo < hi <= self.segments@.len(),
                chained(sizes, self.segments@, sizes.len() as int, self.total_rows as int),
                self.segments@[lo as int].first_row <= ordinal < self.total_rows,
                hi < self.segments@.len() ==> ordinal < self.segments@[hi as int].first_row,
            decreases hi - lo,
        {
            let mid: usize = lo + (hi - lo) / 2;
            if self.segments[mid].first_row <= ordinal {
                lo = mid;
            } else {
                hi = mid;
            }
        }
        let seg = self.segments[lo];
        assert(seg.matches_sizes(sizes));
        assert(ordinal < seg.end_row());
        let offset: u64 = ordinal - seg.first_row;
        let k: u64 = offset / seg.partition_rows;
        proof {
            lemma_locate(sizes, seg, ordinal);
        }
        let index: u64 = seg.first_partition + k;
        let rows: u64 = if k == seg.partitions - 1 {
            seg.rows - k * seg.partition_rows
        } else {
            seg.partition_rows
        };
        Ok((index, rows))
    }

    /// The number of rows that the preset cuts into partitions.
    pub fn total_rows(&self) -> (n: u64)
        ensures
            n == self@.total_rows,
            self@.valid(),
    {
        proof {
            use_type_invariant(self);
        }
        self.total_rows
    }
}

impl Clone for RowDistributionPreset {
    fn clone(&self) -> (r: Self)
        ensures
            r@ == self@,
            self@.valid(),
    {
        proof {
            use_type_invariant(self);
        }
        RowDistributionPreset {
            total_rows: self.total_rows,
            base: self.base,
            groups: self.groups.clone(),
            segments: self.segments.clone(),
        }
    }
}

/// What the presets of a table were made from, name by name.
pub open spec fn preset_views(table: Map<Seq<char>, RowDistributionPreset>) -> Map<
    Seq<char>,
    PresetView,
> {
    table.map_values(|preset: RowDistributionPreset| preset@)
}

/// Copies a table of presets.
pub fn copy_presets(table: &NamedTable<RowDistributionPreset>) -> (copy: NamedTable<
    RowDistributionPreset,
>)
    ensures
        preset_views(copy@) == preset_views(table@),
{
    let copy = table.clone();
    assert(preset_views(copy@) =~= preset_views(table@)) by {
        assert forall|name: Seq<char>| #[trigger] table@.contains_key(name) implies copy@[name]@
            == table@[name]@ by {
            assert(cloned(table@[name], copy@[name]));
        }
    }
    copy
}

/// The text of the error for a groups text that is no list of groups.
pub open spec fn malformed_groups_text() -> Seq<char> {
    "The partition groups must be written as multiplier:partitions pairs separated by commas"@
}

/// The text of the error for a preset name that is not in the table.
pub open spec fn unknown_preset_text(name: Seq<char>) -> Seq<char> {
    "Unknown partition row distribution preset: "@ + name
}

/// The preset that the given values describe, if they describe one.
pub open spec fn described_preset(total_rows: u64, base: u64, groups: Seq<u8>) -> Option<
    PresetView,
> {
    match groups_of(groups) {
        Some(declared) => if preset_view(total_rows, base, declared).valid() {
            Some(preset_view(total_rows, base, declared))
        } else {
            None
        },
        None => None,
    }
}

/// Why the given values describe no preset.
pub open spec fn description_fault(total_rows: u64, base: u64, groups: Seq<u8>) -> Seq<char>
    recommends
        described_preset(total_rows, base, groups) is None,
{
    match groups_of(groups) {
        Some(declared) => preset_fault(preset_view(total_rows, base, declared)),
        None => malformed_groups_text(),
    }
}

/// Makes the preset that `total_rows`, `base` and the groups text describe
/// and enters it in `table` under `name`. A preset entered under that name
/// before is replaced. Fails with an argument error, and leaves the table as
/// it was, if the text is no list of groups or the values describe no
/// preset.
pub fn init_preset(
    table: &mut NamedTable<RowDistributionPreset>,
    name: &str,
    total_rows: u64,
    base: u64,
    groups: &str,
) -> (r: Result<(), Error>)
    ensures
        match r {
            Ok(_) => {
                &&& described_preset(total_rows, base, groups.spec_bytes()) is Some
                &&& final(table)@.contains_key(name@)
                &&& final(table)@[name@]@ == described_preset(
                    total_rows,
                    base,
                    groups.spec_bytes(),
                )->0
                &&& final(table)@ == old(table)@.insert(name@, final(table)@[name@])
            },
            Err(e) => {
                &&& described_preset(total_rows, base, groups.spec_bytes()) is None
                &&& final(table)@ == old(table)@
                &&& e.0 is ArgumentError
                &&& e.0.text() == description_fault(total_rows, base, groups.spec_bytes())
            },
        },
{
    let declared = match parse_groups(groups) {
        Some(declared) => declared,
        None => {
            return Err(
                argument_error(
                    "The partition groups must be written as multiplier:partitions pairs separated by commas",
                ),
            );
        },
    };
    let preset = RowDistributionPreset::new(total_rows, base, declared)?;
    table.insert(name, preset);
    Ok(())
}

/// The partition of the preset `name` that holds the row with the given
/// ordinal, and the number of rows of that partition. Fails with a lookup
/// error if the table has no preset of that name or the preset has no such
/// row.
pub fn partition_info(table: &NamedTable<RowDistributionPreset>, name: &str, ordinal: u64) -> (r:
    Result<(u64, u64), Error>)
    ensures
        table@.contains_key(name@) ==> table@[name@]@.valid(),
        match r {
            Ok(found) => {
                &&& table@.contains_key(name@)
                &&& ordinal < table@[name@]@.total_rows
                &&& owns(table@[name@]@.sizes(), found.0 as int, ordinal as nat)
                &&& found.1 == table@[name@]@.sizes()[found.0 as int]
            },
            Err(e) => {
                &&& e.0 is LookupError
                &&& !table@.contains_key(name@) ==> e.0.text() == unknown_preset_text(name@)
                &&& table@.contains_key(name@) ==> ordinal >= table@[name@]@.total_rows
                    && e.0.text() == out_of_range_text(ordinal)
            },
        },
{
    match table.get(name) {
        Some(preset) => preset.get_partition_info(ordinal),
        None => {
            let mut text = String::from_str("Unknown partition row distribution preset: ");
            text.append(name);
            Err(Error(ErrorKind::LookupError(text)))
        },
    }
}

/// The partitions of a preset cover every row exactly once: each row of the
/// preset lies in one partition, and in no other.
pub proof fn lemma_rows_covered_once(v: PresetView, ordinal: nat)
    requires
        v.valid(),
        ordinal < v.total_rows,
    ensures
        exists|p: int| owns(v.sizes(), p, ordinal),
        forall|p: int, q: int|
            owns(v.sizes(), p, ordinal) && owns(v.sizes(), q, ordinal) ==> p == q,
{
    lemma_sizes_add_up(v);
    lemma_owner_exists(v.sizes(), v.sizes().len() as int, ordinal);
    assert forall|p: int, q: int|
        owns(v.sizes(), p, ordinal) && owns(v.sizes(), q, ordinal) implies p == q by {
        lemma_owner_unique(v.sizes(), p, q, ordinal);
    }
}

/// Row 0 of a preset that has rows lies in partition 0.
pub proof fn lemma_first_row(v: PresetView, p: int)
    requires
        v.valid(),
        owns(v.sizes(), p, 0),
    ensures
        p == 0,
{
    lemma_sizes_positive(v);
    if p > 0 {
        lemma_rows_before_grows(v.sizes(), 1, p);
        assert(v.sizes()[0] > 0);
    }
}

} // verus!
