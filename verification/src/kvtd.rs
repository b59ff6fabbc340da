//! `(Key, Value, Time, Diff)` tuples: a minimal insert-only changelog.
//!
//! One relation whose row at global index `i` is the 16-digit lowercase hex
//! rendering of `i` as key, a fixed-length byte string drawn from a
//! multiplicative hash chain seeded with `i + 1` as value, `i` as time and
//! the constant `1` as diff.

use vstd::arithmetic::div_mod::lemma_fundamental_div_mod;
use vstd::arithmetic::mul::lemma_mul_inequality;
use vstd::prelude::*;

use crate::col::{clear_string, BytesCol, Col, Data, TextCol};
use crate::{Dataset, DynTable, Table, TableFnMut};

verus! {

/// Configuration for [`Kvtd`].
#[derive(Debug, Clone, Copy)]
pub struct KvtdConfig {
    /// The number of bytes in the val column of each row.
    pub val_bytes: usize,
    /// The total number of rows in all batches.
    pub num_rows: usize,
    /// The maximum number of rows to include in any given batch.
    pub max_rows_per_batch: usize,
}

impl KvtdConfig {
    /// A configuration is valid when its batching granularity is positive.
    pub open spec fn wf(&self) -> bool {
        self.max_rows_per_batch >= 1
    }
}

/// The hex digits, least value first.
pub open spec fn hex_digits() -> Seq<char> {
    "0123456789abcdef"@
}

/// Nibble `i` of `x`, counting from the most significant.
pub open spec fn nibble_of(x: u64, i: int) -> u64 {
    (x >> (((15 - i) * 4) as u64)) & 0xf
}

/// The fixed-width 16-digit lowercase hex rendering of `x`, most significant
/// nibble first.
pub open spec fn hex_str(x: u64) -> Seq<char> {
    Seq::new(16, |i: int| hex_digits()[nibble_of(x, i) as int])
}

/// One step of the multiplicative hash chain that generates value bytes.
pub open spec fn chain_mul(x: u64) -> u64 {
    vstd::wrapping::u64_specs::wrapping_mul(x, 0xffff_ffff_ffff_ffc5u64)
}

/// The chain state after `j` multiplications starting from `x0`.
pub open spec fn chain_state(x0: u64, j: nat) -> u64
    decreases j,
{
    if j == 0 {
        x0
    } else {
        chain_mul(chain_state(x0, (j - 1) as nat))
    }
}

/// The `n`-byte value drawn from the chain seeded with `x0`: byte `j` is the
/// low byte of the `(j + 1)`-th successive product.
pub open spec fn val_bytes_of(x0: u64, n: nat) -> Seq<u8> {
    Seq::new(n, |j: int| chain_state(x0, (j + 1) as nat) as u8)
}

/// The concatenated keys of rows `start .. start + len`.
pub open spec fn keys_block(start: nat, len: nat) -> Seq<char>
    decreases len,
{
    if len == 0 {
        Seq::empty()
    } else {
        keys_block(start, (len - 1) as nat) + hex_str((start + len - 1) as u64)
    }
}

/// The concatenated values of rows `start .. start + len`.
pub open spec fn vals_block(start: nat, len: nat, val_bytes: nat) -> Seq<u8>
    decreases len,
{
    if len == 0 {
        Seq::empty()
    } else {
        vals_block(start, (len - 1) as nat, val_bytes) + val_bytes_of(
            (start + len) as u64,
            val_bytes,
        )
    }
}

/// The number of batches that `num_rows` rows make at `max` rows per batch:
/// the ceiling of their quotient.
pub open spec fn spec_batch_count(num_rows: nat, max: nat) -> nat {
    num_rows / max + if num_rows % max != 0 {
        1nat
    } else {
        0nat
    }
}

/// The number of rows in batch `idx`: the batching granularity, or the rows
/// remaining, whichever is smaller; none at all past the last batch.
pub open spec fn spec_batch_rows(num_rows: nat, max: nat, idx: nat) -> nat {
    let start = idx * max;
    if start < num_rows {
        if max <= num_rows - start {
            max
        } else {
            (num_rows - start) as nat
        }
    } else {
        0
    }
}

/// Batch boundaries sit where the ceiling says: a batch index below the
/// count starts strictly inside the rows, one at or past it starts at or
/// past their end.
proof fn lemma_batch_start(num_rows: nat, max: nat, idx: nat)
    requires
        max >= 1,
    ensures
        idx < spec_batch_count(num_rows, max) ==> idx * max < num_rows,
        idx >= spec_batch_count(num_rows, max) ==> idx * max >= num_rows,
{
    let nb = spec_batch_count(num_rows, max);
    let q = num_rows / max;
    let r = num_rows % max;
    lemma_fundamental_div_mod(num_rows as int, max as int);
    assert(num_rows == q * max + r);
    if idx < nb {
        if r == 0 {
            assert(idx * max < num_rows) by (nonlinear_arith)
                requires
                    num_rows == q * max,
                    idx < q,
                    max >= 1,
            ;
        } else {
            assert(idx * max < num_rows) by (nonlinear_arith)
                requires
                    num_rows == q * max + r,
                    r >= 1,
                    idx <= q,
                    max >= 1,
            ;
        }
    } else {
        if r == 0 {
            assert(idx * max >= num_rows) by (nonlinear_arith)
                requires
                    num_rows == q * max,
                    idx >= q,
                    max >= 1,
            ;
        } else {
            assert(idx * max >= num_rows) by (nonlinear_arith)
                requires
                    num_rows == q * max + r,
                    r < max,
                    idx >= q + 1,
                    max >= 1,
            ;
        }
    }
}

/// For every valid batch index the batch holds `min(max, rows remaining)`
/// rows, and every batch but the last holds exactly `max`; for indices at or
/// past the batch count the batch holds none.
pub proof fn lemma_batch_rows(num_rows: nat, max: nat, idx: nat)
    requires
        max >= 1,
    ensures
        idx < spec_batch_count(num_rows, max) ==> spec_batch_rows(num_rows, max, idx) == if max
            <= num_rows - idx * max {
            max as int
        } else {
            num_rows - idx * max
        },
        idx < spec_batch_count(num_rows, max) ==> spec_batch_rows(num_rows, max, idx) >= 1,
        idx >= spec_batch_count(num_rows, max) ==> spec_batch_rows(num_rows, max, idx) == 0,
{
    lemma_batch_start(num_rows, max, idx);
}

/// The sum of the row counts of batches `0 .. n`.
pub open spec fn sum_batch_rows(num_rows: nat, max: nat, n: nat) -> nat
    decreases n,
{
    if n == 0 {
        0
    } else {
        sum_batch_rows(num_rows, max, (n - 1) as nat) + spec_batch_rows(
            num_rows,
            max,
            (n - 1) as nat,
        )
    }
}

/// The first `n` batches together hold `min(n * max, num_rows)` rows.
proof fn lemma_sum_batch_rows(num_rows: nat, max: nat, n: nat)
    requires
        max >= 1,
    ensures
        sum_batch_rows(num_rows, max, n) == if n * max <= num_rows {
            n * max
        } else {
            num_rows
        },
    decreases n,
{
    if n == 0 {
        assert(n * max == 0) by (nonlinear_arith)
            requires
                n == 0,
        ;
    } else {
        let m = (n - 1) as nat;
        lemma_sum_batch_rows(num_rows, max, m);
        let t = m * max;
        assert(n * max == t + max) by (nonlinear_arith)
            requires
                t == m * max,
                m == n - 1,
        ;
        assert(sum_batch_rows(num_rows, max, n) == sum_batch_rows(num_rows, max, m)
            + spec_batch_rows(num_rows, max, m));
        if t >= num_rows {
            assert(spec_batch_rows(num_rows, max, m) == 0);
            assert(sum_batch_rows(num_rows, max, n) == num_rows);
            assert(n * max > num_rows);
        } else {
            if max <= num_rows - t {
                assert(spec_batch_rows(num_rows, max, m) == max);
                assert(sum_batch_rows(num_rows, max, n) == t + max);
                assert(n * max <= num_rows);
            } else {
                assert(spec_batch_rows(num_rows, max, m) == num_rows - t);
                assert(sum_batch_rows(num_rows, max, n) == num_rows);
                assert(n * max > num_rows);
            }
        }
    }
}

/// The sum of the row counts of all batches equals the relation's total row
/// count.
pub proof fn lemma_total_rows(num_rows: nat, max: nat)
    requires
        max >= 1,
    ensures
        sum_batch_rows(num_rows, max, spec_batch_count(num_rows, max)) == num_rows,
{
    let nb = spec_batch_count(num_rows, max);
    lemma_sum_batch_rows(num_rows, max, nb);
    if nb * max <= num_rows {
        lemma_batch_start(num_rows, max, nb);
        lemma_fundamental_div_mod(num_rows as int, max as int);
    }
}

/// Appends the fixed-width 16-digit lowercase hex rendering of `x`, most
/// significant nibble first.
pub fn to_hex(col: &mut String, x: usize)
    ensures
        final(col)@ == old(col)@ + hex_str(x as u64),
{
    let digits = "0123456789abcdef";
    proof {
        reveal_strlit("0123456789abcdef");
    }
    let xv = x as u64;
    let mut k: usize = 0;
    while k < 16
        invariant
            k <= 16,
            xv == x as u64,
            digits@ == hex_digits(),
            digits@.len() == 16,
            col@ == old(col)@ + hex_str(xv).subrange(0, k as int),
        decreases 16 - k,
    {
        let shift: u64 = (15 - k as u64) * 4;
        let nib = ((xv >> shift) & 0xf) as usize;
        assert((xv >> shift) & 0xf < 16) by (bit_vector);
        let c = digits.substring_char(nib, nib + 1);
        col.append(c);
        proof {
            assert(col@ =~= old(col)@ + hex_str(xv).subrange(0, k as int + 1));
        }
        k = k + 1;
    }
    proof {
        assert(hex_str(xv).subrange(0, 16) =~= hex_str(xv));
    }
}

/// Fills `col` with the concatenated keys of rows `start .. start + len`,
/// clearing it first.
pub fn gen_keys(col: &mut String, start: usize, len: usize)
    requires
        start + len <= usize::MAX,
    ensures
        final(col)@ == keys_block(start as nat, len as nat),
{
    clear_string(col);
    let mut k: usize = 0;
    while k < len
        invariant
            k <= len,
            start + len <= usize::MAX,
            col@ == keys_block(start as nat, k as nat),
        decreases len - k,
    {
        to_hex(col, start + k);
        k = k + 1;
    }
}

/// Fills `col` with the concatenated `val_bytes`-byte values of rows
/// `start .. start + len`, clearing it first. The value of row `i` is drawn
/// from the hash chain seeded with `i + 1`, so that row `0` is not all
/// zeros.
pub fn gen_vals(col: &mut Vec<u8>, start: usize, len: usize, val_bytes: usize)
    requires
        start + len <= usize::MAX,
    ensures
        final(col)@ == vals_block(start as nat, len as nat, val_bytes as nat),
{
    col.clear();
    let mut k: usize = 0;
    while k < len
        invariant
            k <= len,
            start + len <= usize::MAX,
            col@ == vals_block(start as nat, k as nat, val_bytes as nat),
        decreases len - k,
    {
        let seed = (start + k + 1) as u64;
        let mut x: u64 = seed;
        let mut j: usize = 0;
        while j < val_bytes
            invariant
                j <= val_bytes,
                x == chain_state(seed, j as nat),
                col@ == vals_block(start as nat, k as nat, val_bytes as nat) + val_bytes_of(
                    seed,
                    j as nat,
                ),
            decreases val_bytes - j,
        {
            x = x.wrapping_mul(0xffff_ffff_ffff_ffc5u64);
            col.push(x as u8);
            proof {
                assert(col@ =~= vals_block(start as nat, k as nat, val_bytes as nat)
                    + val_bytes_of(seed, (j + 1) as nat));
            }
            j = j + 1;
        }
        proof {
            assert(col@ =~= vals_block(start as nat, (k + 1) as nat, val_bytes as nat));
        }
        k = k + 1;
    }
}

/// Fills `col` with the times of rows `start .. start + len` — each row's
/// time is its global index — clearing it first.
pub fn gen_times(col: &mut Vec<u64>, start: usize, len: usize)
    requires
        start + len <= usize::MAX,
    ensures
        final(col)@ == Seq::new(len as nat, |i: int| (start + i) as u64),
{
    col.clear();
    let mut k: usize = 0;
    while k < len
        invariant
            k <= len,
            start + len <= usize::MAX,
            col@ == Seq::new(k as nat, |i: int| (start + i) as u64),
        decreases len - k,
    {
        col.push((start + k) as u64);
        proof {
            assert(col@ =~= Seq::new((k + 1) as nat, |i: int| (start + i) as u64));
        }
        k = k + 1;
    }
}

/// Fills `col` with `len` diffs of constant `1`, modeling an insert-only
/// change stream, clearing it first.
pub fn gen_diffs(col: &mut Vec<i64>, len: usize)
    ensures
        final(col)@ == Seq::new(len as nat, |i: int| 1i64),
{
    col.clear();
    let mut k: usize = 0;
    while k < len
        invariant
            k <= len,
            col@ == Seq::new(k as nat, |i: int| 1i64),
        decreases len - k,
    {
        col.push(1i64);
        proof {
            assert(col@ =~= Seq::new((k + 1) as nat, |i: int| 1i64));
        }
        k = k + 1;
    }
}

/// The model of the changelog row at global index `row`.
pub open spec fn spec_row(cfg: KvtdConfig, row: nat) -> (Seq<char>, Seq<u8>, u64, i64) {
    (
        hex_str(row as u64),
        val_bytes_of((row + 1) as u64, cfg.val_bytes as nat),
        row as u64,
        1i64,
    )
}

/// `(Key, Val, Time, Diff)` tuples: a single-relation, insert-only
/// changelog.
#[derive(Debug, Clone, Copy)]
pub struct Kvtd {
    /// The configuration shared by every batch of this table.
    pub config: KvtdConfig,
}

impl Kvtd {
    /// For every valid batch index, the generated batch holds
    /// `min(max_rows_per_batch, rows remaining)` rows; for indices at or
    /// past the batch count it holds none.
    pub proof fn lemma_batch_len(&self, idx: nat)
        requires
            DynTable::inv(self),
        ensures
            idx < self.spec_num_batches() ==> self.spec_batch(idx).len() == if self.config.max_rows_per_batch
                <= self.config.num_rows - idx * self.config.max_rows_per_batch {
                self.config.max_rows_per_batch as int
            } else {
                self.config.num_rows - idx * self.config.max_rows_per_batch
            },
            idx >= self.spec_num_batches() ==> self.spec_batch(idx).len() == 0,
    {
        lemma_batch_rows(
            self.config.num_rows as nat,
            self.config.max_rows_per_batch as nat,
            idx,
        );
    }
}

impl DynTable for Kvtd {
    open spec fn inv(&self) -> bool {
        self.config.wf()
    }

    open spec fn spec_name(&self) -> Seq<char> {
        "kvtd"@
    }

    open spec fn spec_num_batches(&self) -> nat {
        spec_batch_count(self.config.num_rows as nat, self.config.max_rows_per_batch as nat)
    }

    fn name(&self) -> &'static str {
        "kvtd"
    }

    fn num_batches(&self) -> (n: usize) {
        let d = self.config.num_rows;
        let m = self.config.max_rows_per_batch;
        let q = d / m;
        let r = d % m;
        proof {
            lemma_fundamental_div_mod(d as int, m as int);
            if r != 0 {
                lemma_mul_inequality(1, m as int, q as int);
            }
        }
        if r != 0 {
            q + 1
        } else {
            q
        }
    }
}

impl Table for Kvtd {
    type Data = (String, Vec<u8>, u64, i64);

    type Batch = (TextCol, BytesCol, Vec<u64>, Vec<i64>);

    open spec fn congruent(&self, other: &Self) -> bool {
        self.config == other.config
    }

    open spec fn spec_batch(&self, idx: nat) -> Seq<(Seq<char>, Seq<u8>, u64, i64)> {
        let start = idx * self.config.max_rows_per_batch as nat;
        let len = spec_batch_rows(
            self.config.num_rows as nat,
            self.config.max_rows_per_batch as nat,
            idx,
        );
        Seq::new(len, |i: int| spec_row(self.config, (start + i) as nat))
    }

    proof fn lemma_congruent_determinism(&self, other: &Self) {
        assert forall|idx: nat| self.spec_batch(idx) == other.spec_batch(idx) by {
            assert(self.spec_batch(idx) =~= other.spec_batch(idx));
        }
    }

    proof fn lemma_out_of_range_empty(&self, idx: nat) {
        lemma_batch_start(
            self.config.num_rows as nat,
            self.config.max_rows_per_batch as nat,
            idx,
        );
    }

    fn gen_batch(&mut self, idx: usize, batch: &mut Self::Batch) {
        batch.clear();
        let nb = self.num_batches();
        proof {
            assert(self.config.max_rows_per_batch >= 1);
            lemma_batch_start(
                self.config.num_rows as nat,
                self.config.max_rows_per_batch as nat,
                idx as nat,
            );
        }
        if idx >= nb {
            proof {
                assert(batch.model_seq() =~= self.spec_batch(idx as nat));
            }
            return ;
        }
        let max = self.config.max_rows_per_batch;
        let num_rows = self.config.num_rows;
        let row_start = idx * max;
        let remaining = num_rows - row_start;
        let len = if max < remaining {
            max
        } else {
            remaining
        };
        let ghost target = self.spec_batch(idx as nat);
        assert(target.len() == len);
        let mut i: usize = 0;
        while i < len
            invariant
                i <= len,
                row_start + len <= num_rows <= usize::MAX,
                batch.inv(),
                batch.model_seq() == target.subrange(0, i as int),
                target == self.spec_batch(idx as nat),
                target.len() == len,
                forall|j: int|
                    0 <= j < len ==> target[j] == spec_row(self.config, (row_start + j) as nat),
            decreases len - i,
        {
            let row = row_start + i;
            let mut key_buf = String::new();
            to_hex(&mut key_buf, row);
            let mut val_buf: Vec<u8> = Vec::new();
            gen_vals(&mut val_buf, row, 1, self.config.val_bytes);
            proof {
                reveal_with_fuel(vals_block, 2);
                assert(val_buf@ =~= val_bytes_of((row + 1) as u64, self.config.val_bytes as nat));
            }
            let ts = row as u64;
            let diff = 1i64;
            let row_val = (key_buf, val_buf, ts, diff);
            batch.push(&row_val);
            proof {
                assert(batch.model_seq() =~= target.subrange(0, i as int + 1));
            }
            i = i + 1;
        }
        proof {
            assert(target.subrange(0, len as int) =~= target);
        }
    }
}

impl Dataset for Kvtd {
    type Config = KvtdConfig;

    open spec fn config_wf(config: &KvtdConfig) -> bool {
        config.wf()
    }

    open spec fn spec_config(&self) -> KvtdConfig {
        self.config
    }

    open spec fn inv(&self) -> bool {
        self.config.wf()
    }

    fn init(config: KvtdConfig) -> (d: Self) {
        Kvtd { config }
    }

    fn tables<F: TableFnMut>(&self, f: &mut F) {
        f.call_mut(*self);
    }
}

} // verus!
