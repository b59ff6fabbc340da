//! An OLTP benchmark schema: nine interdependent relations with fixed
//! cardinality formulas relative to a warehouse scale factor.
//!
//! Every batch is generated from a pseudo-random generator seeded purely
//! with the batch index, so batches are reproducible and order-independent.
//! Money and rate fields are integer-scaled (cents, or fourths of a
//! percent) to keep the generated values exact.
//!
//! Tables hold no per-row scratch buffers: each row's text is built in a
//! fresh buffer, and allocation reuse lives in the columns, which keep
//! their storage across batches when cleared.

use vstd::prelude::*;

use crate::col::{Col, Data, OptU64Col, TextCol};
use crate::rng::{rand_in, rand_next, rng_seeded, shuffle_next, shuffled_of, SeededRng};
use crate::{Dataset, DynTable, Table, TableFnMut};

verus! {

/// A calendar timestamp: days since the epoch and seconds since midnight.
#[derive(Clone, Copy, Debug, PartialEq, Eq, Structural)]
pub struct DateTime {
    /// The number of days since the epoch.
    pub date: u32,
    /// The number of seconds since midnight.
    pub time: u32,
}

impl Default for DateTime {
    fn default() -> (d: Self)
        ensures
            d == (DateTime { date: 0, time: 0 }),
    {
        DateTime { date: 0, time: 0 }
    }
}

/// The packed column value of a timestamp: two 32-bit little-endian fields,
/// days in the low half, seconds in the high half.
pub open spec fn spec_pack(d: DateTime) -> u64 {
    (d.date + d.time * 0x1_0000_0000) as u64
}

/// The timestamp a packed column value denotes.
pub open spec fn spec_unpack(x: u64) -> DateTime {
    DateTime { date: (x % 0x1_0000_0000) as u32, time: (x / 0x1_0000_0000) as u32 }
}

/// Packing a timestamp and unpacking it returns the same timestamp.
pub proof fn lemma_pack_unpack(d: DateTime)
    ensures
        spec_unpack(spec_pack(d)) == d,
{
    assert((d.date + d.time * 0x1_0000_0000) % 0x1_0000_0000 == d.date && (d.date + d.time
        * 0x1_0000_0000) / 0x1_0000_0000 == d.time) by (nonlinear_arith)
        requires
            d.date < 0x1_0000_0000,
            d.time < 0x1_0000_0000,
    ;
}

impl DateTime {
    /// Packs this timestamp into its 64-bit column value.
    pub fn pack(&self) -> (x: u64)
        ensures
            x == spec_pack(*self),
    {
        self.date as u64 + self.time as u64 * 0x1_0000_0000u64
    }

    /// Unpacks a 64-bit column value into the timestamp it denotes.
    pub fn unpack(x: u64) -> (d: DateTime)
        ensures
            d == spec_unpack(x),
    {
        DateTime { date: (x % 0x1_0000_0000u64) as u32, time: (x / 0x1_0000_0000u64) as u32 }
    }

    /// This timestamp projected to a single integer: days in the high half,
    /// seconds in the low half.
    pub fn to_u64(&self) -> (x: u64)
        ensures
            x == self.date as u64 * 0x1_0000_0000 + self.time as u64,
    {
        self.date as u64 * 0x1_0000_0000u64 + self.time as u64
    }
}

/// A column of timestamps, stored packed.
pub struct DateCol {
    vals: Vec<u64>,
}

impl Data for DateTime {
    type Col = DateCol;

    type Model = DateTime;

    open spec fn model(&self) -> DateTime {
        *self
    }

    open spec fn wf(&self) -> bool {
        true
    }
}

impl Col<DateTime> for DateCol {
    closed spec fn inv(&self) -> bool {
        true
    }

    closed spec fn model_seq(&self) -> Seq<DateTime> {
        Seq::new(self.vals@.len(), |i: int| spec_unpack(self.vals@[i]))
    }

    closed spec fn spec_good_bytes(&self) -> nat {
        self.vals@.len() * 8
    }

    fn new() -> (c: Self) {
        let c = DateCol { vals: Vec::new() };
        proof {
            assert(c.model_seq() =~= Seq::<DateTime>::empty());
        }
        c
    }

    fn len(&self) -> (n: usize) {
        Vec::len(&self.vals)
    }

    fn get(&self, idx: usize) -> (t: DateTime) {
        DateTime::unpack(self.vals[idx])
    }

    fn push(&mut self, t: &DateTime) {
        self.vals.push(t.pack());
        proof {
            lemma_pack_unpack(*t);
            assert(self.model_seq() =~= old(self).model_seq().push(*t));
        }
    }

    fn clear(&mut self) {
        self.vals.clear();
        proof {
            assert(self.model_seq() =~= Seq::<DateTime>::empty());
        }
    }

    fn good_bytes(&self) -> (n: usize) {
        crate::col::sat_mul(Vec::len(&self.vals), 8)
    }
}

/// A column of optional timestamps: a presence vector plus a packed value
/// vector, absent entries storing a zero placeholder.
pub struct OptDateCol {
    present: Vec<bool>,
    vals: Vec<u64>,
}

impl Data for Option<DateTime> {
    type Col = OptDateCol;

    type Model = Option<DateTime>;

    open spec fn model(&self) -> Option<DateTime> {
        *self
    }

    open spec fn wf(&self) -> bool {
        true
    }
}

impl Col<Option<DateTime>> for OptDateCol {
    closed spec fn inv(&self) -> bool {
        self.present@.len() == self.vals@.len()
    }

    closed spec fn model_seq(&self) -> Seq<Option<DateTime>> {
        Seq::new(
            self.present@.len(),
            |i: int|
                if self.present@[i] {
                    Some(spec_unpack(self.vals@[i]))
                } else {
                    None
                },
        )
    }

    closed spec fn spec_good_bytes(&self) -> nat {
        self.present@.len() + self.vals@.len() * 8
    }

    fn new() -> (c: Self) {
        let c = OptDateCol { present: Vec::new(), vals: Vec::new() };
        proof {
            assert(c.model_seq() =~= Seq::<Option<DateTime>>::empty());
        }
        c
    }

    fn len(&self) -> (n: usize) {
        Vec::len(&self.present)
    }

    fn get(&self, idx: usize) -> (t: Option<DateTime>) {
        if self.present[idx] {
            Some(DateTime::unpack(self.vals[idx]))
        } else {
            None
        }
    }

    fn push(&mut self, t: &Option<DateTime>) {
        match t {
            Some(d) => {
                self.present.push(true);
                self.vals.push(d.pack());
                proof {
                    lemma_pack_unpack(*d);
                }
            },
            None => {
                self.present.push(false);
                self.vals.push(0);
            },
        }
        proof {
            assert(self.model_seq() =~= old(self).model_seq().push(t.model()));
        }
    }

    fn clear(&mut self) {
        self.present.clear();
        self.vals.clear();
        proof {
            assert(self.model_seq() =~= Seq::<Option<DateTime>>::empty());
        }
    }

    fn good_bytes(&self) -> (n: usize) {
        let v = crate::col::sat_mul(Vec::len(&self.vals), 8);
        crate::col::sat_add(Vec::len(&self.present), v)
    }
}

/// Configuration for [`Tpcc`].
#[derive(Debug, Clone, Copy)]
pub struct TpccConfig {
    /// The number of warehouses and the base unit of scaling.
    pub warehouses: usize,
    /// The value to use as the data generation time.
    pub now: DateTime,
}

impl TpccConfig {
    /// A configuration is valid when it has at least one warehouse and the
    /// largest per-warehouse fan-out keeps every cardinality within
    /// `usize`.
    pub open spec fn wf(&self) -> bool {
        1 <= self.warehouses && self.warehouses * NUM_STOCK_PER_WAREHOUSE <= usize::MAX
    }

    /// A fixed timestamp for testing convenience.
    pub fn feb_18_2023_1_pm() -> (d: DateTime)
        ensures
            d == (DateTime { date: 44_973, time: 46_800 }),
    {
        DateTime { date: 44_973, time: 46_800 }
    }
}

// These constants are set by the benchmark specification - they are not
// knobs.
/// The fixed number of items, independent of scale.
pub const NUM_ITEMS: usize = 100_000;

/// Stock entries per warehouse.
pub const NUM_STOCK_PER_WAREHOUSE: usize = 100_000;

/// Districts per warehouse.
pub const NUM_DISTRICTS_PER_WAREHOUSE: usize = 10;

/// Customers per district.
pub const NUM_CUSTOMERS_PER_DISTRICT: usize = 3_000;

/// History rows per customer.
pub const NUM_HISTORY_PER_CUSTOMER: usize = 1;

/// Orders per district.
pub const NUM_ORDERS_PER_DISTRICT: usize = 3_000;

/// New-order rows per district: a fixed-size suffix window of the orders.
pub const NUM_NEW_ORDERS_PER_DISTRICT: usize = 900;

/// The year-to-date opening balance, in cents.
pub const INITIAL_YTD_CENTS: u64 = 30_000_000;

/// The mixed-case alphanumeric alphabet.
pub open spec fn a_alpha() -> Seq<char> {
    "abcdefghijklmnopqrstuvwxyzABCDEFGHIJKLMNOPQRSTUVWXYZ0123456789"@
}

/// The digits-only alphabet.
pub open spec fn n_alpha() -> Seq<char> {
    "0123456789"@
}

/// The mixed-case alphanumeric alphabet, for drawing characters.
fn a_alphabet() -> (s: &'static str)
    ensures
        s@ == a_alpha(),
        s@.len() == 62,
{
    let s = "abcdefghijklmnopqrstuvwxyzABCDEFGHIJKLMNOPQRSTUVWXYZ0123456789";
    proof {
        reveal_strlit("abcdefghijklmnopqrstuvwxyzABCDEFGHIJKLMNOPQRSTUVWXYZ0123456789");
    }
    s
}

/// The digits-only alphabet, for drawing characters.
fn n_alphabet() -> (s: &'static str)
    ensures
        s@ == n_alpha(),
        s@.len() == 10,
{
    let s = "0123456789";
    proof {
        reveal_strlit("0123456789");
    }
    s
}

/// The random string of `len` characters that a generator in state `state`
/// draws from `alpha`: each character is chosen by one uniform draw over
/// the alphabet's indices.
pub open spec fn string_val(state: int, alpha: Seq<char>, len: nat) -> Seq<char>
    decreases len,
{
    if len == 0 {
        Seq::empty()
    } else {
        let hi = (alpha.len() - 1) as u64;
        seq![alpha[rand_in(state, 0, hi) as int]] + string_val(
            rand_next(state, 0, hi),
            alpha,
            (len - 1) as nat,
        )
    }
}

/// The generator state after drawing a random string of `len` characters.
pub open spec fn string_next(state: int, alpha: Seq<char>, len: nat) -> int
    decreases len,
{
    if len == 0 {
        state
    } else {
        string_next(rand_next(state, 0, (alpha.len() - 1) as u64), alpha, (len - 1) as nat)
    }
}

/// The random string of length uniform in `[min_len, max_len]`; equal
/// bounds spend no draw on the length.
pub open spec fn string_len_val(state: int, alpha: Seq<char>, min_len: nat, max_len: nat) -> Seq<
    char,
> {
    if min_len == max_len {
        string_val(state, alpha, min_len)
    } else {
        let len = rand_in(state, min_len as u64, max_len as u64);
        string_val(rand_next(state, min_len as u64, max_len as u64), alpha, len as nat)
    }
}

/// The generator state after drawing a random string of bounded length.
pub open spec fn string_len_next(state: int, alpha: Seq<char>, min_len: nat, max_len: nat) -> int {
    if min_len == max_len {
        string_next(state, alpha, min_len)
    } else {
        let len = rand_in(state, min_len as u64, max_len as u64);
        string_next(rand_next(state, min_len as u64, max_len as u64), alpha, len as nat)
    }
}

/// Appends a random string of length `len` from the given alphabet.
fn rand_string(rng: &mut SeededRng, alphabet: &str, len: usize, x: &mut String)
    requires
        1 <= alphabet@.len() <= 0xffff_ffff,
    ensures
        final(x)@ == old(x)@ + string_val(old(rng).spec_state(), alphabet@, len as nat),
        final(rng).spec_state() == string_next(old(rng).spec_state(), alphabet@, len as nat),
{
    let ghost s_start = rng.spec_state();
    let ghost pre = x@;
    let alpha_len = alphabet.unicode_len();
    let mut k: usize = 0;
    proof {
        assert(x@ + string_val(rng.spec_state(), alphabet@, len as nat) =~= pre + string_val(
            s_start,
            alphabet@,
            len as nat,
        ));
    }
    while k < len
        invariant
            k <= len,
            1 <= alpha_len <= 0xffff_ffff,
            alpha_len == alphabet@.len(),
            x@ + string_val(rng.spec_state(), alphabet@, (len - k) as nat) == pre + string_val(
                s_start,
                alphabet@,
                len as nat,
            ),
            string_next(rng.spec_state(), alphabet@, (len - k) as nat) == string_next(
                s_start,
                alphabet@,
                len as nat,
            ),
        decreases len - k,
    {
        let i = rng.range(0, (alpha_len - 1) as u64);
        let iu = i as usize;
        let c = alphabet.substring_char(iu, iu + 1);
        x.append(c);
        proof {
            assert(c@ =~= seq![alphabet@[iu as int]]);
            assert(x@ + string_val(rng.spec_state(), alphabet@, (len - k - 1) as nat) =~= pre
                + string_val(s_start, alphabet@, len as nat));
        }
        k = k + 1;
    }
    proof {
        assert(x@ + string_val(rng.spec_state(), alphabet@, 0) =~= x@);
    }
}

/// Appends a random string of length `[min_len, max_len]` from the given
/// alphabet.
fn rand_string_len(rng: &mut SeededRng, alphabet: &str, min_len: usize, max_len: usize, x: &mut String)
    requires
        1 <= alphabet@.len() <= 0xffff_ffff,
        min_len <= max_len <= 0xffff_ffff,
    ensures
        final(x)@ == old(x)@ + string_len_val(
            old(rng).spec_state(),
            alphabet@,
            min_len as nat,
            max_len as nat,
        ),
        final(rng).spec_state() == string_len_next(
            old(rng).spec_state(),
            alphabet@,
            min_len as nat,
            max_len as nat,
        ),
{
    if min_len == max_len {
        rand_string(rng, alphabet, min_len, x);
    } else {
        let len = rng.range(min_len as u64, max_len as u64);
        rand_string(rng, alphabet, len as usize, x);
    }
}

/// The random two-letter state code.
pub open spec fn state_val(state: int) -> Seq<char> {
    string_val(state, a_alpha(), 2)
}

/// The generator state after drawing a state code.
pub open spec fn state_next(state: int) -> int {
    string_next(state, a_alpha(), 2)
}

/// Appends a random two-letter state code.
fn rand_state(rng: &mut SeededRng, x: &mut String)
    ensures
        final(x)@ == old(x)@ + state_val(old(rng).spec_state()),
        final(rng).spec_state() == state_next(old(rng).spec_state()),
{
    let alpha = a_alphabet();
    rand_string(rng, alpha, 2, x);
}

/// The random zip code: four random digits followed by the fixed suffix.
pub open spec fn zip_val(state: int) -> Seq<char> {
    string_val(state, n_alpha(), 4) + "11111"@
}

/// The generator state after drawing a zip code.
pub open spec fn zip_next(state: int) -> int {
    string_next(state, n_alpha(), 4)
}

/// Appends a random zip code: a 4-digit number plus the constant suffix
/// `"11111"`.
fn rand_zip(rng: &mut SeededRng, x: &mut String)
    ensures
        final(x)@ == old(x)@ + zip_val(old(rng).spec_state()),
        final(rng).spec_state() == zip_next(old(rng).spec_state()),
{
    let digits = n_alphabet();
    rand_string(rng, digits, 4, x);
    x.append("11111");
}

/// The random field with an embedded marker: total length uniform in
/// `[26, 50]`; with probability one in ten the marker `"ORIGINAL"` sits at
/// a uniformly chosen offset with random text around it, otherwise the
/// whole field is random text of the chosen length.
pub open spec fn original_val(state: int) -> Seq<char> {
    let len = rand_in(state, 26, 50);
    let s1 = rand_next(state, 26, 50);
    let coin = rand_in(s1, 0, 9);
    let s2 = rand_next(s1, 0, 9);
    if coin == 0 {
        let before = rand_in(s2, 0, (len - 9) as u64);
        let s3 = rand_next(s2, 0, (len - 9) as u64);
        let s4 = string_next(s3, a_alpha(), before as nat);
        string_val(s3, a_alpha(), before as nat) + "ORIGINAL"@ + string_val(
            s4,
            a_alpha(),
            (len - 8 - before) as nat,
        )
    } else {
        string_val(s2, a_alpha(), len as nat)
    }
}

/// The generator state after drawing a marker field.
pub open spec fn original_next(state: int) -> int {
    let len = rand_in(state, 26, 50);
    let s1 = rand_next(state, 26, 50);
    let coin = rand_in(s1, 0, 9);
    let s2 = rand_next(s1, 0, 9);
    if coin == 0 {
        let before = rand_in(s2, 0, (len - 9) as u64);
        let s3 = rand_next(s2, 0, (len - 9) as u64);
        let s4 = string_next(s3, a_alpha(), before as nat);
        string_next(s4, a_alpha(), (len - 8 - before) as nat)
    } else {
        string_next(s2, a_alpha(), len as nat)
    }
}

/// Appends a random alphanumeric field that carries the marker
/// `"ORIGINAL"` somewhere inside it with probability one in ten.
fn rand_original_string(rng: &mut SeededRng, x: &mut String)
    ensures
        final(x)@ == old(x)@ + original_val(old(rng).spec_state()),
        final(rng).spec_state() == original_next(old(rng).spec_state()),
{
    let alpha = a_alphabet();
    let len = rng.range(26, 50);
    let coin = rng.range(0, 9);
    if coin == 0 {
        let before = rng.range(0, len - 9);
        rand_string(rng, alpha, before as usize, x);
        x.append("ORIGINAL");
        let after = (len - 8 - before) as usize;
        rand_string(rng, alpha, after, x);
        proof {
            assert(x@ =~= old(x)@ + original_val(old(rng).spec_state()));
        }
    } else {
        rand_string(rng, alpha, len as usize, x);
    }
}


/// The model of the item row at index `idx`.
pub open spec fn item_row(idx: u64) -> (u64, u64, Seq<char>, u64, Seq<char>) {
    let s0 = rng_seeded(idx);
    let s1 = rand_next(s0, 1, 10000);
    let s2 = string_len_next(s1, a_alpha(), 14, 24);
    let s3 = rand_next(s2, 100, 10000);
    (
        idx,
        rand_in(s0, 1, 10000),
        string_len_val(s1, a_alpha(), 14, 24),
        rand_in(s2, 100, 10000),
        original_val(s3),
    )
}

/// The ITEM table: a fixed count of items, independent of scale. The price
/// is in cents.
#[derive(Debug, Clone, Copy)]
pub struct Item {
    /// The configuration shared by every table of the dataset.
    pub config: TpccConfig,
}

impl Item {
    /// Construct an instance of this table with the given configuration.
    pub fn init(config: TpccConfig) -> (t: Self)
        ensures
            t.config == config,
    {
        Item { config }
    }
}

impl DynTable for Item {
    open spec fn inv(&self) -> bool {
        self.config.wf()
    }

    open spec fn spec_name(&self) -> Seq<char> {
        "item"@
    }

    open spec fn spec_num_batches(&self) -> nat {
        NUM_ITEMS as nat
    }

    fn name(&self) -> &'static str {
        "item"
    }

    fn num_batches(&self) -> (n: usize) {
        NUM_ITEMS
    }
}

impl Table for Item {
    type Data = (u64, u64, String, u64, String);

    type Batch = (Vec<u64>, Vec<u64>, TextCol, Vec<u64>, TextCol);

    open spec fn congruent(&self, other: &Self) -> bool {
        self.config == other.config
    }

    open spec fn spec_batch(&self, idx: nat) -> Seq<(u64, u64, Seq<char>, u64, Seq<char>)> {
        if idx < NUM_ITEMS {
            seq![item_row(idx as u64)]
        } else {
            Seq::empty()
        }
    }

    proof fn lemma_congruent_determinism(&self, other: &Self) {
        assert forall|idx: nat| self.spec_batch(idx) == other.spec_batch(idx) by {
            assert(self.spec_batch(idx) =~= other.spec_batch(idx));
        }
    }

    proof fn lemma_out_of_range_empty(&self, idx: nat) {
    }

    fn gen_batch(&mut self, idx: usize, batch: &mut Self::Batch) {
        batch.clear();
        if idx >= NUM_ITEMS {
            proof {
                assert(batch.model_seq() =~= self.spec_batch(idx as nat));
            }
            return ;
        }
        let mut rng = SeededRng::from_seed(idx as u64);
        let alpha = a_alphabet();
        let i_id = idx as u64;
        let i_im_id = rng.range(1, 10000);
        let mut i_name = String::new();
        rand_string_len(&mut rng, alpha, 14, 24, &mut i_name);
        let i_price = rng.range(100, 10000);
        let mut i_data = String::new();
        rand_original_string(&mut rng, &mut i_data);
        let row = (i_id, i_im_id, i_name, i_price, i_data);
        batch.push(&row);
        proof {
            assert(row.model() == item_row(idx as u64));
            assert(batch.model_seq() =~= self.spec_batch(idx as nat));
        }
    }
}

/// The model of the warehouse row at index `idx`. The tax is scaled to four
/// decimal places; the year-to-date balance is in cents.
pub open spec fn warehouse_row(idx: u64) -> (
    u64,
    Seq<char>,
    Seq<char>,
    Seq<char>,
    Seq<char>,
    Seq<char>,
    Seq<char>,
    u64,
    u64,
) {
    let s0 = rng_seeded(idx);
    let s1 = string_len_next(s0, a_alpha(), 6, 10);
    let s2 = string_len_next(s1, a_alpha(), 10, 20);
    let s3 = string_len_next(s2, a_alpha(), 10, 20);
    let s4 = string_len_next(s3, a_alpha(), 10, 20);
    let s5 = state_next(s4);
    let s6 = zip_next(s5);
    (
        idx,
        string_len_val(s0, a_alpha(), 6, 10),
        string_len_val(s1, a_alpha(), 10, 20),
        string_len_val(s2, a_alpha(), 10, 20),
        string_len_val(s3, a_alpha(), 10, 20),
        state_val(s4),
        zip_val(s5),
        rand_in(s6, 0, 2000),
        INITIAL_YTD_CENTS,
    )
}

/// The WAREHOUSE table: one row per warehouse.
#[derive(Debug, Clone, Copy)]
pub struct Warehouse {
    /// The configuration shared by every table of the dataset.
    pub config: TpccConfig,
}

impl Warehouse {
    /// Construct an instance of this table with the given configuration.
    pub fn init(config: TpccConfig) -> (t: Self)
        ensures
            t.config == config,
    {
        Warehouse { config }
    }
}

impl DynTable for Warehouse {
    open spec fn inv(&self) -> bool {
        self.config.wf()
    }

    open spec fn spec_name(&self) -> Seq<char> {
        "warehouse"@
    }

    open spec fn spec_num_batches(&self) -> nat {
        self.config.warehouses as nat
    }

    fn name(&self) -> &'static str {
        "warehouse"
    }

    fn num_batches(&self) -> (n: usize) {
        self.config.warehouses
    }
}

impl Table for Warehouse {
    type Data = (u64, String, String, String, String, String, String, u64, u64);

    type Batch = (Vec<u64>, TextCol, TextCol, TextCol, TextCol, TextCol, TextCol, Vec<u64>, Vec<u64>);

    open spec fn congruent(&self, other: &Self) -> bool {
        self.config == other.config
    }

    open spec fn spec_batch(&self, idx: nat) -> Seq<
        (u64, Seq<char>, Seq<char>, Seq<char>, Seq<char>, Seq<char>, Seq<char>, u64, u64),
    > {
        if idx < self.config.warehouses {
            seq![warehouse_row(idx as u64)]
        } else {
            Seq::empty()
        }
    }

    proof fn lemma_congruent_determinism(&self, other: &Self) {
        assert forall|idx: nat| self.spec_batch(idx) == other.spec_batch(idx) by {
            assert(self.spec_batch(idx) =~= other.spec_batch(idx));
        }
    }

    proof fn lemma_out_of_range_empty(&self, idx: nat) {
    }

    fn gen_batch(&mut self, idx: usize, batch: &mut Self::Batch) {
        batch.clear();
        if idx >= self.config.warehouses {
            proof {
                assert(batch.model_seq() =~= self.spec_batch(idx as nat));
            }
            return ;
        }
        let mut rng = SeededRng::from_seed(idx as u64);
        let alpha = a_alphabet();
        let w_id = idx as u64;
        let mut w_name = String::new();
        rand_string_len(&mut rng, alpha, 6, 10, &mut w_name);
        let mut w_street_1 = String::new();
        rand_string_len(&mut rng, alpha, 10, 20, &mut w_street_1);
        let mut w_street_2 = String::new();
        rand_string_len(&mut rng, alpha, 10, 20, &mut w_street_2);
        let mut w_city = String::new();
        rand_string_len(&mut rng, alpha, 10, 20, &mut w_city);
        let mut w_state = String::new();
        rand_state(&mut rng, &mut w_state);
        let mut w_zip = String::new();
        rand_zip(&mut rng, &mut w_zip);
        let w_tax = rng.range(0, 2000);
        let w_ytd = INITIAL_YTD_CENTS;
        let row = (w_id, w_name, w_street_1, w_street_2, w_city, w_state, w_zip, w_tax, w_ytd);
        batch.push(&row);
        proof {
            assert(row.model() == warehouse_row(idx as u64));
            assert(batch.model_seq() =~= self.spec_batch(idx as nat));
        }
    }
}


/// The model of the stock row at index `idx`. The warehouse id derives from
/// the stock id by integer division by the per-warehouse fan-out.
pub open spec fn stock_row(idx: u64) -> (
    u64,
    u64,
    u64,
    Seq<char>,
    Seq<char>,
    Seq<char>,
    Seq<char>,
    Seq<char>,
    u64,
    u64,
    u64,
    Seq<char>,
) {
    let s0 = rng_seeded(idx);
    let s1 = rand_next(s0, 10, 100);
    let s2 = string_next(s1, a_alpha(), 24);
    let s3 = string_next(s2, a_alpha(), 24);
    let s4 = string_next(s3, a_alpha(), 24);
    let s5 = string_next(s4, a_alpha(), 24);
    let s6 = string_next(s5, a_alpha(), 24);
    (
        idx,
        idx / (NUM_STOCK_PER_WAREHOUSE as u64),
        rand_in(s0, 10, 100),
        string_val(s1, a_alpha(), 24),
        string_val(s2, a_alpha(), 24),
        string_val(s3, a_alpha(), 24),
        string_val(s4, a_alpha(), 24),
        string_val(s5, a_alpha(), 24),
        0,
        0,
        0,
        original_val(s6),
    )
}

/// The STOCK table: a fixed number of stock entries per warehouse.
#[derive(Debug, Clone, Copy)]
pub struct Stock {
    /// The configuration shared by every table of the dataset.
    pub config: TpccConfig,
}

impl Stock {
    /// Construct an instance of this table with the given configuration.
    pub fn init(config: TpccConfig) -> (t: Self)
        ensures
            t.config == config,
    {
        Stock { config }
    }
}

impl DynTable for Stock {
    open spec fn inv(&self) -> bool {
        self.config.wf()
    }

    open spec fn spec_name(&self) -> Seq<char> {
        "stock"@
    }

    open spec fn spec_num_batches(&self) -> nat {
        self.config.warehouses as nat * NUM_STOCK_PER_WAREHOUSE as nat
    }

    fn name(&self) -> &'static str {
        "stock"
    }

    fn num_batches(&self) -> (n: usize) {
        self.config.warehouses * NUM_STOCK_PER_WAREHOUSE
    }
}

impl Table for Stock {
    type Data = (u64, u64, u64, String, String, String, String, String, u64, u64, u64, String);

    type Batch = (
        Vec<u64>,
        Vec<u64>,
        Vec<u64>,
        TextCol,
        TextCol,
        TextCol,
        TextCol,
        TextCol,
        Vec<u64>,
        Vec<u64>,
        Vec<u64>,
        TextCol,
    );

    open spec fn congruent(&self, other: &Self) -> bool {
        self.config == other.config
    }

    open spec fn spec_batch(&self, idx: nat) -> Seq<
        (
            u64,
            u64,
            u64,
            Seq<char>,
            Seq<char>,
            Seq<char>,
            Seq<char>,
            Seq<char>,
            u64,
            u64,
            u64,
            Seq<char>,
        ),
    > {
        if idx < self.spec_num_batches() {
            seq![stock_row(idx as u64)]
        } else {
            Seq::empty()
        }
    }

    proof fn lemma_congruent_determinism(&self, other: &Self) {
        assert forall|idx: nat| self.spec_batch(idx) == other.spec_batch(idx) by {
            assert(self.spec_batch(idx) =~= other.spec_batch(idx));
        }
    }

    proof fn lemma_out_of_range_empty(&self, idx: nat) {
    }

    fn gen_batch(&mut self, idx: usize, batch: &mut Self::Batch) {
        batch.clear();
        let nb = self.num_batches();
        if idx >= nb {
            proof {
                assert(batch.model_seq() =~= self.spec_batch(idx as nat));
            }
            return ;
        }
        let mut rng = SeededRng::from_seed(idx as u64);
        let alpha = a_alphabet();
        let s_id = idx as u64;
        let s_w_id = s_id / (NUM_STOCK_PER_WAREHOUSE as u64);
        let s_quantity = rng.range(10, 100);
        let mut s_dist_01 = String::new();
        rand_string(&mut rng, alpha, 24, &mut s_dist_01);
        let mut s_dist_02 = String::new();
        rand_string(&mut rng, alpha, 24, &mut s_dist_02);
        let mut s_dist_03 = String::new();
        rand_string(&mut rng, alpha, 24, &mut s_dist_03);
        let mut s_dist_04 = String::new();
        rand_string(&mut rng, alpha, 24, &mut s_dist_04);
        let mut s_dist_05 = String::new();
        rand_string(&mut rng, alpha, 24, &mut s_dist_05);
        let s_ytd = 0u64;
        let s_order_cnt = 0u64;
        let s_remote_cnt = 0u64;
        let mut s_data = String::new();
        rand_original_string(&mut rng, &mut s_data);
        let row = (
            s_id,
            s_w_id,
            s_quantity,
            s_dist_01,
            s_dist_02,
            s_dist_03,
            s_dist_04,
            s_dist_05,
            s_ytd,
            s_order_cnt,
            s_remote_cnt,
            s_data,
        );
        batch.push(&row);
        proof {
            assert(row.model() == stock_row(idx as u64));
            assert(batch.model_seq() =~= self.spec_batch(idx as nat));
        }
    }
}

/// The model of the district row at index `idx`. The warehouse id derives
/// from the district id by integer division by the per-warehouse fan-out;
/// the next order id is one past the per-district order count.
pub open spec fn district_row(idx: u64) -> (
    u64,
    u64,
    Seq<char>,
    Seq<char>,
    Seq<char>,
    Seq<char>,
    Seq<char>,
    Seq<char>,
    u64,
    u64,
    u64,
) {
    let s0 = rng_seeded(idx);
    let s1 = string_len_next(s0, a_alpha(), 6, 10);
    let s2 = string_len_next(s1, a_alpha(), 10, 20);
    let s3 = string_len_next(s2, a_alpha(), 10, 20);
    let s4 = string_len_next(s3, a_alpha(), 10, 20);
    let s5 = state_next(s4);
    let s6 = zip_next(s5);
    (
        idx,
        idx / (NUM_DISTRICTS_PER_WAREHOUSE as u64),
        string_len_val(s0, a_alpha(), 6, 10),
        string_len_val(s1, a_alpha(), 10, 20),
        string_len_val(s2, a_alpha(), 10, 20),
        string_len_val(s3, a_alpha(), 10, 20),
        state_val(s4),
        zip_val(s5),
        rand_in(s6, 0, 2000),
        INITIAL_YTD_CENTS,
        (NUM_ORDERS_PER_DISTRICT + 1) as u64,
    )
}

/// The DISTRICT table: a fixed number of districts per warehouse.
#[derive(Debug, Clone, Copy)]
pub struct District {
    /// The configuration shared by every table of the dataset.
    pub config: TpccConfig,
}

impl District {
    /// Construct an instance of this table with the given configuration.
    pub fn init(config: TpccConfig) -> (t: Self)
        ensures
            t.config == config,
    {
        District { config }
    }
}

impl DynTable for District {
    open spec fn inv(&self) -> bool {
        self.config.wf()
    }

    open spec fn spec_name(&self) -> Seq<char> {
        "district"@
    }

    open spec fn spec_num_batches(&self) -> nat {
        self.config.warehouses as nat * NUM_DISTRICTS_PER_WAREHOUSE as nat
    }

    fn name(&self) -> &'static str {
        "district"
    }

    fn num_batches(&self) -> (n: usize) {
        proof {
            lemma_district_count_fits(self.config);
        }
        self.config.warehouses * NUM_DISTRICTS_PER_WAREHOUSE
    }
}

/// The district count fits in `usize` whenever the larger stock count
/// does.
proof fn lemma_district_count_fits(config: TpccConfig)
    requires
        config.wf(),
    ensures
        config.warehouses * NUM_DISTRICTS_PER_WAREHOUSE <= usize::MAX,
{
    assert(config.warehouses * NUM_DISTRICTS_PER_WAREHOUSE <= config.warehouses
        * NUM_STOCK_PER_WAREHOUSE) by (nonlinear_arith)
        requires
            config.warehouses >= 0,
    ;
}

impl Table for District {
    type Data = (u64, u64, String, String, String, String, String, String, u64, u64, u64);

    type Batch = (
        Vec<u64>,
        Vec<u64>,
        TextCol,
        TextCol,
        TextCol,
        TextCol,
        TextCol,
        TextCol,
        Vec<u64>,
        Vec<u64>,
        Vec<u64>,
    );

    open spec fn congruent(&self, other: &Self) -> bool {
        self.config == other.config
    }

    open spec fn spec_batch(&self, idx: nat) -> Seq<
        (u64, u64, Seq<char>, Seq<char>, Seq<char>, Seq<char>, Seq<char>, Seq<char>, u64, u64, u64),
    > {
        if idx < self.spec_num_batches() {
            seq![district_row(idx as u64)]
        } else {
            Seq::empty()
        }
    }

    proof fn lemma_congruent_determinism(&self, other: &Self) {
        assert forall|idx: nat| self.spec_batch(idx) == other.spec_batch(idx) by {
            assert(self.spec_batch(idx) =~= other.spec_batch(idx));
        }
    }

    proof fn lemma_out_of_range_empty(&self, idx: nat) {
    }

    fn gen_batch(&mut self, idx: usize, batch: &mut Self::Batch) {
        batch.clear();
        let nb = self.num_batches();
        if idx >= nb {
            proof {
                assert(batch.model_seq() =~= self.spec_batch(idx as nat));
            }
            return ;
        }
        let mut rng = SeededRng::from_seed(idx as u64);
        let alpha = a_alphabet();
        let d_id = idx as u64;
        let d_w_id = d_id / (NUM_DISTRICTS_PER_WAREHOUSE as u64);
        let mut d_name = String::new();
        rand_string_len(&mut rng, alpha, 6, 10, &mut d_name);
        let mut d_street_1 = String::new();
        rand_string_len(&mut rng, alpha, 10, 20, &mut d_street_1);
        let mut d_street_2 = String::new();
        rand_string_len(&mut rng, alpha, 10, 20, &mut d_street_2);
        let mut d_city = String::new();
        rand_string_len(&mut rng, alpha, 10, 20, &mut d_city);
        let mut d_state = String::new();
        rand_state(&mut rng, &mut d_state);
        let mut d_zip = String::new();
        rand_zip(&mut rng, &mut d_zip);
        let d_tax = rng.range(0, 2000);
        let d_ytd = INITIAL_YTD_CENTS;
        let d_next_o_id = NUM_ORDERS_PER_DISTRICT as u64 + 1;
        let row = (
            d_id,
            d_w_id,
            d_name,
            d_street_1,
            d_street_2,
            d_city,
            d_state,
            d_zip,
            d_tax,
            d_ytd,
            d_next_o_id,
        );
        batch.push(&row);
        proof {
            assert(row.model() == district_row(idx as u64));
            assert(batch.model_seq() =~= self.spec_batch(idx as nat));
        }
    }
}

/// The model of the customer row at index `idx`. The district and
/// warehouse ids derive from the customer id by integer division by the
/// fan-out constants.
pub open spec fn customer_row(idx: u64) -> (
    u64,
    u64,
    u64,
    Seq<char>,
    Seq<char>,
    Seq<char>,
    Seq<char>,
    Seq<char>,
    Seq<char>,
    Seq<char>,
    Seq<char>,
    Seq<char>,
) {
    let s0 = rng_seeded(idx);
    let s1 = string_len_next(s0, a_alpha(), 8, 16);
    let s2 = string_len_next(s1, a_alpha(), 10, 20);
    let s3 = string_len_next(s2, a_alpha(), 10, 20);
    let s4 = string_len_next(s3, a_alpha(), 10, 20);
    let s5 = state_next(s4);
    let s6 = zip_next(s5);
    let c_d_id = idx / (NUM_CUSTOMERS_PER_DISTRICT as u64);
    (
        idx,
        c_d_id,
        c_d_id / (NUM_DISTRICTS_PER_WAREHOUSE as u64),
        "TODO"@,
        "OE"@,
        string_len_val(s0, a_alpha(), 8, 16),
        string_len_val(s1, a_alpha(), 10, 20),
        string_len_val(s2, a_alpha(), 10, 20),
        string_len_val(s3, a_alpha(), 10, 20),
        state_val(s4),
        zip_val(s5),
        string_len_val(s6, a_alpha(), 300, 500),
    )
}

/// The CUSTOMER table: a fixed number of customers per district.
#[derive(Debug, Clone, Copy)]
pub struct Customer {
    /// The configuration shared by every table of the dataset.
    pub config: TpccConfig,
}

impl Customer {
    /// Construct an instance of this table with the given configuration.
    pub fn init(config: TpccConfig) -> (t: Self)
        ensures
            t.config == config,
    {
        Customer { config }
    }
}

/// The customer count fits in `usize` whenever the larger stock count
/// does.
proof fn lemma_customer_count_fits(config: TpccConfig)
    requires
        config.wf(),
    ensures
        config.warehouses * NUM_DISTRICTS_PER_WAREHOUSE * NUM_CUSTOMERS_PER_DISTRICT
            <= usize::MAX,
        config.warehouses * NUM_DISTRICTS_PER_WAREHOUSE <= usize::MAX,
        config.warehouses * NUM_DISTRICTS_PER_WAREHOUSE * NUM_CUSTOMERS_PER_DISTRICT
            == (config.warehouses * NUM_DISTRICTS_PER_WAREHOUSE) * NUM_CUSTOMERS_PER_DISTRICT,
{
    assert(config.warehouses * NUM_DISTRICTS_PER_WAREHOUSE * NUM_CUSTOMERS_PER_DISTRICT
        <= config.warehouses * NUM_STOCK_PER_WAREHOUSE && config.warehouses
        * NUM_DISTRICTS_PER_WAREHOUSE <= config.warehouses * NUM_STOCK_PER_WAREHOUSE && config.warehouses
        * NUM_DISTRICTS_PER_WAREHOUSE * NUM_CUSTOMERS_PER_DISTRICT == (config.warehouses
        * NUM_DISTRICTS_PER_WAREHOUSE) * NUM_CUSTOMERS_PER_DISTRICT) by (nonlinear_arith)
        requires
            config.warehouses >= 0,
    ;
}

impl DynTable for Customer {
    open spec fn inv(&self) -> bool {
        self.config.wf()
    }

    open spec fn spec_name(&self) -> Seq<char> {
        "customer"@
    }

    open spec fn spec_num_batches(&self) -> nat {
        self.config.warehouses as nat * NUM_DISTRICTS_PER_WAREHOUSE as nat
            * NUM_CUSTOMERS_PER_DISTRICT as nat
    }

    fn name(&self) -> &'static str {
        "customer"
    }

    fn num_batches(&self) -> (n: usize) {
        proof {
            lemma_customer_count_fits(self.config);
        }
        self.config.warehouses * NUM_DISTRICTS_PER_WAREHOUSE * NUM_CUSTOMERS_PER_DISTRICT
    }
}

impl Table for Customer {
    type Data = (
        u64,
        u64,
        u64,
        String,
        String,
        String,
        String,
        String,
        String,
        String,
        String,
        String,
    );

    type Batch = (
        Vec<u64>,
        Vec<u64>,
        Vec<u64>,
        TextCol,
        TextCol,
        TextCol,
        TextCol,
        TextCol,
        TextCol,
        TextCol,
        TextCol,
        TextCol,
    );

    open spec fn congruent(&self, other: &Self) -> bool {
        self.config == other.config
    }

    open spec fn spec_batch(&self, idx: nat) -> Seq<
        (
            u64,
            u64,
            u64,
            Seq<char>,
            Seq<char>,
            Seq<char>,
            Seq<char>,
            Seq<char>,
            Seq<char>,
            Seq<char>,
            Seq<char>,
            Seq<char>,
        ),
    > {
        if idx < self.spec_num_batches() {
            seq![customer_row(idx as u64)]
        } else {
            Seq::empty()
        }
    }

    proof fn lemma_congruent_determinism(&self, other: &Self) {
        assert forall|idx: nat| self.spec_batch(idx) == other.spec_batch(idx) by {
            assert(self.spec_batch(idx) =~= other.spec_batch(idx));
        }
    }

    proof fn lemma_out_of_range_empty(&self, idx: nat) {
    }

    fn gen_batch(&mut self, idx: usize, batch: &mut Self::Batch) {
        batch.clear();
        let nb = self.num_batches();
        if idx >= nb {
            proof {
                assert(batch.model_seq() =~= self.spec_batch(idx as nat));
            }
            return ;
        }
        let mut rng = SeededRng::from_seed(idx as u64);
        let alpha = a_alphabet();
        let c_id = idx as u64;
        let c_d_id = c_id / (NUM_CUSTOMERS_PER_DISTRICT as u64);
        let c_w_id = c_d_id / (NUM_DISTRICTS_PER_WAREHOUSE as u64);
        let c_last = String::from_str("TODO");
        let c_middle = String::from_str("OE");
        let mut c_first = String::new();
        rand_string_len(&mut rng, alpha, 8, 16, &mut c_first);
        let mut c_street_1 = String::new();
        rand_string_len(&mut rng, alpha, 10, 20, &mut c_street_1);
        let mut c_street_2 = String::new();
        rand_string_len(&mut rng, alpha, 10, 20, &mut c_street_2);
        let mut c_city = String::new();
        rand_string_len(&mut rng, alpha, 10, 20, &mut c_city);
        let mut c_state = String::new();
        rand_state(&mut rng, &mut c_state);
        let mut c_zip = String::new();
        rand_zip(&mut rng, &mut c_zip);
        let mut c_data = String::new();
        rand_string_len(&mut rng, alpha, 300, 500, &mut c_data);
        let row = (
            c_id,
            c_d_id,
            c_w_id,
            c_last,
            c_middle,
            c_first,
            c_street_1,
            c_street_2,
            c_city,
            c_state,
            c_zip,
            c_data,
        );
        batch.push(&row);
        proof {
            assert(row.model() == customer_row(idx as u64));
            assert(batch.model_seq() =~= self.spec_batch(idx as nat));
        }
    }
}

/// The model of the history row at index `idx`. The amount is in cents.
pub open spec fn history_row(idx: u64, now: DateTime) -> (
    u64,
    u64,
    u64,
    u64,
    u64,
    DateTime,
    u64,
    Seq<char>,
) {
    let s0 = rng_seeded(idx);
    let h_c_d_id = idx / (NUM_CUSTOMERS_PER_DISTRICT as u64);
    let h_c_w_id = h_c_d_id / (NUM_DISTRICTS_PER_WAREHOUSE as u64);
    (
        idx,
        h_c_d_id,
        h_c_w_id,
        h_c_d_id,
        h_c_w_id,
        now,
        1000,
        string_len_val(s0, a_alpha(), 12, 24),
    )
}

/// The HISTORY table: one history row per customer.
#[derive(Debug, Clone, Copy)]
pub struct History {
    /// The configuration shared by every table of the dataset.
    pub config: TpccConfig,
}

impl History {
    /// Construct an instance of this table with the given configuration.
    pub fn init(config: TpccConfig) -> (t: Self)
        ensures
            t.config == config,
    {
        History { config }
    }
}

impl DynTable for History {
    open spec fn inv(&self) -> bool {
        self.config.wf()
    }

    open spec fn spec_name(&self) -> Seq<char> {
        "history"@
    }

    open spec fn spec_num_batches(&self) -> nat {
        self.config.warehouses as nat * NUM_DISTRICTS_PER_WAREHOUSE as nat
            * NUM_CUSTOMERS_PER_DISTRICT as nat * NUM_HISTORY_PER_CUSTOMER as nat
    }

    fn name(&self) -> &'static str {
        "history"
    }

    fn num_batches(&self) -> (n: usize) {
        proof {
            lemma_customer_count_fits(self.config);
            assert(self.config.warehouses as nat * NUM_DISTRICTS_PER_WAREHOUSE as nat
                * NUM_CUSTOMERS_PER_DISTRICT as nat * NUM_HISTORY_PER_CUSTOMER as nat
                == self.config.warehouses as nat * NUM_DISTRICTS_PER_WAREHOUSE as nat
                * NUM_CUSTOMERS_PER_DISTRICT as nat) by (nonlinear_arith);
        }
        self.config.warehouses * NUM_DISTRICTS_PER_WAREHOUSE * NUM_CUSTOMERS_PER_DISTRICT
            * NUM_HISTORY_PER_CUSTOMER
    }
}

impl Table for History {
    type Data = (u64, u64, u64, u64, u64, DateTime, u64, String);

    type Batch = (Vec<u64>, Vec<u64>, Vec<u64>, Vec<u64>, Vec<u64>, DateCol, Vec<u64>, TextCol);

    open spec fn congruent(&self, other: &Self) -> bool {
        self.config == other.config
    }

    open spec fn spec_batch(&self, idx: nat) -> Seq<
        (u64, u64, u64, u64, u64, DateTime, u64, Seq<char>),
    > {
        if idx < self.spec_num_batches() {
            seq![history_row(idx as u64, self.config.now)]
        } else {
            Seq::empty()
        }
    }

    proof fn lemma_congruent_determinism(&self, other: &Self) {
        assert forall|idx: nat| self.spec_batch(idx) == other.spec_batch(idx) by {
            assert(self.spec_batch(idx) =~= other.spec_batch(idx));
        }
    }

    proof fn lemma_out_of_range_empty(&self, idx: nat) {
    }

    fn gen_batch(&mut self, idx: usize, batch: &mut Self::Batch) {
        batch.clear();
        let nb = self.num_batches();
        if idx >= nb {
            proof {
                assert(batch.model_seq() =~= self.spec_batch(idx as nat));
            }
            return ;
        }
        let mut rng = SeededRng::from_seed(idx as u64);
        let alpha = a_alphabet();
        let h_c_id = idx as u64;
        let h_c_d_id = h_c_id / (NUM_CUSTOMERS_PER_DISTRICT as u64);
        let h_c_w_id = h_c_d_id / (NUM_DISTRICTS_PER_WAREHOUSE as u64);
        let h_d_id = h_c_d_id;
        let h_w_id = h_c_w_id;
        let h_date = self.config.now;
        let h_amount = 1000u64;
        let mut h_data = String::new();
        rand_string_len(&mut rng, alpha, 12, 24, &mut h_data);
        let row = (h_c_id, h_c_d_id, h_c_w_id, h_d_id, h_w_id, h_date, h_amount, h_data);
        batch.push(&row);
        proof {
            assert(row.model() == history_row(idx as u64, self.config.now));
            assert(batch.model_seq() =~= self.spec_batch(idx as nat));
        }
    }
}

/// The model of the new-order row at index `idx`: a fixed-size suffix
/// window of each district's orders.
pub open spec fn new_order_row(idx: u64) -> (u64, u64, u64) {
    let offset = (NUM_ORDERS_PER_DISTRICT - NUM_NEW_ORDERS_PER_DISTRICT) as u64;
    let no_d_id = idx / (NUM_NEW_ORDERS_PER_DISTRICT as u64);
    (
        (offset + idx % (NUM_NEW_ORDERS_PER_DISTRICT as u64)) as u64,
        no_d_id,
        no_d_id / (NUM_DISTRICTS_PER_WAREHOUSE as u64),
    )
}

/// The NEW-ORDER table: a fixed number of not-yet-processed orders per
/// district, drawn from the tail of the order range.
#[derive(Debug, Clone, Copy)]
pub struct NewOrder {
    /// The configuration shared by every table of the dataset.
    pub config: TpccConfig,
}

impl NewOrder {
    /// Construct an instance of this table with the given configuration.
    pub fn init(config: TpccConfig) -> (t: Self)
        ensures
            t.config == config,
    {
        NewOrder { config }
    }
}

/// The new-order count fits in `usize` whenever the larger stock count
/// does.
proof fn lemma_new_order_count_fits(config: TpccConfig)
    requires
        config.wf(),
    ensures
        config.warehouses * NUM_DISTRICTS_PER_WAREHOUSE * NUM_NEW_ORDERS_PER_DISTRICT
            <= usize::MAX,
        config.warehouses * NUM_DISTRICTS_PER_WAREHOUSE <= usize::MAX,
        config.warehouses * NUM_DISTRICTS_PER_WAREHOUSE * NUM_NEW_ORDERS_PER_DISTRICT == (
        config.warehouses * NUM_DISTRICTS_PER_WAREHOUSE) * NUM_NEW_ORDERS_PER_DISTRICT,
{
    assert(config.warehouses * NUM_DISTRICTS_PER_WAREHOUSE * NUM_NEW_ORDERS_PER_DISTRICT
        <= config.warehouses * NUM_STOCK_PER_WAREHOUSE && config.warehouses
        * NUM_DISTRICTS_PER_WAREHOUSE <= config.warehouses * NUM_STOCK_PER_WAREHOUSE
        && config.warehouses * NUM_DISTRICTS_PER_WAREHOUSE * NUM_NEW_ORDERS_PER_DISTRICT == (
        config.warehouses * NUM_DISTRICTS_PER_WAREHOUSE) * NUM_NEW_ORDERS_PER_DISTRICT) by (nonlinear_arith)
        requires
            config.warehouses >= 0,
    ;
}

impl DynTable for NewOrder {
    open spec fn inv(&self) -> bool {
        self.config.wf()
    }

    open spec fn spec_name(&self) -> Seq<char> {
        "new-order"@
    }

    open spec fn spec_num_batches(&self) -> nat {
        self.config.warehouses as nat * NUM_DISTRICTS_PER_WAREHOUSE as nat
            * NUM_NEW_ORDERS_PER_DISTRICT as nat
    }

    fn name(&self) -> &'static str {
        "new-order"
    }

    fn num_batches(&self) -> (n: usize) {
        proof {
            lemma_new_order_count_fits(self.config);
        }
        self.config.warehouses * NUM_DISTRICTS_PER_WAREHOUSE * NUM_NEW_ORDERS_PER_DISTRICT
    }
}

impl Table for NewOrder {
    type Data = (u64, u64, u64);

    type Batch = (Vec<u64>, Vec<u64>, Vec<u64>);

    open spec fn congruent(&self, other: &Self) -> bool {
        self.config == other.config
    }

    open spec fn spec_batch(&self, idx: nat) -> Seq<(u64, u64, u64)> {
        if idx < self.spec_num_batches() {
            seq![new_order_row(idx as u64)]
        } else {
            Seq::empty()
        }
    }

    proof fn lemma_congruent_determinism(&self, other: &Self) {
        assert forall|idx: nat| self.spec_batch(idx) == other.spec_batch(idx) by {
            assert(self.spec_batch(idx) =~= other.spec_batch(idx));
        }
    }

    proof fn lemma_out_of_range_empty(&self, idx: nat) {
    }

    fn gen_batch(&mut self, idx: usize, batch: &mut Self::Batch) {
        batch.clear();
        let nb = self.num_batches();
        if idx >= nb {
            proof {
                assert(batch.model_seq() =~= self.spec_batch(idx as nat));
            }
            return ;
        }
        let offset = (NUM_ORDERS_PER_DISTRICT - NUM_NEW_ORDERS_PER_DISTRICT) as u64;
        let no_o_id = offset + (idx as u64 % (NUM_NEW_ORDERS_PER_DISTRICT as u64));
        let no_d_id = idx as u64 / (NUM_NEW_ORDERS_PER_DISTRICT as u64);
        let no_w_id = no_d_id / (NUM_DISTRICTS_PER_WAREHOUSE as u64);
        let row = (no_o_id, no_d_id, no_w_id);
        batch.push(&row);
        proof {
            assert(row.model() == new_order_row(idx as u64));
            assert(batch.model_seq() =~= self.spec_batch(idx as nat));
        }
    }
}


/// The sequence `0, 1, ..., n - 1`.
pub open spec fn id_range(n: nat) -> Seq<u64> {
    Seq::new(n, |i: int| i as u64)
}

/// Rows `0 .. n` of the order batch of district `d_id`, threaded through
/// generator state `s`, and the state left behind. `perm` is the
/// district's random order-to-customer permutation; orders below the
/// delivery threshold carry a carrier id, later ones none.
pub open spec fn order_rows(
    d_id: u64,
    w_id: u64,
    now: DateTime,
    perm: Seq<u64>,
    s: int,
    n: nat,
) -> (Seq<(u64, u64, u64, u64, DateTime, Option<u64>, u64, u64)>, int)
    decreases n,
{
    if n == 0 {
        (Seq::empty(), s)
    } else {
        let prev = order_rows(d_id, w_id, now, perm, s, (n - 1) as nat);
        let o_id = (n - 1) as u64;
        let carrier = if o_id < 2001 {
            Some(rand_in(prev.1, 1, 10))
        } else {
            None
        };
        let s1 = if o_id < 2001 {
            rand_next(prev.1, 1, 10)
        } else {
            prev.1
        };
        let cnt = rand_in(s1, 5, 15);
        let s2 = rand_next(s1, 5, 15);
        (prev.0.push((o_id, perm[n - 1], d_id, w_id, now, carrier, cnt, 1u64)), s2)
    }
}

/// The order batch holds one row per order, and row `k` maps order `k` to
/// customer `perm[k]`.
proof fn lemma_order_rows_shape(
    d_id: u64,
    w_id: u64,
    now: DateTime,
    perm: Seq<u64>,
    s: int,
    n: nat,
)
    ensures
        order_rows(d_id, w_id, now, perm, s, n).0.len() == n,
        forall|k: int|
            0 <= k < n ==> #[trigger] order_rows(d_id, w_id, now, perm, s, n).0[k].1 == perm[k],
    decreases n,
{
    if n > 0 {
        lemma_order_rows_shape(d_id, w_id, now, perm, s, (n - 1) as nat);
        let prev = order_rows(d_id, w_id, now, perm, s, (n - 1) as nat).0;
        let cur = order_rows(d_id, w_id, now, perm, s, n).0;
        assert forall|k: int| 0 <= k < n implies #[trigger] cur[k].1 == perm[k] by {
            if k < n - 1 {
                assert(cur[k] == prev[k]);
            }
        }
    }
}

/// The model of the order batch of district `idx`: every order of the
/// district, in ascending order id, each mapped to a customer by the
/// district's freshly shuffled permutation.
pub open spec fn order_batch(now: DateTime, idx: u64) -> Seq<
    (u64, u64, u64, u64, DateTime, Option<u64>, u64, u64),
> {
    let s0 = rng_seeded(idx);
    let ids = id_range(NUM_ORDERS_PER_DISTRICT as nat);
    let perm = shuffled_of(s0, ids);
    let s1 = shuffle_next(s0, ids);
    order_rows(idx, idx / (NUM_DISTRICTS_PER_WAREHOUSE as u64), now, perm, s1, NUM_ORDERS_PER_DISTRICT as nat).0
}

/// Every order batch holds exactly the per-district order count, so the
/// batches of the order table together hold districts times
/// orders-per-district rows: the relation's cardinality.
pub proof fn lemma_order_batch_len(now: DateTime, idx: u64)
    ensures
        order_batch(now, idx).len() == NUM_ORDERS_PER_DISTRICT,
{
    let s0 = rng_seeded(idx);
    let ids = id_range(NUM_ORDERS_PER_DISTRICT as nat);
    let perm = shuffled_of(s0, ids);
    let s1 = shuffle_next(s0, ids);
    lemma_order_rows_shape(
        idx,
        idx / (NUM_DISTRICTS_PER_WAREHOUSE as u64),
        now,
        perm,
        s1,
        NUM_ORDERS_PER_DISTRICT as nat,
    );
}

/// The ORDER table: one batch per district, holding every order of that
/// district.
#[derive(Debug, Clone, Copy)]
pub struct Order {
    /// The configuration shared by every table of the dataset.
    pub config: TpccConfig,
}

impl Order {
    /// Construct an instance of this table with the given configuration.
    pub fn init(config: TpccConfig) -> (t: Self)
        ensures
            t.config == config,
    {
        Order { config }
    }
}

impl DynTable for Order {
    open spec fn inv(&self) -> bool {
        self.config.wf()
    }

    open spec fn spec_name(&self) -> Seq<char> {
        "order"@
    }

    open spec fn spec_num_batches(&self) -> nat {
        self.config.warehouses as nat * NUM_DISTRICTS_PER_WAREHOUSE as nat
    }

    fn name(&self) -> &'static str {
        "order"
    }

    fn num_batches(&self) -> (n: usize) {
        proof {
            lemma_district_count_fits(self.config);
        }
        self.config.warehouses * NUM_DISTRICTS_PER_WAREHOUSE
    }
}

impl Table for Order {
    type Data = (u64, u64, u64, u64, DateTime, Option<u64>, u64, u64);

    type Batch = (
        Vec<u64>,
        Vec<u64>,
        Vec<u64>,
        Vec<u64>,
        DateCol,
        OptU64Col,
        Vec<u64>,
        Vec<u64>,
    );

    open spec fn congruent(&self, other: &Self) -> bool {
        self.config == other.config
    }

    open spec fn spec_batch(&self, idx: nat) -> Seq<
        (u64, u64, u64, u64, DateTime, Option<u64>, u64, u64),
    > {
        if idx < self.spec_num_batches() {
            order_batch(self.config.now, idx as u64)
        } else {
            Seq::empty()
        }
    }

    /// Within a district, the order-to-customer mapping is a bijection
    /// over the district's customer id range: the customer ids of a
    /// generated batch are a permutation of `0 .. orders-per-district`,
    /// with no duplicates and no gaps.
    open spec fn batch_props(&self, idx: nat, rows: Seq<(u64, u64, u64, u64, DateTime, Option<u64>, u64, u64)>) -> bool {
        idx < self.spec_num_batches() ==> Seq::new(rows.len(), |i: int| rows[i].1).to_multiset()
            == id_range(NUM_ORDERS_PER_DISTRICT as nat).to_multiset()
    }

    proof fn lemma_congruent_determinism(&self, other: &Self) {
        assert forall|idx: nat| self.spec_batch(idx) == other.spec_batch(idx) by {
            assert(self.spec_batch(idx) =~= other.spec_batch(idx));
        }
    }

    proof fn lemma_out_of_range_empty(&self, idx: nat) {
    }

    fn gen_batch(&mut self, idx: usize, batch: &mut Self::Batch) {
        batch.clear();
        let nb = self.num_batches();
        if idx >= nb {
            proof {
                assert(batch.model_seq() =~= self.spec_batch(idx as nat));
            }
            return ;
        }
        let mut rng = SeededRng::from_seed(idx as u64);
        let o_d_id = idx as u64;
        let o_w_id = o_d_id / (NUM_DISTRICTS_PER_WAREHOUSE as u64);
        let o_entry_d = self.config.now;
        let mut o_c_ids: Vec<u64> = Vec::new();
        let mut j: usize = 0;
        while j < NUM_ORDERS_PER_DISTRICT
            invariant
                j <= NUM_ORDERS_PER_DISTRICT,
                o_c_ids@ == id_range(j as nat),
            decreases NUM_ORDERS_PER_DISTRICT - j,
        {
            o_c_ids.push(j as u64);
            proof {
                assert(o_c_ids@ =~= id_range((j + 1) as nat));
            }
            j = j + 1;
        }
        rng.shuffle(&mut o_c_ids);
        let ghost perm = o_c_ids@;
        let ghost s_rows = rng.spec_state();
        let mut i: usize = 0;
        while i < NUM_ORDERS_PER_DISTRICT
            invariant
                i <= NUM_ORDERS_PER_DISTRICT,
                batch.inv(),
                o_c_ids@ == perm,
                perm.len() == NUM_ORDERS_PER_DISTRICT,
                o_d_id == idx as u64,
                o_w_id == o_d_id / (NUM_DISTRICTS_PER_WAREHOUSE as u64),
                o_entry_d == self.config.now,
                (batch.model_seq(), rng.spec_state()) == order_rows(
                    o_d_id,
                    o_w_id,
                    o_entry_d,
                    perm,
                    s_rows,
                    i as nat,
                ),
            decreases NUM_ORDERS_PER_DISTRICT - i,
        {
            proof {
                lemma_order_rows_shape(o_d_id, o_w_id, o_entry_d, perm, s_rows, i as nat);
            }
            let o_id = i as u64;
            let o_c_id = o_c_ids[i];
            let o_carrier_id = if o_id < 2001 {
                Some(rng.range(1, 10))
            } else {
                None
            };
            let o_ol_cnt = rng.range(5, 15);
            let o_all_local = 1u64;
            let row = (o_id, o_c_id, o_d_id, o_w_id, o_entry_d, o_carrier_id, o_ol_cnt, o_all_local);
            batch.push(&row);
            proof {
                assert(batch.model_seq() =~= order_rows(
                    o_d_id,
                    o_w_id,
                    o_entry_d,
                    perm,
                    s_rows,
                    (i + 1) as nat,
                ).0);
                assert(rng.spec_state() == order_rows(
                    o_d_id,
                    o_w_id,
                    o_entry_d,
                    perm,
                    s_rows,
                    (i + 1) as nat,
                ).1);
            }
            i = i + 1;
        }
        proof {
            lemma_order_rows_shape(
                o_d_id,
                o_w_id,
                o_entry_d,
                perm,
                s_rows,
                NUM_ORDERS_PER_DISTRICT as nat,
            );
            assert(batch.model_seq() =~= self.spec_batch(idx as nat));
            let rows = batch.model_seq();
            assert(Seq::new(rows.len(), |k: int| rows[k].1) =~= perm);
        }
    }
}

/// Rows `0 .. n` of the order-line batch of order `o_id`, threaded through
/// generator state `s`, and the state left behind. Lines of orders below
/// the delivery threshold carry a delivery date and a random amount in
/// cents; later ones carry no date and a zero amount.
pub open spec fn order_line_rows(
    o_id: u64,
    d_id: u64,
    w_id: u64,
    now: DateTime,
    s: int,
    n: nat,
) -> (Seq<(u64, u64, u64, u64, u64, u64, Option<DateTime>, u64, u64, Seq<char>)>, int)
    decreases n,
{
    if n == 0 {
        (Seq::empty(), s)
    } else {
        let prev = order_line_rows(o_id, d_id, w_id, now, s, (n - 1) as nat);
        let ol_number = (n - 1) as u64;
        let ol_i_id = rand_in(prev.1, 1, 100_000);
        let s1 = rand_next(prev.1, 1, 100_000);
        let delivery = if o_id < 2101 {
            Some(now)
        } else {
            None
        };
        let amount = if o_id < 2101 {
            rand_in(s1, 1, 999_999)
        } else {
            0
        };
        let s2 = if o_id < 2101 {
            rand_next(s1, 1, 999_999)
        } else {
            s1
        };
        let info = string_val(s2, a_alpha(), 24);
        let s3 = string_next(s2, a_alpha(), 24);
        (prev.0.push((o_id, d_id, w_id, ol_number, ol_i_id, w_id, delivery, 5u64, amount, info)), s3)
    }
}

/// The order-line batch prefix holds one row per line.
proof fn lemma_order_line_rows_shape(
    o_id: u64,
    d_id: u64,
    w_id: u64,
    now: DateTime,
    s: int,
    n: nat,
)
    ensures
        order_line_rows(o_id, d_id, w_id, now, s, n).0.len() == n,
    decreases n,
{
    if n > 0 {
        lemma_order_line_rows_shape(o_id, d_id, w_id, now, s, (n - 1) as nat);
    }
}

/// The model of the order-line batch of order `idx`: a random count of
/// lines, in ascending line number.
pub open spec fn order_line_batch(now: DateTime, idx: u64) -> Seq<
    (u64, u64, u64, u64, u64, u64, Option<DateTime>, u64, u64, Seq<char>),
> {
    let s0 = rng_seeded(idx);
    let cnt = rand_in(s0, 5, 15);
    let s1 = rand_next(s0, 5, 15);
    let d_id = idx / (NUM_ORDERS_PER_DISTRICT as u64);
    order_line_rows(idx, d_id, d_id / (NUM_DISTRICTS_PER_WAREHOUSE as u64), now, s1, cnt as nat).0
}

/// Every order-line batch holds exactly the line count drawn for its
/// order: between five and fifteen lines.
pub proof fn lemma_order_line_batch_len(now: DateTime, idx: u64)
    ensures
        order_line_batch(now, idx).len() == rand_in(rng_seeded(idx), 5, 15),
{
    let s0 = rng_seeded(idx);
    let cnt = rand_in(s0, 5, 15);
    let s1 = rand_next(s0, 5, 15);
    let d_id = idx / (NUM_ORDERS_PER_DISTRICT as u64);
    lemma_order_line_rows_shape(
        idx,
        d_id,
        d_id / (NUM_DISTRICTS_PER_WAREHOUSE as u64),
        now,
        s1,
        cnt as nat,
    );
}

/// The ORDER-LINE table: one batch per order, holding that order's lines.
#[derive(Debug, Clone, Copy)]
pub struct OrderLine {
    /// The configuration shared by every table of the dataset.
    pub config: TpccConfig,
}

impl OrderLine {
    /// Construct an instance of this table with the given configuration.
    pub fn init(config: TpccConfig) -> (t: Self)
        ensures
            t.config == config,
    {
        OrderLine { config }
    }
}

/// The order count fits in `usize` whenever the larger stock count does.
proof fn lemma_order_count_fits(config: TpccConfig)
    requires
        config.wf(),
    ensures
        config.warehouses * NUM_DISTRICTS_PER_WAREHOUSE * NUM_ORDERS_PER_DISTRICT <= usize::MAX,
        config.warehouses * NUM_DISTRICTS_PER_WAREHOUSE <= usize::MAX,
        config.warehouses * NUM_DISTRICTS_PER_WAREHOUSE * NUM_ORDERS_PER_DISTRICT == (
        config.warehouses * NUM_DISTRICTS_PER_WAREHOUSE) * NUM_ORDERS_PER_DISTRICT,
{
    assert(config.warehouses * NUM_DISTRICTS_PER_WAREHOUSE * NUM_ORDERS_PER_DISTRICT
        <= config.warehouses * NUM_STOCK_PER_WAREHOUSE && config.warehouses
        * NUM_DISTRICTS_PER_WAREHOUSE <= config.warehouses * NUM_STOCK_PER_WAREHOUSE
        && config.warehouses * NUM_DISTRICTS_PER_WAREHOUSE * NUM_ORDERS_PER_DISTRICT == (
        config.warehouses * NUM_DISTRICTS_PER_WAREHOUSE) * NUM_ORDERS_PER_DISTRICT) by (nonlinear_arith)
        requires
            config.warehouses >= 0,
    ;
}

impl DynTable for OrderLine {
    open spec fn inv(&self) -> bool {
        self.config.wf()
    }

    open spec fn spec_name(&self) -> Seq<char> {
        "order-line"@
    }

    open spec fn spec_num_batches(&self) -> nat {
        self.config.warehouses as nat * NUM_DISTRICTS_PER_WAREHOUSE as nat
            * NUM_ORDERS_PER_DISTRICT as nat
    }

    fn name(&self) -> &'static str {
        "order-line"
    }

    fn num_batches(&self) -> (n: usize) {
        proof {
            lemma_order_count_fits(self.config);
        }
        self.config.warehouses * NUM_DISTRICTS_PER_WAREHOUSE * NUM_ORDERS_PER_DISTRICT
    }
}

impl Table for OrderLine {
    type Data = (u64, u64, u64, u64, u64, u64, Option<DateTime>, u64, u64, String);

    type Batch = (
        Vec<u64>,
        Vec<u64>,
        Vec<u64>,
        Vec<u64>,
        Vec<u64>,
        Vec<u64>,
        OptDateCol,
        Vec<u64>,
        Vec<u64>,
        TextCol,
    );

    open spec fn congruent(&self, other: &Self) -> bool {
        self.config == other.config
    }

    open spec fn spec_batch(&self, idx: nat) -> Seq<
        (u64, u64, u64, u64, u64, u64, Option<DateTime>, u64, u64, Seq<char>),
    > {
        if idx < self.spec_num_batches() {
            order_line_batch(self.config.now, idx as u64)
        } else {
            Seq::empty()
        }
    }

    proof fn lemma_congruent_determinism(&self, other: &Self) {
        assert forall|idx: nat| self.spec_batch(idx) == other.spec_batch(idx) by {
            assert(self.spec_batch(idx) =~= other.spec_batch(idx));
        }
    }

    proof fn lemma_out_of_range_empty(&self, idx: nat) {
    }

    fn gen_batch(&mut self, idx: usize, batch: &mut Self::Batch) {
        batch.clear();
        let nb = self.num_batches();
        if idx >= nb {
            proof {
                assert(batch.model_seq() =~= self.spec_batch(idx as nat));
            }
            return ;
        }
        let mut rng = SeededRng::from_seed(idx as u64);
        let alpha = a_alphabet();
        let ol_o_id = idx as u64;
        let ol_d_id = ol_o_id / (NUM_ORDERS_PER_DISTRICT as u64);
        let ol_w_id = ol_d_id / (NUM_DISTRICTS_PER_WAREHOUSE as u64);
        let ol_supply_w_id = ol_w_id;
        let ol_quantity = 5u64;
        let now = self.config.now;
        let o_ol_cnt = rng.range(5, 15);
        let ghost s_rows = rng.spec_state();
        let mut i: u64 = 0;
        while i < o_ol_cnt
            invariant
                i <= o_ol_cnt <= 15,
                batch.inv(),
                ol_o_id == idx as u64,
                ol_d_id == ol_o_id / (NUM_ORDERS_PER_DISTRICT as u64),
                ol_w_id == ol_d_id / (NUM_DISTRICTS_PER_WAREHOUSE as u64),
                alpha@ == a_alpha(),
                alpha@.len() == 62,
                ol_supply_w_id == ol_w_id,
                ol_quantity == 5u64,
                batch.model_seq() == order_line_rows(
                    ol_o_id,
                    ol_d_id,
                    ol_w_id,
                    now,
                    s_rows,
                    i as nat,
                ).0,
                rng.spec_state() == order_line_rows(
                    ol_o_id,
                    ol_d_id,
                    ol_w_id,
                    now,
                    s_rows,
                    i as nat,
                ).1,
            decreases o_ol_cnt - i,
        {
            proof {
                lemma_order_line_rows_shape(
                    ol_o_id,
                    ol_d_id,
                    ol_w_id,
                    now,
                    s_rows,
                    i as nat,
                );
            }
            let ol_number = i;
            let ol_i_id = rng.range(1, 100_000);
            let ol_delivery_d = if ol_o_id < 2101 {
                Some(now)
            } else {
                None
            };
            let ol_amount = if ol_o_id < 2101 {
                rng.range(1, 999_999)
            } else {
                0u64
            };
            let mut ol_dist_info = String::new();
            rand_string(&mut rng, alpha, 24, &mut ol_dist_info);
            let row = (
                ol_o_id,
                ol_d_id,
                ol_w_id,
                ol_number,
                ol_i_id,
                ol_supply_w_id,
                ol_delivery_d,
                ol_quantity,
                ol_amount,
                ol_dist_info,
            );
            batch.push(&row);
            proof {
                assert(row.model().9 =~= order_line_rows(
                    ol_o_id,
                    ol_d_id,
                    ol_w_id,
                    now,
                    s_rows,
                    (i + 1) as nat,
                ).0.last().9);
                assert(batch.model_seq() =~= order_line_rows(
                    ol_o_id,
                    ol_d_id,
                    ol_w_id,
                    now,
                    s_rows,
                    (i + 1) as nat,
                ).0);
                assert(rng.spec_state() == order_line_rows(
                    ol_o_id,
                    ol_d_id,
                    ol_w_id,
                    now,
                    s_rows,
                    (i + 1) as nat,
                ).1);
            }
            i = i + 1;
        }
        proof {
            assert(now == self.config.now);
            assert(batch.model_seq() =~= self.spec_batch(idx as nat));
        }
    }
}

/// The full schema: nine interdependent relations sharing one
/// configuration.
#[derive(Debug, Clone, Copy)]
pub struct Tpcc {
    /// The configuration shared by every table of the dataset.
    pub config: TpccConfig,
}

impl Dataset for Tpcc {
    type Config = TpccConfig;

    open spec fn config_wf(config: &TpccConfig) -> bool {
        config.wf()
    }

    open spec fn spec_config(&self) -> TpccConfig {
        self.config
    }

    open spec fn inv(&self) -> bool {
        self.config.wf()
    }

    fn init(config: TpccConfig) -> (d: Self) {
        Tpcc { config }
    }

    fn tables<F: TableFnMut>(&self, f: &mut F) {
        f.call_mut(Item::init(self.config));
        f.call_mut(Warehouse::init(self.config));
        f.call_mut(Stock::init(self.config));
        f.call_mut(District::init(self.config));
        f.call_mut(Customer::init(self.config));
        f.call_mut(History::init(self.config));
        f.call_mut(Order::init(self.config));
        f.call_mut(OrderLine::init(self.config));
        f.call_mut(NewOrder::init(self.config));
    }
}

} // verus!
