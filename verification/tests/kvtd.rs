use datagen::col::{BytesCol, Col, TextCol};
use datagen::kvtd::{gen_diffs, gen_keys, gen_times, gen_vals, to_hex, Kvtd, KvtdConfig};
use datagen::{Dataset, DynTable, Table, TableFnMut};

type KvtdBatch = (TextCol, BytesCol, Vec<u64>, Vec<i64>);

fn new_batch() -> KvtdBatch {
    <KvtdBatch as Col<(String, Vec<u8>, u64, i64)>>::new()
}

fn hex_case(i: usize, expected: &str) {
    let mut actual = String::new();
    to_hex(&mut actual, i);
    assert_eq!(actual, expected);
}

#[test]
fn hex() {
    hex_case(0, "0000000000000000");
    hex_case(1, "0000000000000001");
    hex_case(2, "0000000000000002");
    hex_case(3, "0000000000000003");
    hex_case(4, "0000000000000004");
    hex_case(5, "0000000000000005");
    hex_case(6, "0000000000000006");
    hex_case(7, "0000000000000007");
    hex_case(8, "0000000000000008");
    hex_case(9, "0000000000000009");
    hex_case(10, "000000000000000a");
    hex_case(11, "000000000000000b");
    hex_case(12, "000000000000000c");
    hex_case(13, "000000000000000d");
    hex_case(14, "000000000000000e");
    hex_case(15, "000000000000000f");
    hex_case(16, "0000000000000010");
    hex_case(17, "0000000000000011");
    hex_case(u64::MAX as usize, "ffffffffffffffff");
}

#[test]
fn changelog_scenario() {
    let mut table = Kvtd::init(KvtdConfig { val_bytes: 4, num_rows: 3, max_rows_per_batch: 3 });
    assert_eq!(table.num_batches(), 1);
    let mut batch = new_batch();
    table.gen_batch(0, &mut batch);
    assert_eq!(batch.len(), 3);

    let (k0, v0, t0, d0) = batch.get(0);
    assert_eq!(k0, "0000000000000000");
    assert_eq!(v0, vec![197, 153, 189, 113]);
    assert_eq!(t0, 0);
    assert_eq!(d0, 1);

    let (k1, v1, t1, d1) = batch.get(1);
    assert_eq!(k1, "0000000000000001");
    assert_eq!(v1, vec![138, 50, 122, 226]);
    assert_eq!(t1, 1);
    assert_eq!(d1, 1);

    let (k2, v2, t2, d2) = batch.get(2);
    assert_eq!(k2, "0000000000000002");
    assert_eq!(v2, vec![79, 203, 55, 83]);
    assert_eq!(t2, 2);
    assert_eq!(d2, 1);
}

#[test]
fn batch_lengths_and_total() {
    let mut table = Kvtd::init(KvtdConfig { val_bytes: 2, num_rows: 10, max_rows_per_batch: 3 });
    assert_eq!(table.num_batches(), 4);
    let mut batch = new_batch();
    let mut total = 0;
    let expected_lens = [3, 3, 3, 1];
    for idx in 0..4 {
        table.gen_batch(idx, &mut batch);
        assert_eq!(batch.len(), expected_lens[idx]);
        total += batch.len();
    }
    assert_eq!(total, 10);
    // An out-of-range index yields an empty batch, not an error.
    table.gen_batch(4, &mut batch);
    assert_eq!(batch.len(), 0);
    table.gen_batch(1000, &mut batch);
    assert_eq!(batch.len(), 0);
}

#[test]
fn keys_are_global_row_indices() {
    let mut table = Kvtd::init(KvtdConfig { val_bytes: 1, num_rows: 5, max_rows_per_batch: 2 });
    assert_eq!(table.num_batches(), 3);
    let mut batch = new_batch();
    table.gen_batch(1, &mut batch);
    assert_eq!(batch.len(), 2);
    assert_eq!(batch.get(0).0, "0000000000000002");
    assert_eq!(batch.get(1).0, "0000000000000003");
    assert_eq!(batch.get(0).2, 2);
    table.gen_batch(2, &mut batch);
    assert_eq!(batch.len(), 1);
    assert_eq!(batch.get(0).0, "0000000000000004");
}

#[test]
fn determinism_across_instances() {
    let config = KvtdConfig { val_bytes: 8, num_rows: 7, max_rows_per_batch: 4 };
    let mut a = Kvtd::init(config);
    let mut b = Kvtd::init(config);
    let mut batch_a = new_batch();
    let mut batch_b = new_batch();
    for idx in 0..2 {
        a.gen_batch(idx, &mut batch_a);
        b.gen_batch(idx, &mut batch_b);
        assert_eq!(batch_a.len(), batch_b.len());
        for j in 0..batch_a.len() {
            assert_eq!(batch_a.get(j), batch_b.get(j));
        }
        // Repeating the same index on the same instance is also identical.
        a.gen_batch(idx, &mut batch_b);
        for j in 0..batch_a.len() {
            assert_eq!(batch_a.get(j), batch_b.get(j));
        }
    }
}

#[test]
fn zero_rows_make_zero_batches() {
    let mut table = Kvtd::init(KvtdConfig { val_bytes: 4, num_rows: 0, max_rows_per_batch: 5 });
    assert_eq!(table.num_batches(), 0);
    let mut batch = new_batch();
    table.gen_batch(0, &mut batch);
    assert_eq!(batch.len(), 0);
}

#[test]
fn batch_size_larger_than_rows_makes_one_batch() {
    let mut table = Kvtd::init(KvtdConfig { val_bytes: 4, num_rows: 3, max_rows_per_batch: 100 });
    assert_eq!(table.num_batches(), 1);
    let mut batch = new_batch();
    table.gen_batch(0, &mut batch);
    assert_eq!(batch.len(), 3);
}

#[test]
fn gen_keys_concatenates_hex() {
    let mut col = String::new();
    gen_keys(&mut col, 0, 2);
    assert_eq!(col, "00000000000000000000000000000001");
    gen_keys(&mut col, 16, 1);
    assert_eq!(col, "0000000000000010");
}

#[test]
fn gen_vals_match_scenario_bytes() {
    let mut col = Vec::new();
    gen_vals(&mut col, 0, 3, 4);
    assert_eq!(col, vec![197, 153, 189, 113, 138, 50, 122, 226, 79, 203, 55, 83]);
    gen_vals(&mut col, 1, 1, 4);
    assert_eq!(col, vec![138, 50, 122, 226]);
}

#[test]
fn gen_times_are_row_indices() {
    let mut col = Vec::new();
    gen_times(&mut col, 5, 3);
    assert_eq!(col, vec![5, 6, 7]);
    gen_times(&mut col, 0, 0);
    assert!(col.is_empty());
}

#[test]
fn gen_diffs_are_all_one() {
    let mut col = Vec::new();
    gen_diffs(&mut col, 4);
    assert_eq!(col, vec![1, 1, 1, 1]);
    gen_diffs(&mut col, 0);
    assert!(col.is_empty());
}

#[test]
fn kvtd_metadata() {
    let table = Kvtd::init(KvtdConfig { val_bytes: 4, num_rows: 3, max_rows_per_batch: 3 });
    assert_eq!(table.name(), "kvtd");
}

struct BatchCounter {
    tables: usize,
    rows: usize,
}

impl TableFnMut for BatchCounter {
    fn call_mut<T: Table>(&mut self, mut table: T) {
        self.tables += 1;
        let mut batch = <T::Batch as Col<T::Data>>::new();
        for idx in 0..table.num_batches() {
            table.gen_batch(idx, &mut batch);
            self.rows += batch.len();
        }
    }
}

#[test]
fn dataset_visits_the_changelog_table() {
    let dataset = Kvtd::init(KvtdConfig { val_bytes: 4, num_rows: 11, max_rows_per_batch: 4 });
    let mut counter = BatchCounter { tables: 0, rows: 0 };
    dataset.tables(&mut counter);
    assert_eq!(counter.tables, 1);
    assert_eq!(counter.rows, 11);
}
