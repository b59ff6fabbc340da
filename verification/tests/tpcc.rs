use datagen::col::Col;
use datagen::tpcc::{
    Customer, DateTime, District, History, Item, NewOrder, Order, OrderLine, Stock, Tpcc,
    TpccConfig, Warehouse,
};
use datagen::{Dataset, DynTable, Table, TableFnMut};

fn new_batch<T: Table>() -> T::Batch {
    <T::Batch as Col<T::Data>>::new()
}

fn config() -> TpccConfig {
    TpccConfig { warehouses: 1, now: TpccConfig::feb_18_2023_1_pm() }
}

fn is_alnum(s: &str) -> bool {
    s.chars().all(|c| c.is_ascii_alphanumeric())
}

#[test]
fn tpcc() {
    let config = config();

    let mut item = Item::init(config);
    assert_eq!(item.name(), "item");
    assert_eq!(item.num_batches(), 100_000);
    let mut batch = new_batch::<Item>();
    item.gen_batch(0, &mut batch);
    assert_eq!(batch.len(), 1);
    let (i_id, i_im_id, i_name, i_price, i_data) = batch.get(0);
    assert_eq!(i_id, 0);
    assert!(1 <= i_im_id && i_im_id <= 10_000);
    assert!(14 <= i_name.len() && i_name.len() <= 24);
    assert!(100 <= i_price && i_price <= 10_000);
    assert!(26 <= i_data.len() && i_data.len() <= 50);
    item.gen_batch(7, &mut batch);
    assert_eq!(batch.get(0).0, 7);

    let mut warehouse = Warehouse::init(config);
    assert_eq!(warehouse.name(), "warehouse");
    assert_eq!(warehouse.num_batches(), 1);
    let mut batch = new_batch::<Warehouse>();
    warehouse.gen_batch(0, &mut batch);
    assert_eq!(batch.len(), 1);
    let row = batch.get(0);
    assert_eq!(row.0, 0);
    assert!(6 <= row.1.len() && row.1.len() <= 10);
    assert_eq!(row.5.len(), 2);
    assert_eq!(row.6.len(), 9);
    assert!(row.6.ends_with("11111"));
    assert!(row.7 <= 2000);
    assert_eq!(row.8, 30_000_000);

    let mut stock = Stock::init(config);
    assert_eq!(stock.name(), "stock");
    assert_eq!(stock.num_batches(), 100_000);
    let mut batch = new_batch::<Stock>();
    stock.gen_batch(42, &mut batch);
    assert_eq!(batch.len(), 1);
    let row = batch.get(0);
    assert_eq!(row.0, 42);
    assert_eq!(row.1, 0);
    assert!(10 <= row.2 && row.2 <= 100);
    assert_eq!(row.3.len(), 24);
    assert_eq!(row.7.len(), 24);
    assert_eq!(row.8, 0);
    assert!(26 <= row.11.len() && row.11.len() <= 50);

    let mut district = District::init(config);
    assert_eq!(district.name(), "district");
    assert_eq!(district.num_batches(), 10);
    let mut batch = new_batch::<District>();
    district.gen_batch(9, &mut batch);
    assert_eq!(batch.len(), 1);
    let row = batch.get(0);
    assert_eq!(row.0, 9);
    assert_eq!(row.1, 0);
    assert!(row.8 <= 2000);
    assert_eq!(row.9, 30_000_000);
    assert_eq!(row.10, 3001);

    let mut customer = Customer::init(config);
    assert_eq!(customer.name(), "customer");
    assert_eq!(customer.num_batches(), 30_000);
    let mut batch = new_batch::<Customer>();
    customer.gen_batch(6001, &mut batch);
    assert_eq!(batch.len(), 1);
    let row = batch.get(0);
    assert_eq!(row.0, 6001);
    assert_eq!(row.1, 2);
    assert_eq!(row.2, 0);
    assert_eq!(row.3, "TODO");
    assert_eq!(row.4, "OE");
    assert!(8 <= row.5.len() && row.5.len() <= 16);
    assert!(300 <= row.11.len() && row.11.len() <= 500);

    let mut history = History::init(config);
    assert_eq!(history.name(), "history");
    assert_eq!(history.num_batches(), 30_000);
    let mut batch = new_batch::<History>();
    history.gen_batch(3000, &mut batch);
    assert_eq!(batch.len(), 1);
    let row = batch.get(0);
    assert_eq!(row.0, 3000);
    assert_eq!(row.1, 1);
    assert_eq!(row.2, 0);
    assert_eq!(row.3, 1);
    assert_eq!(row.4, 0);
    assert_eq!(row.5, DateTime { date: 44_973, time: 46_800 });
    assert_eq!(row.6, 1000);
    assert!(12 <= row.7.len() && row.7.len() <= 24);

    let mut order = Order::init(config);
    assert_eq!(order.name(), "order");
    assert_eq!(order.num_batches(), 10);
    let mut batch = new_batch::<Order>();
    order.gen_batch(0, &mut batch);
    assert_eq!(batch.len(), 3000);
    for j in 0..batch.len() {
        let row = batch.get(j);
        assert_eq!(row.0, j as u64);
        assert!(row.1 < 3000);
        assert_eq!(row.2, 0);
        assert_eq!(row.3, 0);
        if row.0 < 2001 {
            let carrier = row.5.expect("undelivered orders carry a carrier id");
            assert!(1 <= carrier && carrier <= 10);
        } else {
            assert!(row.5.is_none());
        }
        assert!(5 <= row.6 && row.6 <= 15);
        assert_eq!(row.7, 1);
    }

    let mut order_line = OrderLine::init(config);
    assert_eq!(order_line.name(), "order-line");
    assert_eq!(order_line.num_batches(), 30_000);
    let mut batch = new_batch::<OrderLine>();
    order_line.gen_batch(0, &mut batch);
    assert!(5 <= batch.len() && batch.len() <= 15);
    for j in 0..batch.len() {
        let row = batch.get(j);
        assert_eq!(row.0, 0);
        assert_eq!(row.3, j as u64);
        assert!(1 <= row.4 && row.4 <= 100_000);
        assert_eq!(row.6, Some(DateTime { date: 44_973, time: 46_800 }));
        assert_eq!(row.7, 5);
        assert!(1 <= row.8 && row.8 <= 999_999);
        assert_eq!(row.9.len(), 24);
    }
    order_line.gen_batch(2101, &mut batch);
    for j in 0..batch.len() {
        let row = batch.get(j);
        assert!(row.6.is_none());
        assert_eq!(row.8, 0);
    }

    let mut new_order = NewOrder::init(config);
    assert_eq!(new_order.name(), "new-order");
    assert_eq!(new_order.num_batches(), 9000);
    let mut batch = new_batch::<NewOrder>();
    new_order.gen_batch(0, &mut batch);
    assert_eq!(batch.get(0), (2100, 0, 0));
    new_order.gen_batch(899, &mut batch);
    assert_eq!(batch.get(0), (2999, 0, 0));
    new_order.gen_batch(900, &mut batch);
    assert_eq!(batch.get(0), (2100, 1, 0));
}

#[test]
fn order_customer_bijection() {
    let mut order = Order::init(config());
    let mut batch = new_batch::<Order>();
    for idx in [0, 3] {
        order.gen_batch(idx, &mut batch);
        assert_eq!(batch.len(), 3000);
        let mut seen = vec![false; 3000];
        for j in 0..batch.len() {
            let c_id = batch.get(j).1 as usize;
            assert!(c_id < 3000);
            assert!(!seen[c_id], "no customer appears twice");
            seen[c_id] = true;
        }
        assert!(seen.iter().all(|&s| s), "no customer is skipped");
    }
}

#[test]
fn tpcc_determinism() {
    let config = config();
    let mut a = Warehouse::init(config);
    let mut b = Warehouse::init(config);
    let mut batch_a = new_batch::<Warehouse>();
    let mut batch_b = new_batch::<Warehouse>();
    a.gen_batch(0, &mut batch_a);
    b.gen_batch(0, &mut batch_b);
    for j in 0..batch_a.len() {
        assert_eq!(batch_a.get(j), batch_b.get(j));
    }

    let mut a = Order::init(config);
    let mut batch_c = new_batch::<Order>();
    let mut batch_d = new_batch::<Order>();
    a.gen_batch(5, &mut batch_c);
    a.gen_batch(5, &mut batch_d);
    assert_eq!(batch_c.len(), batch_d.len());
    for j in 0..batch_c.len() {
        assert_eq!(batch_c.get(j), batch_d.get(j));
    }
}

#[test]
fn generated_text_is_alphanumeric() {
    let mut item = Item::init(config());
    let mut batch = new_batch::<Item>();
    let mut saw_marker = false;
    for idx in 0..40 {
        item.gen_batch(idx, &mut batch);
        let (_, _, name, _, data) = batch.get(0);
        assert!(is_alnum(&name));
        if data.contains("ORIGINAL") {
            saw_marker = true;
        } else {
            assert!(is_alnum(&data));
        }
    }
    // Roughly one item in ten carries the marker; forty items make a miss
    // astronomically unlikely for a fixed generator.
    assert!(saw_marker);
}

struct NameCollector {
    names: Vec<&'static str>,
    batches: Vec<usize>,
}

impl TableFnMut for NameCollector {
    fn call_mut<T: Table>(&mut self, table: T) {
        self.names.push(table.name());
        self.batches.push(table.num_batches());
    }
}

#[test]
fn dataset_visits_all_tables() {
    let dataset = Tpcc::init(config());
    let mut collector = NameCollector { names: Vec::new(), batches: Vec::new() };
    dataset.tables(&mut collector);
    assert_eq!(
        collector.names,
        vec![
            "item",
            "warehouse",
            "stock",
            "district",
            "customer",
            "history",
            "order",
            "order-line",
            "new-order"
        ]
    );
    assert_eq!(
        collector.batches,
        vec![100_000, 1, 100_000, 10, 30_000, 30_000, 10, 30_000, 9000]
    );
}

#[test]
fn datetime_packs_little_endian_days_first() {
    let d = DateTime { date: 44_973, time: 46_800 };
    assert_eq!(d.pack(), 44_973u64 + 46_800u64 * 0x1_0000_0000);
    assert_eq!(DateTime::unpack(d.pack()), d);
    assert_eq!(d.to_u64(), 44_973u64 * 0x1_0000_0000 + 46_800u64);
    let zero: DateTime = Default::default();
    assert_eq!(zero, DateTime { date: 0, time: 0 });
}

#[test]
fn out_of_range_tpcc_batch_is_empty() {
    let mut warehouse = Warehouse::init(config());
    let mut batch = new_batch::<Warehouse>();
    warehouse.gen_batch(0, &mut batch);
    assert_eq!(batch.len(), 1);
    warehouse.gen_batch(1, &mut batch);
    assert_eq!(batch.len(), 0);
}

#[test]
fn generator_golden_values() {
    let config = config();
    let mut item = Item::init(config);
    let mut batch = new_batch::<Item>();
    item.gen_batch(0, &mut batch);
    let (_, im, name, price, data) = batch.get(0);

    let mut warehouse = Warehouse::init(config);
    let mut wb = new_batch::<Warehouse>();
    warehouse.gen_batch(0, &mut wb);
    let wrow = wb.get(0);

    let mut order = Order::init(config);
    let mut ob = new_batch::<Order>();
    order.gen_batch(0, &mut ob);
    let mut c_ids = Vec::new();
    for j in 0..10 {
        c_ids.push(ob.get(j).1);
    }
    let cnt0 = ob.get(0).6;

    let mut ol = OrderLine::init(config);
    let mut lb = new_batch::<OrderLine>();
    ol.gen_batch(0, &mut lb);
    let lrow = lb.get(0);

    // Regression pins for the generator-derived fields, tied to the locked
    // rand version and its 64-bit generator; a different platform word size
    // or rand release may legitimately change them.
    assert_eq!(im, 4474);
    assert_eq!(name, "36KCyYo8Nd5nosWSKlp");
    assert_eq!(price, 8660);
    assert_eq!(data, "8cYB0av5swrQzbPWviBQwuAYNgf5lUlik7F");
    assert_eq!(wrow.1, "B8C36KCy");
    assert_eq!(wrow.6, "160811111");
    assert_eq!(wrow.7, 1650);
    assert_eq!(c_ids, vec![2214, 2732, 785, 2122, 1597, 1879, 1293, 1684, 2782, 2902]);
    assert_eq!(cnt0, 6);
    assert_eq!(lb.len(), 10);
    assert_eq!(lrow.4, 58815);
    assert_eq!(lrow.8, 456372);
    assert_eq!(lrow.9, "yYo8Nd5nosWSKlp1y38cYB0a");
}
