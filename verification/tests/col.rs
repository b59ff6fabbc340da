use datagen::col::{BytesCol, Col, OptU64Col, TextCol};

#[test]
fn option_round_trip() {
    let mut col = <OptU64Col as Col<Option<u64>>>::new();
    col.push(&Some(7));
    col.push(&None);
    col.push(&Some(42));
    assert_eq!(col.len(), 3);
    assert_eq!(col.get(0), Some(7));
    assert_eq!(col.get(1), None);
    assert_eq!(col.get(2), Some(42));
    // Pushing None, then reading back at that index, returns None without
    // distorting the neighbors.
    col.push(&None);
    assert_eq!(col.get(3), None);
    assert_eq!(col.get(0), Some(7));
    assert_eq!(col.get(1), None);
    assert_eq!(col.get(2), Some(42));
    col.clear();
    assert_eq!(col.len(), 0);
}

#[test]
fn text_col_round_trip() {
    let mut col = <TextCol as Col<String>>::new();
    assert_eq!(col.len(), 0);
    col.push(&String::from("hello"));
    col.push(&String::from(""));
    col.push(&String::from("world"));
    assert_eq!(col.len(), 3);
    assert_eq!(col.get(0), "hello");
    assert_eq!(col.get(1), "");
    assert_eq!(col.get(2), "world");
    col.clear();
    assert_eq!(col.len(), 0);
    col.push(&String::from("again"));
    assert_eq!(col.len(), 1);
    assert_eq!(col.get(0), "again");
}

#[test]
fn bytes_col_round_trip() {
    let mut col = <BytesCol as Col<Vec<u8>>>::new();
    col.push(&vec![1, 2, 3]);
    col.push(&vec![]);
    col.push(&vec![4]);
    assert_eq!(col.len(), 3);
    assert_eq!(col.get(0), vec![1, 2, 3]);
    assert_eq!(col.get(1), Vec::<u8>::new());
    assert_eq!(col.get(2), vec![4]);
}

#[test]
fn primitive_cols() {
    let mut col: Vec<u64> = Col::new();
    <Vec<u64> as Col<u64>>::push(&mut col, &5);
    <Vec<u64> as Col<u64>>::push(&mut col, &6);
    assert_eq!(<Vec<u64> as Col<u64>>::len(&col), 2);
    assert_eq!(<Vec<u64> as Col<u64>>::get(&col, 1), 6);
    assert_eq!(<Vec<u64> as Col<u64>>::good_bytes(&col), 16);

    let mut col: Vec<i64> = Col::new();
    <Vec<i64> as Col<i64>>::push(&mut col, &-3);
    assert_eq!(<Vec<i64> as Col<i64>>::get(&col, 0), -3);

    let mut col: Vec<bool> = Col::new();
    <Vec<bool> as Col<bool>>::push(&mut col, &true);
    assert_eq!(<Vec<bool> as Col<bool>>::get(&col, 0), true);
}

#[test]
fn unit_col_counts() {
    let mut col: usize = <usize as Col<()>>::new();
    <usize as Col<()>>::push(&mut col, &());
    <usize as Col<()>>::push(&mut col, &());
    assert_eq!(<usize as Col<()>>::len(&col), 2);
    <usize as Col<()>>::get(&col, 1);
    <usize as Col<()>>::clear(&mut col);
    assert_eq!(<usize as Col<()>>::len(&col), 0);
}

#[test]
fn tuple_col_composes_positionally() {
    type Row = (u64, String, i64);
    type Batch = (Vec<u64>, TextCol, Vec<i64>);
    let mut batch = <Batch as Col<Row>>::new();
    batch.push(&(1, String::from("a"), -1));
    batch.push(&(2, String::from("bc"), -2));
    assert_eq!(batch.len(), 2);
    assert_eq!(batch.get(0), (1, String::from("a"), -1));
    assert_eq!(batch.get(1), (2, String::from("bc"), -2));
    batch.clear();
    assert_eq!(batch.len(), 0);
}

#[test]
fn good_bytes_counts_payload() {
    let mut col = <TextCol as Col<String>>::new();
    col.push(&String::from("abcd"));
    // One offset entry plus four bytes of text.
    assert_eq!(col.good_bytes(), 8 + 4);

    let mut col = <BytesCol as Col<Vec<u8>>>::new();
    col.push(&vec![9; 10]);
    assert_eq!(col.good_bytes(), 8 + 10);

    let mut col = <OptU64Col as Col<Option<u64>>>::new();
    col.push(&Some(1));
    col.push(&None);
    assert_eq!(col.good_bytes(), 2 + 16);
}

#[test]
fn text_col_handles_non_ascii() {
    let mut col = <TextCol as Col<String>>::new();
    col.push(&String::from("héllo"));
    col.push(&String::from("日本語"));
    col.push(&String::from("plain"));
    assert_eq!(col.get(0), "héllo");
    assert_eq!(col.get(1), "日本語");
    assert_eq!(col.get(2), "plain");
}
