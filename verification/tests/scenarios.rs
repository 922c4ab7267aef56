use delfi::Dataset;

#[test]
fn rows_to_csv() {
    let ds = Dataset::from_datapoints(vec![[1, 2], [3, 4], [5, 6]]);
    let bytes = ds.to_csv_bytes();
    assert_eq!(bytes, b"1,2\n3,4\n5,6\n".to_vec());
}

#[test]
fn columns_with_labels_to_csv() {
    let t = vec![0, 1, 2, 3, 4, 5];
    let x = vec![2, 3, 5, 8, 12, 17];
    let ds = Dataset::from_columns([t, x]).with_labels(Some(["time", "length"]));
    let text = String::from_utf8(ds.to_csv_bytes()).unwrap();
    assert_eq!(text, "time,length\n0,2\n1,3\n2,5\n3,8\n4,12\n5,17\n");
    assert_eq!(text.lines().count(), 7);
}

#[test]
fn ragged_columns() {
    let ds = Dataset::from_columns([vec![1, 2, 3, 4], vec![10, 20]]);
    assert_eq!(ds.n_datapoints(), 2);
    let bytes = ds.to_csv_bytes();
    assert_eq!(bytes, b"1,10\n2,20\n".to_vec());
}

#[test]
fn pair_syntax_equivalence() {
    let d1 = Dataset::columns([vec![1, 2, 3], vec![3, 4, 5]], Some(["x", "y"]));
    let d2 = Dataset::from_columns([vec![1, 2, 3], vec![3, 4, 5]]).with_labels(Some(["x", "y"]));
    assert_eq!(d1.to_csv_bytes(), d2.to_csv_bytes());
}

#[test]
fn empty_dataset_to_csv() {
    let ds: Dataset<2, [i32; 2]> = Dataset::new();
    assert_eq!(ds.to_csv_bytes(), Vec::<u8>::new());
}

#[test]
fn clearing_labels_twice() {
    let mut ds = Dataset::from_columns([vec![1, 2], vec![3, 4]]).with_labels(Some(["a", "b"]));
    ds.set_labels(None);
    ds.set_labels(None);
    assert_eq!(ds.get_labels(), None);
    assert_eq!(ds.n_rows(), 2);
}

#[test]
fn quotes_fields_when_needed() {
    let mut ds: Dataset<2, (String, String)> = Dataset::new();
    ds.push((String::from("a,b"), String::from("plain")));
    ds.push((String::from("say \"hi\""), String::from("x\ny")));
    let text = String::from_utf8(ds.to_csv_bytes()).unwrap();
    assert_eq!(text, "\"a,b\",plain\n\"say \"\"hi\"\"\",\"x\ny\"\n");
}

#[test]
fn equal_columns_kept_apart() {
    let ds = Dataset::columns([vec![7, 7], vec![7, 7]], Some(["l", "l"]));
    let text = String::from_utf8(ds.to_csv_bytes()).unwrap();
    assert_eq!(text, "l,l\n7,7\n7,7\n");
}
