use delfi::Dataset;

#[test]
fn from_array() {
    let iterator = [[1, 2], [3, 4], [5, 6]];
    let dataset = Dataset::from_datapoints(iterator.to_vec());
    println!("{:?}", dataset);
}

#[test]
fn from_iterator() {
    let iterator = [[1, 2], [3, 4], [5, 6]].into_iter();
    let dataset = Dataset::from_datapoints(iterator.collect());
    println!("{:?}", dataset);
}

#[test]
fn from_vec() {
    let vector = vec![[1, 2], [3, 4], [5, 6]];
    let dataset = Dataset::from_datapoints(vector);
    println!("{:?}", dataset);
}
