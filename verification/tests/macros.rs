use delfi::Datapoint;
use delfi::Dataset;

// A user-defined record type with a hand-written record capability:
// one field per column, in declaration order.
#[derive(Debug)]
struct Count {
    ch: char,
    i: usize,
}

impl Datapoint<2> for Count {
    fn record(&self) -> Vec<String> {
        vec![self.ch.to_string(), self.i.to_string()]
    }
}

#[test]
fn derive_named() {
    let a = Count { ch: 'a', i: 49 };
    let record = a.record();
    let compare = [('a').to_string(), (49).to_string()];
    assert_eq!(record, compare);
}

#[test]
fn user_record_dataset() {
    let mut dataset = Dataset::new();
    dataset.push(Count { ch: 'a', i: 49 });
    dataset.push(Count { ch: 'b', i: 200 });
    let bytes = dataset.to_csv_bytes();
    assert_eq!(String::from_utf8(bytes).unwrap(), "a,49\nb,200\n");
}
