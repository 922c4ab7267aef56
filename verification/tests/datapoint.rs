use delfi::datapoint::join_fields;
use delfi::Datapoint;

#[test]
fn single_element() {
    let data = 3.14;
    let array = [format!("{}", data)];
    let datapoint: &dyn Datapoint<1> = &array;
    let record = join_fields(&datapoint.record(), ',');
    let compare = String::from("3.14");
    assert_eq!(record, compare);
}

#[test]
fn multiple_elements() {
    let data = [0, 1, 2];
    let datapoint: &dyn Datapoint<3> = &data;
    let record = join_fields(&datapoint.record(), ',');
    let compare = String::from("0,1,2");
    assert_eq!(record, compare);
}

fn recording(list: Vec<&dyn Datapoint<3>>) {
    let mut iterator = list.iter();

    let element_1 = join_fields(&iterator.next().unwrap().record(), ',');
    let comparison_1 = String::from("1,2,3");
    assert_eq!(element_1, comparison_1);

    let element_2 = join_fields(&iterator.next().unwrap().record(), ';');
    let comparison_2 = String::from("-1;-2;-3");
    assert_eq!(element_2, comparison_2);

    assert!(iterator.next().is_none())
}

#[test]
fn list() {
    let datapoint_1 = [1, 2, 3];
    let datapoint_2 = [-1, -2, -3];
    recording(vec![&datapoint_1, &datapoint_2]);
}

#[test]
fn tuples() {
    let data = ("hello", 4);
    let datapoint: &dyn Datapoint<2> = &data;
    let record = join_fields(&datapoint.record(), ',');
    let compare = "hello,4".to_string();
    assert_eq!(record, compare);
}

#[derive(Debug)]
struct Count {
    ch: char,
    i: usize,
}

impl Datapoint<2> for Count {
    fn record(&self) -> Vec<String> {
        vec![self.ch.to_string(), self.i.to_string()]
    }
}

#[test]
fn derive_named_struct() {
    let a = Count { ch: 'a', i: 49 };
    let record = a.record();
    let compare = [('a').to_string(), (49).to_string()];
    assert_eq!(record, compare);
}
