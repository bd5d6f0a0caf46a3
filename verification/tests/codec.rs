use rsqlite::codes::{SQLITE_DONE, SQLITE_INTEGER, SQLITE_NULL, SQLITE_ROW, SQLITE_TEXT};
use rsqlite::text::c_string;
use rsqlite::{
    Bindable, Collectable, Double, Iterable, Kind, Param, Reply, Request, Row, RsqliteError, Value,
};
use std::collections::VecDeque;

fn bound(params: impl Bindable) -> Vec<Param> {
    let mut queue = VecDeque::new();
    let mut index = 1;
    assert_eq!(params.bind(&mut queue, &mut index), Ok(()));
    assert_eq!(index as usize, 1 + queue.len());
    queue.into_iter().collect()
}

fn param(position: i32, value: Value) -> Param {
    Param { position, value }
}

fn row_of(cells: Vec<(i32, Option<Value>)>) -> Row {
    let mut row = Row::new();
    for (column, (class, value)) in cells.into_iter().enumerate() {
        let column = column as i32;
        assert!(row.put(&Request::ColumnType { column }, Reply::Code(class)));
        if let Some(value) = value {
            let kind = value.kind().unwrap();
            assert!(row.put(&Request::Column { column, kind }, Reply::Value(value)));
        }
    }
    row
}

#[test]
fn scalars_bind_one_parameter_each() {
    assert_eq!(bound(29), vec![param(1, Value::Int(29))]);
    assert_eq!(bound(-7i64), vec![param(1, Value::Int64(-7))]);
    let weight = Double::from_bits(69.5f64.to_bits());
    assert_eq!(bound(weight), vec![param(1, Value::Double(weight))]);
    assert_eq!(bound("amin"), vec![param(1, Value::Text("amin".to_owned()))]);
    let bytes: &[u8] = &[1, 1, 2, 3, 5];
    assert_eq!(bound(bytes), vec![param(1, Value::Blob(vec![1, 1, 2, 3, 5]))]);
    assert_eq!(bound(()), vec![]);
}

#[test]
fn empty_text_and_bytes_bind_as_empty_values() {
    assert_eq!(bound(""), vec![param(1, Value::Text(String::new()))]);
    let none: &[u8] = &[];
    assert_eq!(bound(none), vec![param(1, Value::Blob(vec![]))]);
}

#[test]
fn references_bind_as_their_values() {
    let age = 29;
    assert_eq!(bound(&age), bound(age));
    assert_eq!(bound(&&age), bound(age));
    let name = "amin";
    assert_eq!(bound(&name), bound(name));
    assert_eq!(bound(&(1, "a")), bound((1, "a")));
}

#[test]
fn optional_values_bind_as_null_or_their_value() {
    assert_eq!(bound(None::<&str>), vec![param(1, Value::Null)]);
    assert_eq!(bound(Some(5)), vec![param(1, Value::Int(5))]);
    assert_eq!(
        bound((None::<&str>, 20)),
        vec![param(1, Value::Null), param(2, Value::Int(20))]
    );
}

#[test]
fn tuples_bind_from_left_to_right() {
    let weight = Double::from_bits(69.5f64.to_bits());
    assert_eq!(
        bound((29, "amin", weight)),
        vec![
            param(1, Value::Int(29)),
            param(2, Value::Text("amin".to_owned())),
            param(3, Value::Double(weight)),
        ]
    );
    assert_eq!(bound((7,)), vec![param(1, Value::Int(7))]);
    assert_eq!(
        bound(((1, 2), 3)),
        vec![param(1, Value::Int(1)), param(2, Value::Int(2)), param(3, Value::Int(3))]
    );
}

#[test]
fn a_tuple_of_thirteen_binds_thirteen_positions() {
    let params = bound((1, 2, 3, 4, 5, 6, 7, 8, 9, 10, 11, 12, 13));
    assert_eq!(params.len(), 13);
    for (i, p) in params.iter().enumerate() {
        assert_eq!(p.position, i as i32 + 1);
        assert_eq!(p.value, Value::Int(i as i32 + 1));
    }
}

#[test]
fn binding_goes_on_from_the_running_index() {
    let mut queue = VecDeque::new();
    let mut index = 4;
    assert_eq!(("a", 2).bind(&mut queue, &mut index), Ok(()));
    assert_eq!(index, 6);
    let params: Vec<Param> = queue.into_iter().collect();
    assert_eq!(params, vec![param(4, Value::Text("a".to_owned())), param(5, Value::Int(2))]);
}

#[test]
fn binding_stops_where_the_positions_run_out() {
    let mut queue = VecDeque::new();
    let mut index = i32::MAX - 2;
    assert_eq!((1, "b", 3, 4).bind(&mut queue, &mut index), Err(RsqliteError::Range));
    assert_eq!(index, i32::MAX);
    let params: Vec<Param> = queue.into_iter().collect();
    assert_eq!(
        params,
        vec![param(i32::MAX - 2, Value::Int(1)), param(i32::MAX - 1, Value::Text("b".to_owned()))]
    );
    let mut queue = VecDeque::new();
    let mut index = i32::MAX;
    assert_eq!(7.bind(&mut queue, &mut index), Err(RsqliteError::Range));
    assert_eq!(None::<i32>.bind(&mut queue, &mut index), Err(RsqliteError::Range));
    assert_eq!(().bind(&mut queue, &mut index), Ok(()));
    assert_eq!(((), ()).bind(&mut queue, &mut index), Ok(()));
    assert!(queue.is_empty());
    assert_eq!(index, i32::MAX);
    let mut index = i32::MAX - 1;
    assert_eq!((7,).bind(&mut queue, &mut index), Ok(()));
    assert_eq!(queue.len(), 1);
}

#[test]
fn the_running_offset_stays_at_the_last_column() {
    let row = Row::new();
    let mut column = i32::MAX;
    assert_eq!(
        i32::collect(&row, &mut column),
        Err(Request::Column { column: i32::MAX, kind: Kind::Int })
    );
    assert_eq!(column, i32::MAX);
    assert_eq!(<()>::collect(&row, &mut column), Ok(()));
    assert_eq!(column, i32::MAX);
}

#[test]
fn scalars_collect_from_one_column() {
    let row = row_of(vec![(SQLITE_INTEGER, Some(Value::Int(29)))]);
    let mut column = 0;
    assert_eq!(i32::collect(&row, &mut column), Ok(29));
    assert_eq!(column, 1);

    let row = row_of(vec![(SQLITE_TEXT, Some(Value::Text("amin".to_owned())))]);
    let mut column = 0;
    assert_eq!(String::collect(&row, &mut column), Ok("amin".to_owned()));
    assert_eq!(column, 1);

    let row = row_of(vec![(SQLITE_INTEGER, Some(Value::Int64(1 << 40)))]);
    let mut column = 0;
    assert_eq!(i64::collect(&row, &mut column), Ok(1 << 40));

    let bits = 3.14f64.to_bits();
    let row = row_of(vec![(2, Some(Value::Double(Double::from_bits(bits))))]);
    let mut column = 0;
    let pi = Double::collect(&row, &mut column).unwrap();
    assert_eq!(f64::from_bits(pi.to_bits()), 3.14);

    let row = row_of(vec![(4, Some(Value::Blob(vec![1, 1, 2, 3, 5])))]);
    let mut column = 0;
    let blob = <Box<[u8]>>::collect(&row, &mut column).unwrap();
    assert_eq!(blob.as_ref(), &[1u8, 1, 2, 3, 5][..]);
    assert_eq!(column, 1);
}

#[test]
fn empty_text_and_blob_collect_as_empty_values() {
    let row = row_of(vec![
        (SQLITE_TEXT, Some(Value::Text(String::new()))),
        (4, Some(Value::Blob(vec![]))),
    ]);
    let mut column = 0;
    assert_eq!(<Option<String>>::collect(&row, &mut column), Ok(Some(String::new())));
    let blob = <Option<Box<[u8]>>>::collect(&row, &mut column).unwrap().unwrap();
    assert!(blob.is_empty());
    assert_eq!(column, 2);
}

#[test]
fn a_collector_asks_for_what_the_row_lacks() {
    let mut row = Row::new();
    let mut column = 0;
    assert_eq!(
        <(i32, String)>::collect(&row, &mut column),
        Err(Request::Column { column: 0, kind: Kind::Int })
    );
    assert!(row.put(&Request::Column { column: 0, kind: Kind::Int }, Reply::Value(Value::Int(1))));
    let mut column = 0;
    assert_eq!(
        <(i32, String)>::collect(&row, &mut column),
        Err(Request::Column { column: 1, kind: Kind::Text })
    );
    let text = Reply::Value(Value::Text("x".to_owned()));
    assert!(row.put(&Request::Column { column: 1, kind: Kind::Text }, text));
    let mut column = 0;
    assert_eq!(<(i32, String)>::collect(&row, &mut column), Ok((1, "x".to_owned())));
    assert_eq!(column, 2);
}

#[test]
fn each_kind_is_asked_for_by_its_type() {
    let row = Row::new();
    let ask = |kind| Request::Column { column: 3, kind };
    let mut column = 3;
    assert_eq!(i32::collect(&row, &mut column), Err(ask(Kind::Int)));
    assert_eq!(i64::collect(&row, &mut column), Err(ask(Kind::Int64)));
    assert_eq!(Double::collect(&row, &mut column), Err(ask(Kind::Double)));
    assert_eq!(String::collect(&row, &mut column), Err(ask(Kind::Text)));
    assert_eq!(<Box<[u8]>>::collect(&row, &mut column), Err(ask(Kind::Blob)));
    assert_eq!(<Option<i32>>::collect(&row, &mut column), Err(Request::ColumnType { column: 3 }));
    assert_eq!(column, 3);
}

#[test]
fn a_row_takes_only_answers() {
    let mut row = Row::new();
    let read_int = Request::Column { column: 0, kind: Kind::Int };
    assert!(!row.put(&read_int, Reply::Code(5)));
    assert!(!row.put(&read_int, Reply::Value(Value::Text("1".to_owned()))));
    assert!(!row.put(&read_int, Reply::Value(Value::Null)));
    assert!(!row.put(&Request::ColumnType { column: 0 }, Reply::Value(Value::Int(5))));
    assert!(!row.put(&Request::ColumnType { column: -1 }, Reply::Code(5)));
    let before_first = Request::Column { column: -1, kind: Kind::Int };
    assert!(!row.put(&before_first, Reply::Value(Value::Int(1))));
    assert!(!row.put(&Request::Step, Reply::Code(100)));
    assert_eq!(row.class(0), None);
    assert_eq!(row.value(0), None);
    assert!(row.put(&read_int, Reply::Value(Value::Int(1))));
    assert_eq!(row.value(0), Some(&Value::Int(1)));
    assert_eq!(row.value(1), None);
    assert_eq!(row.value(-1), None);
    assert!(row.put(&Request::ColumnType { column: 2 }, Reply::Code(SQLITE_TEXT)));
    assert_eq!(row.class(2), Some(SQLITE_TEXT));
    assert_eq!(row.class(1), None);
    assert_eq!(row.class(-1), None);
}

#[test]
fn a_null_column_collects_as_none() {
    let row = row_of(vec![(SQLITE_NULL, None), (SQLITE_INTEGER, Some(Value::Int(20)))]);
    let mut column = 0;
    let collected = <(Option<String>, i32)>::collect(&row, &mut column);
    assert_eq!(collected, Ok((None, 20)));
    assert_eq!(column, 2);
}

#[test]
fn a_column_with_a_value_collects_as_some_of_the_direct_collection() {
    let row = row_of(vec![(SQLITE_TEXT, Some(Value::Text("amin".to_owned())))]);
    let mut direct = 0;
    let mut optional = 0;
    let value = String::collect(&row, &mut direct).unwrap();
    assert_eq!(<Option<String>>::collect(&row, &mut optional), Ok(Some(value)));
    assert_eq!(direct, optional);
}

#[test]
fn an_optional_tuple_is_absent_where_its_first_column_is_null() {
    let row = row_of(vec![(SQLITE_NULL, None), (SQLITE_INTEGER, Some(Value::Int(3)))]);
    let mut column = 0;
    assert_eq!(<(Option<(i32, i32)>, i32)>::collect(&row, &mut column), Ok((None, 3)));
    assert_eq!(column, 2);
    let row = row_of(vec![
        (SQLITE_INTEGER, Some(Value::Int(1))),
        (SQLITE_INTEGER, Some(Value::Int(2))),
        (SQLITE_INTEGER, Some(Value::Int(3))),
    ]);
    let mut column = 0;
    assert_eq!(<(Option<(i32, i32)>, i32)>::collect(&row, &mut column), Ok((Some((1, 2)), 3)));
    assert_eq!(column, 3);
}

#[test]
fn the_unit_type_takes_no_column() {
    let row = Row::new();
    let mut column = 5;
    assert_eq!(<()>::collect(&row, &mut column), Ok(()));
    assert_eq!(column, 5);
    assert_eq!(<()>::columns_needed(), 0);
}

#[test]
fn columns_needed_counts_the_columns_of_a_type() {
    assert_eq!(i32::columns_needed(), 1);
    assert_eq!(i64::columns_needed(), 1);
    assert_eq!(Double::columns_needed(), 1);
    assert_eq!(String::columns_needed(), 1);
    assert_eq!(<Box<[u8]>>::columns_needed(), 1);
    assert_eq!(<Option<String>>::columns_needed(), 1);
    assert_eq!(<(i32,)>::columns_needed(), 1);
    assert_eq!(<(i32, String, Double)>::columns_needed(), 3);
    assert_eq!(<Option<(i32, String)>>::columns_needed(), 2);
    assert_eq!(<((i32, i32), i32)>::columns_needed(), 3);
    type Thirteen = (i32, i32, i32, i32, i32, i32, i32, i32, i32, i32, i32, i32, i32);
    assert_eq!(<Thirteen>::columns_needed(), 13);
}

#[test]
fn a_tuple_of_thirteen_collects_in_the_order_of_the_columns() {
    let cells = (1..=13).map(|v| (SQLITE_INTEGER, Some(Value::Int(v)))).collect();
    let row = row_of(cells);
    let mut column = 0;
    type Thirteen = (i32, i32, i32, i32, i32, i32, i32, i32, i32, i32, i32, i32, i32);
    let (a, b, c, d, e, f, g, h, i, j, k, l, m) = match <Thirteen>::collect(&row, &mut column) {
        Ok(collected) => collected,
        Err(request) => panic!("the row lacks {:?}", request),
    };
    let collected = [a, b, c, d, e, f, g, h, i, j, k, l, m];
    assert_eq!(collected, [1, 2, 3, 4, 5, 6, 7, 8, 9, 10, 11, 12, 13]);
    assert_eq!(column, 13);
}

#[test]
fn a_step_with_a_row_collects_it() {
    let row = row_of(vec![(SQLITE_INTEGER, Some(Value::Int(2)))]);
    assert_eq!(i32::step_and_collect(SQLITE_ROW, &row), Ok(Ok(2)));
    assert_eq!(<Option<i32>>::step_and_collect(SQLITE_ROW, &row), Ok(Ok(Some(2))));
    assert_eq!(
        String::step_and_collect(SQLITE_ROW, &row),
        Err(Request::Column { column: 0, kind: Kind::Text })
    );
}

#[test]
fn a_step_without_a_row_is_none_or_not_found() {
    let row = Row::new();
    assert_eq!(<Option<i32>>::step_and_collect(SQLITE_DONE, &row), Ok(Ok(None)));
    assert_eq!(<Option<(i32, String)>>::step_and_collect(SQLITE_DONE, &row), Ok(Ok(None)));
    assert_eq!(i32::step_and_collect(SQLITE_DONE, &row), Ok(Err(RsqliteError::Notfound)));
    assert_eq!(i64::step_and_collect(SQLITE_DONE, &row), Ok(Err(RsqliteError::Notfound)));
    assert_eq!(Double::step_and_collect(SQLITE_DONE, &row), Ok(Err(RsqliteError::Notfound)));
    assert_eq!(String::step_and_collect(SQLITE_DONE, &row), Ok(Err(RsqliteError::Notfound)));
    assert_eq!(<Box<[u8]>>::step_and_collect(SQLITE_DONE, &row), Ok(Err(RsqliteError::Notfound)));
    assert_eq!(<()>::step_and_collect(SQLITE_DONE, &row), Ok(Err(RsqliteError::Notfound)));
    assert_eq!(<(i32, i32)>::step_and_collect(SQLITE_DONE, &row), Ok(Err(RsqliteError::Notfound)));
}

#[test]
fn a_step_that_failed_is_its_error() {
    let row = Row::new();
    assert_eq!(i32::step_and_collect(5, &row), Ok(Err(RsqliteError::Busy)));
    assert_eq!(<Option<i32>>::step_and_collect(5, &row), Ok(Err(RsqliteError::Busy)));
    assert_eq!(<(i32, i32)>::step_and_collect(19, &row), Ok(Err(RsqliteError::Constraint)));
}

#[test]
fn bound_values_collect_again_as_themselves() {
    let weight = Double::from_bits(61.0f64.to_bits());
    let bytes: &[u8] = &[0, 255, 7];
    let params = bound((26, 1i64 << 40, weight, "negar", bytes));
    let classes = [SQLITE_INTEGER, SQLITE_INTEGER, 2, SQLITE_TEXT, 4];
    let cells = params.into_iter().zip(classes).map(|(p, class)| (class, Some(p.value))).collect();
    let row = row_of(cells);
    let mut column = 0;
    let collected = <(i32, i64, Double, String, Box<[u8]>)>::collect(&row, &mut column).unwrap();
    assert_eq!(collected.0, 26);
    assert_eq!(collected.1, 1i64 << 40);
    assert_eq!(f64::from_bits(collected.2.to_bits()), 61.0);
    assert_eq!(collected.3, "negar");
    assert_eq!(collected.4.as_ref(), bytes);
    assert_eq!(column, 5);
}

#[test]
fn a_callback_is_called_with_the_values_of_a_row() {
    let mut users = vec![];
    let mut visit = |name: String, age: i32| users.push((name, age));
    visit.iterate(("amin".to_owned(), 29));
    visit.iterate(("negar".to_owned(), 26));
    assert_eq!(users, vec![("amin".to_owned(), 29), ("negar".to_owned(), 26)]);

    let mut sum = 0;
    let mut add = |x: i32| sum += x;
    add.iterate((2,));
    add.iterate((3,));
    assert_eq!(sum, 5);

    let mut twelve = |a: i32, b: i32, c: i32, d: i32, e: i32, f: i32, g: i32, h: i32, i: i32,
                      j: i32, k: i32, l: i32| a + b + c + d + e + f + g + h + i + j + k + l;
    assert_eq!(twelve.iterate((1, 2, 3, 4, 5, 6, 7, 8, 9, 10, 11, 12)), 78);
}

#[test]
fn text_gets_its_terminating_zero() {
    assert_eq!(c_string(":memory:"), Ok(b":memory:\0".to_vec()));
    assert_eq!(c_string(""), Ok(vec![0]));
    assert_eq!(c_string("é"), Ok(vec![0xc3, 0xa9, 0]));
}

#[test]
fn text_with_a_zero_byte_is_refused_at_the_first_of_them() {
    assert_eq!(c_string("\0"), Err(RsqliteError::InvalidCString(0)));
    assert_eq!(c_string("select\0 1\0"), Err(RsqliteError::InvalidCString(6)));
    assert_eq!(c_string("é\0"), Err(RsqliteError::InvalidCString(2)));
}

#[test]
fn values_know_their_kind() {
    assert_eq!(Value::Null.kind(), None);
    assert_eq!(Value::Int(1).kind(), Some(Kind::Int));
    assert_eq!(Value::Int64(1).kind(), Some(Kind::Int64));
    assert_eq!(Value::Double(Double::from_bits(0)).kind(), Some(Kind::Double));
    assert_eq!(Value::Text(String::new()).kind(), Some(Kind::Text));
    assert_eq!(Value::Blob(vec![]).kind(), Some(Kind::Blob));
    assert_eq!(Double::from_bits(7).to_bits(), 7);
}
