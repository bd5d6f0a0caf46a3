use rsqlite::codes::{
    SQLITE_BLOB, SQLITE_DONE, SQLITE_FLOAT, SQLITE_INTEGER, SQLITE_NULL, SQLITE_OK, SQLITE_RANGE,
    SQLITE_ROW, SQLITE_TEXT,
};
use rsqlite::{
    Bindable, Collectable, Database, Double, Iterable, Kind, Progress, Reply, Request,
    RsqliteError, Statement, Value,
};

/// What a column of the stand-in engine holds.
#[derive(Clone, Debug, PartialEq)]
enum Cell {
    Null,
    Integer(i64),
    Float(f64),
    Text(String),
    Blob(Vec<u8>),
}

impl Cell {
    fn of(value: &Value) -> Cell {
        match value {
            Value::Null => Cell::Null,
            Value::Int(v) => Cell::Integer(*v as i64),
            Value::Int64(v) => Cell::Integer(*v),
            Value::Double(v) => Cell::Float(f64::from_bits(v.to_bits())),
            Value::Text(v) => Cell::Text(v.clone()),
            Value::Blob(v) => Cell::Blob(v.clone()),
        }
    }

    fn class(&self) -> i32 {
        match self {
            Cell::Null => SQLITE_NULL,
            Cell::Integer(_) => SQLITE_INTEGER,
            Cell::Float(_) => SQLITE_FLOAT,
            Cell::Text(_) => SQLITE_TEXT,
            Cell::Blob(_) => SQLITE_BLOB,
        }
    }

    fn text(&self) -> String {
        match self {
            Cell::Null => String::new(),
            Cell::Integer(v) => format!("{}", v),
            Cell::Float(v) => format!("{:?}", v),
            Cell::Text(v) => v.clone(),
            Cell::Blob(v) => String::from_utf8_lossy(v).into_owned(),
        }
    }

    fn integer(&self) -> i64 {
        match self {
            Cell::Null => 0,
            Cell::Integer(v) => *v,
            Cell::Float(v) => *v as i64,
            Cell::Text(_) | Cell::Blob(_) => self.text().trim().parse().unwrap_or(0),
        }
    }

    fn float(&self) -> f64 {
        match self {
            Cell::Null => 0.0,
            Cell::Integer(v) => *v as f64,
            Cell::Float(v) => *v,
            Cell::Text(_) | Cell::Blob(_) => self.text().trim().parse().unwrap_or(0.0),
        }
    }

    fn read(&self, kind: Kind) -> Value {
        match kind {
            Kind::Int => Value::Int(self.integer() as i32),
            Kind::Int64 => Value::Int64(self.integer()),
            Kind::Double => Value::Double(Double::from_bits(self.float().to_bits())),
            Kind::Text => Value::Text(self.text()),
            Kind::Blob => Value::Blob(match self {
                Cell::Blob(v) => v.clone(),
                other => other.text().into_bytes(),
            }),
        }
    }
}

/// An engine that stands in for SQLite: it knows one table, `user`, and the
/// handful of statements that the tests prepare.
struct Engine {
    users: Vec<(Cell, Cell, Cell)>,
    sql: String,
    bound: Vec<Cell>,
    pending: Vec<Vec<Cell>>,
    current: Option<Vec<Cell>>,
    stepped: bool,
    failing_step: Option<i32>,
    log: Vec<Request>,
}

const CREATE: &str = "create table user (age int, name text, weight real)";
const INSERT: &str = "insert into user(age, name, weight) values(?, ?, ?)";
const INSERT_NAME_AGE: &str = "insert into user(name, age) values (?,?)";
const COUNT: &str = "select count(*) from user";
const BY_NAME: &str = "select age, name, weight from user where name = ?";
const OLDER: &str = "select name, age, weight from user where age > ?";
const ALL: &str = "select age, name, weight from user";
const NAME_AGE: &str = "select name, age from user limit 1";
const NAME_BY_AGE: &str = "select name from user where age = ?";

fn placeholders(sql: &str) -> usize {
    sql.bytes().filter(|b| *b == b'?').count()
}

fn echo_of(sql: &str) -> bool {
    sql.starts_with("select ?")
}

impl Engine {
    fn new() -> Engine {
        Engine {
            users: vec![],
            sql: String::new(),
            bound: vec![],
            pending: vec![],
            current: None,
            stepped: false,
            failing_step: None,
            log: vec![],
        }
    }

    fn column_count(&self) -> i32 {
        match self.sql.as_str() {
            COUNT | NAME_BY_AGE => 1,
            NAME_AGE => 2,
            BY_NAME | OLDER | ALL => 3,
            sql if echo_of(sql) => placeholders(sql) as i32,
            _ => 0,
        }
    }

    fn run(&mut self) {
        let users = self.users.clone();
        let rows = |keep: &dyn Fn(&(Cell, Cell, Cell)) -> bool| -> Vec<(Cell, Cell, Cell)> {
            users.iter().filter(|u| keep(u)).cloned().collect()
        };
        self.pending = match self.sql.as_str() {
            INSERT => {
                let user = (self.bound[0].clone(), self.bound[1].clone(), self.bound[2].clone());
                self.users.push(user);
                vec![]
            }
            INSERT_NAME_AGE => {
                self.users.push((self.bound[1].clone(), self.bound[0].clone(), Cell::Null));
                vec![]
            }
            COUNT => vec![vec![Cell::Integer(self.users.len() as i64)]],
            BY_NAME => rows(&|u| u.1 == self.bound[0])
                .into_iter()
                .map(|u| vec![u.0, u.1, u.2])
                .collect(),
            OLDER => rows(&|u| u.0.integer() > self.bound[0].integer())
                .into_iter()
                .map(|u| vec![u.1, u.0, u.2])
                .collect(),
            ALL => rows(&|_| true).into_iter().map(|u| vec![u.0, u.1, u.2]).collect(),
            NAME_AGE => rows(&|_| true).into_iter().take(1).map(|u| vec![u.1, u.0]).collect(),
            NAME_BY_AGE => rows(&|u| u.0.integer() == self.bound[0].integer())
                .into_iter()
                .map(|u| vec![u.1])
                .collect(),
            sql if echo_of(sql) => vec![self.bound.clone()],
            _ => vec![],
        };
        self.pending.reverse();
    }

    fn perform(&mut self, request: Request) -> Reply {
        self.log.push(request.clone());
        match request {
            Request::Open { path, .. } => {
                assert_eq!(path.last(), Some(&0));
                Reply::Code(if path.starts_with(b"/nowhere/") { 14 } else { SQLITE_OK })
            }
            Request::Close | Request::Finalize => Reply::Code(SQLITE_OK),
            Request::Prepare { sql } => {
                assert_eq!(sql.last(), Some(&0));
                let text = String::from_utf8(sql[..sql.len() - 1].to_vec()).unwrap();
                if text.starts_with("selec ") {
                    return Reply::Code(1);
                }
                self.bound = vec![Cell::Null; placeholders(&text)];
                self.sql = text;
                self.stepped = false;
                self.current = None;
                Reply::Code(SQLITE_OK)
            }
            Request::ColumnCount => Reply::Code(self.column_count()),
            Request::Bind { position, value } => {
                if position < 1 || position as usize > self.bound.len() {
                    return Reply::Code(SQLITE_RANGE);
                }
                self.bound[position as usize - 1] = Cell::of(&value);
                Reply::Code(SQLITE_OK)
            }
            Request::Step => {
                if let Some(code) = self.failing_step {
                    return Reply::Code(code);
                }
                if !self.stepped {
                    self.stepped = true;
                    self.run();
                }
                self.current = self.pending.pop();
                Reply::Code(if self.current.is_some() { SQLITE_ROW } else { SQLITE_DONE })
            }
            Request::Reset => {
                self.stepped = false;
                self.current = None;
                Reply::Code(SQLITE_OK)
            }
            Request::ColumnType { column } => {
                Reply::Code(self.current.as_ref().unwrap()[column as usize].class())
            }
            Request::Column { column, kind } => {
                Reply::Value(self.current.as_ref().unwrap()[column as usize].read(kind))
            }
        }
    }

    fn count(&self, wanted: &Request) -> usize {
        self.log.iter().filter(|r| *r == wanted).count()
    }
}

fn open(engine: &mut Engine, path: &str) -> Result<Database, RsqliteError> {
    let mut opening = Database::open(path)?;
    let mut reply = None;
    loop {
        match opening.advance(reply) {
            Progress::Ask(request) => reply = Some(engine.perform(request)),
            Progress::Done(result) => return result,
        }
    }
}

fn prepare<'a>(
    engine: &mut Engine,
    database: &'a Database,
    sql: &str,
) -> Result<Statement<'a>, RsqliteError> {
    let mut preparing = database.prepare(sql)?;
    let mut reply = None;
    loop {
        match preparing.advance(reply) {
            Progress::Ask(request) => reply = Some(engine.perform(request)),
            Progress::Done(result) => return result,
        }
    }
}

fn execute(
    engine: &mut Engine,
    statement: &mut Statement,
    params: impl Bindable,
) -> Result<(), RsqliteError> {
    let mut execution = statement.execute(params)?;
    let mut reply = None;
    loop {
        match execution.advance(reply) {
            Progress::Ask(request) => reply = Some(engine.perform(request)),
            Progress::Done(result) => return result,
        }
    }
}

fn collect<R: Collectable>(
    engine: &mut Engine,
    statement: &mut Statement,
    params: impl Bindable,
) -> Result<R, RsqliteError> {
    let mut collection = statement.collect::<R, _>(params)?;
    let mut reply = None;
    loop {
        match collection.advance(reply) {
            Progress::Ask(request) => reply = Some(engine.perform(request)),
            Progress::Done(result) => return result,
        }
    }
}

fn for_each<T: Collectable>(
    engine: &mut Engine,
    statement: &mut Statement,
    params: impl Bindable,
    mut iterable: impl Iterable<(), T>,
) -> Result<(), RsqliteError> {
    let mut visiting = statement.for_each::<T, _>(params)?;
    let mut reply = None;
    loop {
        let visit = visiting.advance(reply);
        if let Some(row) = visit.row {
            iterable.iterate(row);
        }
        match visit.next {
            Progress::Ask(request) => reply = Some(engine.perform(request)),
            Progress::Done(result) => return result,
        }
    }
}

fn run(engine: &mut Engine, database: &Database, sql: &str, params: impl Bindable) {
    let mut execution = database.execute(sql, params).unwrap();
    let mut reply = None;
    loop {
        match execution.advance(reply) {
            Progress::Ask(request) => reply = Some(engine.perform(request)),
            Progress::Done(result) => return result.unwrap(),
        }
    }
}

fn collect_once<R: Collectable>(
    engine: &mut Engine,
    database: &Database,
    sql: &str,
    params: impl Bindable,
) -> Result<R, RsqliteError> {
    let mut collection = database.collect::<R, _>(sql, params)?;
    let mut reply = None;
    loop {
        match collection.advance(reply) {
            Progress::Ask(request) => reply = Some(engine.perform(request)),
            Progress::Done(result) => return result,
        }
    }
}

fn for_each_once<T: Collectable>(
    engine: &mut Engine,
    database: &Database,
    sql: &str,
    params: impl Bindable,
    mut iterable: impl Iterable<(), T>,
) -> Result<(), RsqliteError> {
    let mut visiting = database.for_each::<T, _>(sql, params)?;
    let mut reply = None;
    loop {
        let visit = visiting.advance(reply);
        if let Some(row) = visit.row {
            iterable.iterate(row);
        }
        match visit.next {
            Progress::Ask(request) => reply = Some(engine.perform(request)),
            Progress::Done(result) => return result,
        }
    }
}

fn terminated(sql: &str) -> Vec<u8> {
    let mut bytes = sql.as_bytes().to_vec();
    bytes.push(0);
    bytes
}

fn double(value: f64) -> Double {
    Double::from_bits(value.to_bits())
}

fn two_users(engine: &mut Engine) -> Database {
    let database = open(engine, ":memory:").unwrap();
    run(engine, &database, CREATE, ());
    run(engine, &database, INSERT, (29, "amin", double(69.5)));
    let name = String::from("negar");
    run(engine, &database, INSERT, (26, name.as_str(), double(61.0)));
    engine.log.clear();
    database
}

#[test]
fn test_can_open_db() {
    let mut engine = Engine::new();
    let _database = open(&mut engine, ":memory:").unwrap();
    assert_eq!(engine.log, vec![Request::Open { path: b":memory:\0".to_vec(), flags: 6 }]);
}

#[test]
fn opening_asks_for_the_given_flags() {
    let mut opening = Database::open_with_flags("dbfile.db", 1).unwrap();
    assert_eq!(
        opening.advance(None),
        Progress::Ask(Request::Open { path: b"dbfile.db\0".to_vec(), flags: 1 })
    );
    assert!(matches!(opening.advance(Some(Reply::Code(SQLITE_OK))), Progress::Done(Ok(_))));
    assert!(matches!(opening.advance(None), Progress::Done(Err(RsqliteError::Misuse))));
}

#[test]
fn a_path_with_a_zero_byte_is_refused_before_the_engine_is_asked() {
    let mut engine = Engine::new();
    assert!(matches!(open(&mut engine, "db\0file"), Err(RsqliteError::InvalidCString(2))));
    assert!(matches!(
        Database::open_with_flags("\0", 2),
        Err(RsqliteError::InvalidCString(0))
    ));
    assert!(engine.log.is_empty());
}

#[test]
fn a_failed_opening_closes_what_is_left_and_gives_the_error() {
    let mut engine = Engine::new();
    assert!(matches!(open(&mut engine, "/nowhere/db"), Err(RsqliteError::CantOpen)));
    assert_eq!(
        engine.log,
        vec![Request::Open { path: b"/nowhere/db\0".to_vec(), flags: 6 }, Request::Close]
    );
}

#[test]
fn an_opening_answered_out_of_turn_is_a_misuse() {
    let mut opening = Database::open(":memory:").unwrap();
    assert!(matches!(
        opening.advance(Some(Reply::Code(0))),
        Progress::Done(Err(RsqliteError::Misuse))
    ));
    let mut opening = Database::open(":memory:").unwrap();
    opening.advance(None);
    assert_eq!(opening.advance(Some(Reply::Value(Value::Int(0)))), Progress::Ask(Request::Close));
    assert!(matches!(
        opening.advance(Some(Reply::Code(0))),
        Progress::Done(Err(RsqliteError::Misuse))
    ));
}

#[test]
fn closing_and_finalizing_are_single_calls() {
    let mut engine = Engine::new();
    let database = open(&mut engine, ":memory:").unwrap();
    let statement = prepare(&mut engine, &database, COUNT).unwrap();
    assert_eq!(statement.finalize(), Request::Finalize);
    assert_eq!(database.close(), Request::Close);
}

#[test]
fn preparing_compiles_and_counts_the_columns_once() {
    let mut engine = Engine::new();
    let database = open(&mut engine, ":memory:").unwrap();
    engine.log.clear();
    let statement = prepare(&mut engine, &database, BY_NAME).unwrap();
    assert_eq!(statement.column_count(), 3);
    let mut sql = BY_NAME.as_bytes().to_vec();
    sql.push(0);
    assert_eq!(engine.log, vec![Request::Prepare { sql }, Request::ColumnCount]);
}

#[test]
fn a_failed_preparing_releases_the_statement_at_once() {
    let mut engine = Engine::new();
    let database = open(&mut engine, ":memory:").unwrap();
    engine.log.clear();
    assert!(matches!(prepare(&mut engine, &database, "selec 1"), Err(RsqliteError::Error)));
    assert_eq!(
        engine.log,
        vec![Request::Prepare { sql: b"selec 1\0".to_vec() }, Request::Finalize]
    );
}

#[test]
fn a_statement_with_a_zero_byte_is_refused_before_the_engine_is_asked() {
    let mut engine = Engine::new();
    let database = open(&mut engine, ":memory:").unwrap();
    engine.log.clear();
    assert!(matches!(
        prepare(&mut engine, &database, "select 1\0"),
        Err(RsqliteError::InvalidCString(8))
    ));
    assert!(engine.log.is_empty());
}

#[test]
fn a_preparing_answered_out_of_turn_is_a_misuse() {
    let mut engine = Engine::new();
    let database = open(&mut engine, ":memory:").unwrap();
    let mut preparing = database.prepare(COUNT).unwrap();
    preparing.advance(None);
    let compiled = preparing.advance(Some(Reply::Code(SQLITE_OK)));
    assert_eq!(compiled, Progress::Ask(Request::ColumnCount));
    assert_eq!(preparing.advance(None), Progress::Ask(Request::Finalize));
    assert!(matches!(
        preparing.advance(Some(Reply::Code(SQLITE_OK))),
        Progress::Done(Err(RsqliteError::Misuse))
    ));
    let mut preparing = database.prepare(COUNT).unwrap();
    assert!(matches!(
        preparing.advance(Some(Reply::Code(SQLITE_OK))),
        Progress::Done(Err(RsqliteError::Misuse))
    ));
}

#[test]
fn executing_binds_steps_once_and_resets() {
    let mut engine = Engine::new();
    let database = open(&mut engine, ":memory:").unwrap();
    let mut statement = prepare(&mut engine, &database, INSERT).unwrap();
    engine.log.clear();
    assert_eq!(execute(&mut engine, &mut statement, (29, "amin", double(69.5))), Ok(()));
    assert_eq!(
        engine.log,
        vec![
            Request::Bind { position: 1, value: Value::Int(29) },
            Request::Bind { position: 2, value: Value::Text("amin".to_owned()) },
            Request::Bind { position: 3, value: Value::Double(double(69.5)) },
            Request::Step,
            Request::Reset,
        ]
    );
    assert_eq!(engine.users.len(), 1);
}

#[test]
fn a_statement_is_used_again_after_its_reset() {
    let mut engine = Engine::new();
    let database = open(&mut engine, ":memory:").unwrap();
    let mut statement = prepare(&mut engine, &database, INSERT_NAME_AGE).unwrap();
    for age in 0..10 {
        let name = format!("user-{}", age);
        execute(&mut engine, &mut statement, (name.as_str(), age)).unwrap();
    }
    let mut ages = prepare(&mut engine, &database, COUNT).unwrap();
    assert_eq!(collect::<i32>(&mut engine, &mut ages, ()), Ok(10));
}

#[test]
fn executing_a_statement_that_gives_a_row_is_an_error() {
    let mut engine = Engine::new();
    let database = two_users(&mut engine);
    let mut statement = prepare(&mut engine, &database, COUNT).unwrap();
    engine.log.clear();
    assert_eq!(
        execute(&mut engine, &mut statement, ()),
        Err(RsqliteError::Unknown(SQLITE_ROW))
    );
    assert_eq!(engine.log, vec![Request::Step, Request::Reset]);
}

#[test]
fn a_failed_step_is_its_error_after_a_reset() {
    let mut engine = Engine::new();
    let database = two_users(&mut engine);
    let mut statement = prepare(&mut engine, &database, ALL).unwrap();
    engine.failing_step = Some(5);
    engine.log.clear();
    assert_eq!(execute(&mut engine, &mut statement, ()), Err(RsqliteError::Busy));
    assert_eq!(engine.log, vec![Request::Step, Request::Reset]);
    engine.log.clear();
    assert_eq!(
        collect::<(i32, String, Double)>(&mut engine, &mut statement, ()),
        Err(RsqliteError::Busy)
    );
    assert_eq!(engine.log, vec![Request::Step, Request::Reset]);
    engine.log.clear();
    let visited = for_each(&mut engine, &mut statement, (), |_: i32, _: String, _: Double| {});
    assert_eq!(visited, Err(RsqliteError::Busy));
    assert_eq!(engine.log, vec![Request::Step, Request::Reset]);
}

#[test]
fn a_refused_parameter_ends_the_binding() {
    let mut engine = Engine::new();
    let database = open(&mut engine, ":memory:").unwrap();
    let mut statement = prepare(&mut engine, &database, COUNT).unwrap();
    engine.log.clear();
    assert_eq!(execute(&mut engine, &mut statement, (1, 2, 3)), Err(RsqliteError::Range));
    assert_eq!(engine.log, vec![Request::Bind { position: 1, value: Value::Int(1) }]);
    engine.log.clear();
    assert_eq!(collect::<i32>(&mut engine, &mut statement, (1, 2)), Err(RsqliteError::Range));
    assert_eq!(engine.log, vec![Request::Bind { position: 1, value: Value::Int(1) }]);
    engine.log.clear();
    assert_eq!(
        for_each(&mut engine, &mut statement, (1, 2), |_: i32| {}),
        Err(RsqliteError::Range)
    );
    assert_eq!(engine.log, vec![Request::Bind { position: 1, value: Value::Int(1) }]);
}

#[test]
fn an_execution_answered_out_of_turn_is_a_misuse() {
    let mut engine = Engine::new();
    let database = open(&mut engine, ":memory:").unwrap();
    let mut statement = prepare(&mut engine, &database, INSERT).unwrap();
    let mut execution = statement.execute((1,)).unwrap();
    assert_eq!(execution.advance(Some(Reply::Code(0))), Progress::Done(Err(RsqliteError::Misuse)));
    let mut execution = statement.execute((1,)).unwrap();
    execution.advance(None);
    assert_eq!(
        execution.advance(Some(Reply::Value(Value::Int(0)))),
        Progress::Done(Err(RsqliteError::Misuse))
    );
    assert_eq!(execution.advance(None), Progress::Done(Err(RsqliteError::Misuse)));
    let mut execution = statement.execute(()).unwrap();
    assert_eq!(execution.advance(None), Progress::Ask(Request::Step));
    assert_eq!(execution.advance(None), Progress::Ask(Request::Reset));
    assert_eq!(execution.advance(None), Progress::Done(Err(RsqliteError::Misuse)));
}

#[test]
fn the_count_of_two_inserted_rows_is_two() {
    let mut engine = Engine::new();
    let database = two_users(&mut engine);
    let mut statement = prepare(&mut engine, &database, COUNT).unwrap();
    engine.log.clear();
    let count: i32 = collect(&mut engine, &mut statement, ()).unwrap();
    assert_eq!(count, 2);
    assert_eq!(
        engine.log,
        vec![Request::Step, Request::Column { column: 0, kind: Kind::Int }, Request::Reset]
    );
    let text: String = collect(&mut engine, &mut statement, ()).unwrap();
    assert_eq!(text, "2");
    let wide: i64 = collect(&mut engine, &mut statement, ()).unwrap();
    assert_eq!(wide, 2);
}

#[test]
fn a_row_is_collected_by_a_text_parameter() {
    let mut engine = Engine::new();
    let database = two_users(&mut engine);
    let mut statement = prepare(&mut engine, &database, BY_NAME).unwrap();
    engine.log.clear();
    let amin: (i32, String, Double) = collect(&mut engine, &mut statement, "amin").unwrap();
    assert_eq!(amin.0, 29);
    assert_eq!(amin.1, "amin");
    assert_eq!(f64::from_bits(amin.2.to_bits()), 69.5);
    assert_eq!(
        engine.log,
        vec![
            Request::Bind { position: 1, value: Value::Text("amin".to_owned()) },
            Request::Step,
            Request::Column { column: 0, kind: Kind::Int },
            Request::Column { column: 1, kind: Kind::Text },
            Request::Column { column: 2, kind: Kind::Double },
            Request::Reset,
        ]
    );
}

#[test]
fn all_rows_are_visited_in_the_order_of_insertion() {
    let mut engine = Engine::new();
    let database = two_users(&mut engine);
    let mut statement = prepare(&mut engine, &database, ALL).unwrap();
    let mut users = vec![];
    let callback = |age: i32, name: String, weight: Double| {
        users.push((age, name, f64::from_bits(weight.to_bits())));
    };
    let visited = for_each(&mut engine, &mut statement, (), callback);
    assert_eq!(visited, Ok(()));
    assert_eq!(users, vec![(29, "amin".to_owned(), 69.5), (26, "negar".to_owned(), 61.0)]);
    assert_eq!(engine.count(&Request::Step), 3);
    assert_eq!(engine.count(&Request::Reset), 1);
    assert_eq!(engine.log.last(), Some(&Request::Reset));
}

#[test]
fn rows_are_visited_on_a_condition() {
    let mut engine = Engine::new();
    let database = two_users(&mut engine);
    let mut statement = prepare(&mut engine, &database, OLDER).unwrap();
    let mut users = vec![];
    let callback = |name: String, age: i32, weight: Double| {
        users.push((name, age, f64::from_bits(weight.to_bits())));
    };
    let visited = for_each(&mut engine, &mut statement, 27, callback);
    assert_eq!(visited, Ok(()));
    assert_eq!(users, vec![("amin".to_owned(), 29, 69.5)]);
}

#[test]
fn a_visit_calls_back_once_for_each_row() {
    let mut engine = Engine::new();
    let database = open(&mut engine, ":memory:").unwrap();
    run(&mut engine, &database, CREATE, ());
    for age in 0..25 {
        run(&mut engine, &database, INSERT, (age, "someone", double(1.0)));
    }
    let mut statement = prepare(&mut engine, &database, ALL).unwrap();
    engine.log.clear();
    let mut ages = vec![];
    let visited = for_each(&mut engine, &mut statement, (), |age: i32| ages.push(age));
    assert_eq!(visited, Ok(()));
    assert_eq!(ages, (0..25).collect::<Vec<i32>>());
    assert_eq!(engine.count(&Request::Step), 26);
}

#[test]
fn a_visit_of_no_rows_calls_nothing() {
    let mut engine = Engine::new();
    let database = two_users(&mut engine);
    let mut statement = prepare(&mut engine, &database, OLDER).unwrap();
    engine.log.clear();
    let mut calls = 0;
    let visited =
        for_each(&mut engine, &mut statement, 200, |_: String, _: i32, _: Double| calls += 1);
    assert_eq!(visited, Ok(()));
    assert_eq!(calls, 0);
    assert_eq!(
        engine.log,
        vec![Request::Bind { position: 1, value: Value::Int(200) }, Request::Step, Request::Reset]
    );
}

#[test]
fn a_visit_hands_each_row_out_as_the_reply_completes_it() {
    let mut engine = Engine::new();
    let database = two_users(&mut engine);
    let mut statement = prepare(&mut engine, &database, ALL).unwrap();
    let mut visiting = statement.for_each::<(i32, String), _>(()).unwrap();
    let visit = visiting.advance(None);
    assert_eq!((visit.row, visit.next), (None, Progress::Ask(Request::Step)));
    let visit = visiting.advance(Some(Reply::Code(SQLITE_ROW)));
    assert_eq!(visit.row, None);
    assert_eq!(visit.next, Progress::Ask(Request::Column { column: 0, kind: Kind::Int }));
    let visit = visiting.advance(Some(Reply::Value(Value::Int(29))));
    assert_eq!(visit.row, None);
    assert_eq!(visit.next, Progress::Ask(Request::Column { column: 1, kind: Kind::Text }));
    let visit = visiting.advance(Some(Reply::Value(Value::Text("amin".to_owned()))));
    assert_eq!(visit.row, Some((29, "amin".to_owned())));
    assert_eq!(visit.next, Progress::Ask(Request::Step));
    let visit = visiting.advance(Some(Reply::Code(SQLITE_ROW)));
    assert_eq!(visit.row, None);
    assert_eq!(visit.next, Progress::Ask(Request::Column { column: 0, kind: Kind::Int }));
    let visit = visiting.advance(Some(Reply::Code(7)));
    assert_eq!((visit.row, visit.next), (None, Progress::Ask(Request::Reset)));
    let visit = visiting.advance(Some(Reply::Code(SQLITE_OK)));
    assert_eq!((visit.row, visit.next), (None, Progress::Done(Err(RsqliteError::Misuse))));
}

#[test]
fn null_and_a_value_are_collected_side_by_side() {
    let mut engine = Engine::new();
    let database = open(&mut engine, ":memory:").unwrap();
    run(&mut engine, &database, "create table user (name text, age int)", ());
    run(&mut engine, &database, INSERT_NAME_AGE, (None::<&str>, 20));
    let mut statement = prepare(&mut engine, &database, NAME_AGE).unwrap();
    engine.log.clear();
    let (name, age): (Option<String>, i32) = collect(&mut engine, &mut statement, ()).unwrap();
    assert_eq!((name, age), (None, 20));
    assert_eq!(
        engine.log,
        vec![
            Request::Step,
            Request::ColumnType { column: 0 },
            Request::Column { column: 1, kind: Kind::Int },
            Request::Reset,
        ]
    );
}

#[test]
fn a_null_column_is_zero_or_empty_where_it_is_not_optional() {
    let mut engine = Engine::new();
    let database = open(&mut engine, ":memory:").unwrap();
    run(&mut engine, &database, INSERT_NAME_AGE, (None::<&str>, None::<i32>));
    let mut statement = prepare(&mut engine, &database, NAME_AGE).unwrap();
    let (name, age): (String, i32) = collect(&mut engine, &mut statement, ()).unwrap();
    assert_eq!((name.as_str(), age), ("", 0));
}

#[test]
fn no_row_is_none_for_an_optional_type() {
    let mut engine = Engine::new();
    let database = two_users(&mut engine);
    let mut statement = prepare(&mut engine, &database, NAME_BY_AGE).unwrap();
    engine.log.clear();
    let name: Option<String> = collect(&mut engine, &mut statement, 200).unwrap();
    assert_eq!(name, None);
    assert_eq!(
        engine.log,
        vec![Request::Bind { position: 1, value: Value::Int(200) }, Request::Step, Request::Reset]
    );
    let name: Option<String> = collect(&mut engine, &mut statement, 29).unwrap();
    assert_eq!(name, Some("amin".to_owned()));
}

#[test]
fn no_row_is_not_found_for_any_other_type() {
    let mut engine = Engine::new();
    let database = two_users(&mut engine);
    let mut statement = prepare(&mut engine, &database, NAME_BY_AGE).unwrap();
    engine.log.clear();
    assert_eq!(collect::<String>(&mut engine, &mut statement, 200), Err(RsqliteError::Notfound));
    assert_eq!(engine.log.last(), Some(&Request::Reset));
    assert_eq!(collect::<i32>(&mut engine, &mut statement, 200), Err(RsqliteError::Notfound));
    assert_eq!(collect::<(i32,)>(&mut engine, &mut statement, 200), Err(RsqliteError::Notfound));
}

#[test]
fn a_shape_of_too_many_columns_is_a_range_error_and_nothing_is_asked() {
    let mut engine = Engine::new();
    let database = two_users(&mut engine);
    let mut statement = prepare(&mut engine, &database, COUNT).unwrap();
    engine.log.clear();
    assert_eq!(
        collect::<(i32, i32)>(&mut engine, &mut statement, ()),
        Err(RsqliteError::Range)
    );
    assert_eq!(
        collect::<Option<(i32, String)>>(&mut engine, &mut statement, ()),
        Err(RsqliteError::Range)
    );
    assert_eq!(
        for_each(&mut engine, &mut statement, (), |_: i32, _: i32| {}),
        Err(RsqliteError::Range)
    );
    assert!(engine.log.is_empty());
    let mut insert = prepare(&mut engine, &database, INSERT).unwrap();
    engine.log.clear();
    let refused = collect::<i32>(&mut engine, &mut insert, (1, "a", double(1.0)));
    assert_eq!(refused, Err(RsqliteError::Range));
    assert!(engine.log.is_empty());
    assert_eq!(engine.users.len(), 2);
}

#[test]
fn a_shape_of_fewer_columns_reads_the_first_of_them() {
    let mut engine = Engine::new();
    let database = two_users(&mut engine);
    let mut statement = prepare(&mut engine, &database, ALL).unwrap();
    assert_eq!(collect::<i32>(&mut engine, &mut statement, ()), Ok(29));
    assert_eq!(collect::<()>(&mut engine, &mut statement, ()), Ok(()));
}

#[test]
fn a_collection_answered_out_of_turn_is_a_misuse_after_a_reset() {
    let mut engine = Engine::new();
    let database = two_users(&mut engine);
    let mut statement = prepare(&mut engine, &database, COUNT).unwrap();
    let mut collection = statement.collect::<i32, _>(()).unwrap();
    assert_eq!(collection.advance(None), Progress::Ask(Request::Step));
    assert_eq!(
        collection.advance(Some(Reply::Code(SQLITE_ROW))),
        Progress::Ask(Request::Column { column: 0, kind: Kind::Int })
    );
    assert_eq!(
        collection.advance(Some(Reply::Value(Value::Text("2".to_owned())))),
        Progress::Ask(Request::Reset)
    );
    assert_eq!(
        collection.advance(Some(Reply::Code(SQLITE_OK))),
        Progress::Done(Err(RsqliteError::Misuse))
    );
    let mut collection = statement.collect::<i32, _>(()).unwrap();
    collection.advance(None);
    let stepped = collection.advance(Some(Reply::Value(Value::Int(1))));
    assert_eq!(stepped, Progress::Ask(Request::Reset));
    assert_eq!(collection.advance(None), Progress::Done(Err(RsqliteError::Misuse)));
}

#[test]
fn every_scalar_goes_round_through_the_engine() {
    let mut engine = Engine::new();
    let database = open(&mut engine, ":memory:").unwrap();
    let mut one = prepare(&mut engine, &database, "select ?").unwrap();
    assert_eq!(collect::<i32>(&mut engine, &mut one, i32::MIN), Ok(i32::MIN));
    assert_eq!(collect::<i64>(&mut engine, &mut one, i64::MAX), Ok(i64::MAX));
    let third = double(1.0 / 3.0);
    assert_eq!(collect::<Double>(&mut engine, &mut one, third), Ok(third));
    assert_eq!(collect::<String>(&mut engine, &mut one, "négar"), Ok("négar".to_owned()));
    let bytes: &[u8] = &[0, 159, 146, 150];
    let blob: Box<[u8]> = collect(&mut engine, &mut one, bytes).unwrap();
    assert_eq!(blob.as_ref(), bytes);
    assert_eq!(collect::<Option<i32>>(&mut engine, &mut one, None::<i32>), Ok(None));
    assert_eq!(collect::<Option<i32>>(&mut engine, &mut one, Some(3)), Ok(Some(3)));
}

#[test]
fn a_tuple_goes_round_in_the_order_of_its_elements() {
    let mut engine = Engine::new();
    let database = open(&mut engine, ":memory:").unwrap();
    let mut three = prepare(&mut engine, &database, "select ?, ?, ?").unwrap();
    let collected: (i32, String, Double) =
        collect(&mut engine, &mut three, (100, "hello", double(3.14))).unwrap();
    assert_eq!(collected, (100, "hello".to_owned(), double(3.14)));
    let swapped: (String, i32, String) =
        collect(&mut engine, &mut three, (100, "7", double(3.5))).unwrap();
    assert_eq!(swapped, ("100".to_owned(), 7, "3.5".to_owned()));
}

#[test]
fn executing_on_a_connection_prepares_and_releases_its_statement() {
    let mut engine = Engine::new();
    let database = open(&mut engine, ":memory:").unwrap();
    engine.log.clear();
    run(&mut engine, &database, INSERT, (29, "amin", double(69.5)));
    assert_eq!(
        engine.log,
        vec![
            Request::Prepare { sql: terminated(INSERT) },
            Request::ColumnCount,
            Request::Bind { position: 1, value: Value::Int(29) },
            Request::Bind { position: 2, value: Value::Text("amin".to_owned()) },
            Request::Bind { position: 3, value: Value::Double(double(69.5)) },
            Request::Step,
            Request::Reset,
            Request::Finalize,
        ]
    );
    assert_eq!(engine.users.len(), 1);
}

#[test]
fn collecting_on_a_connection_gives_the_row() {
    let mut engine = Engine::new();
    let database = two_users(&mut engine);
    let count: i32 = collect_once(&mut engine, &database, COUNT, ()).unwrap();
    assert_eq!(count, 2);
    assert_eq!(
        engine.log,
        vec![
            Request::Prepare { sql: terminated(COUNT) },
            Request::ColumnCount,
            Request::Step,
            Request::Column { column: 0, kind: Kind::Int },
            Request::Reset,
            Request::Finalize,
        ]
    );
    let text: String = collect_once(&mut engine, &database, COUNT, ()).unwrap();
    assert_eq!(text, "2");
    let result: (i32, String, Double) =
        collect_once(&mut engine, &database, "select ?, ?, ?", (100, "hello", double(3.14)))
            .unwrap();
    assert_eq!(result, (100, "hello".to_owned(), double(3.14)));
    let amin: (i32, String, Double) =
        collect_once(&mut engine, &database, BY_NAME, "amin").unwrap();
    assert_eq!(amin, (29, "amin".to_owned(), double(69.5)));
    let nobody: Option<String> = collect_once(&mut engine, &database, NAME_BY_AGE, 200).unwrap();
    assert_eq!(nobody, None);
    let missing = collect_once::<String>(&mut engine, &database, NAME_BY_AGE, 200);
    assert_eq!(missing, Err(RsqliteError::Notfound));
}

#[test]
fn visiting_on_a_connection_calls_back_for_each_row() {
    let mut engine = Engine::new();
    let database = two_users(&mut engine);
    let mut users = vec![];
    let callback = |name: String, age: i32, weight: Double| {
        users.push((name, age, f64::from_bits(weight.to_bits())));
    };
    assert_eq!(for_each_once(&mut engine, &database, OLDER, 27, callback), Ok(()));
    assert_eq!(users, vec![("amin".to_owned(), 29, 69.5)]);
    assert_eq!(engine.log.first(), Some(&Request::Prepare { sql: terminated(OLDER) }));
    assert_eq!(engine.log.last(), Some(&Request::Finalize));
    assert_eq!(engine.count(&Request::Finalize), 1);
    let mut sum = 0;
    let visited = for_each_once(&mut engine, &database, ALL, (), |age: i32| sum += age);
    assert_eq!(visited, Ok(()));
    assert_eq!(sum, 55);
}

#[test]
fn a_shape_of_too_many_columns_releases_the_statement_unused() {
    let mut engine = Engine::new();
    let database = two_users(&mut engine);
    let refused = collect_once::<(i32, i32)>(&mut engine, &database, COUNT, ());
    assert_eq!(refused, Err(RsqliteError::Range));
    let prepared =
        vec![Request::Prepare { sql: terminated(COUNT) }, Request::ColumnCount, Request::Finalize];
    assert_eq!(engine.log, prepared);
    engine.log.clear();
    let refused = for_each_once(&mut engine, &database, COUNT, (), |_: i32, _: i32| {});
    assert_eq!(refused, Err(RsqliteError::Range));
    assert_eq!(engine.log, prepared);
}

#[test]
fn a_failure_on_a_connection_is_its_error_after_the_release() {
    let mut engine = Engine::new();
    let database = two_users(&mut engine);
    let mut execution = database.execute("selec 1", ()).unwrap();
    let mut reply = None;
    let result = loop {
        match execution.advance(reply) {
            Progress::Ask(request) => reply = Some(engine.perform(request)),
            Progress::Done(result) => break result,
        }
    };
    assert_eq!(result, Err(RsqliteError::Error));
    assert_eq!(
        engine.log,
        vec![Request::Prepare { sql: b"selec 1\0".to_vec() }, Request::Finalize]
    );
    assert_eq!(execution.advance(None), Progress::Done(Err(RsqliteError::Misuse)));
    engine.log.clear();
    engine.failing_step = Some(19);
    let failed = collect_once::<i32>(&mut engine, &database, COUNT, ());
    assert_eq!(failed, Err(RsqliteError::Constraint));
    assert_eq!(
        engine.log,
        vec![
            Request::Prepare { sql: terminated(COUNT) },
            Request::ColumnCount,
            Request::Step,
            Request::Reset,
            Request::Finalize,
        ]
    );
    engine.log.clear();
    let refused = collect_once::<i32>(&mut engine, &database, COUNT, (1,));
    assert_eq!(refused, Err(RsqliteError::Range));
    assert_eq!(engine.log.last(), Some(&Request::Finalize));
    assert_eq!(engine.count(&Request::Reset), 0);
}

#[test]
fn text_with_a_zero_byte_is_refused_on_a_connection() {
    let mut engine = Engine::new();
    let database = open(&mut engine, ":memory:").unwrap();
    engine.log.clear();
    assert!(matches!(database.execute("\0", ()), Err(RsqliteError::InvalidCString(0))));
    assert!(matches!(
        database.collect::<i32, _>("select\0", ()),
        Err(RsqliteError::InvalidCString(6))
    ));
    assert!(matches!(
        database.for_each::<(i32,), _>("a\0b", ()),
        Err(RsqliteError::InvalidCString(1))
    ));
    assert!(engine.log.is_empty());
}

#[test]
fn a_transaction_is_a_run_of_plain_statements() {
    let mut engine = Engine::new();
    let database = open(&mut engine, ":memory:").unwrap();
    run(&mut engine, &database, "create table user (name text, age int)", ());
    run(&mut engine, &database, "begin", ());
    let mut statement = prepare(&mut engine, &database, INSERT_NAME_AGE).unwrap();
    for age in 0..10 {
        let name = format!("user-{}", age);
        execute(&mut engine, &mut statement, (name.as_str(), age)).unwrap();
    }
    run(&mut engine, &database, "commit", ());
    let mut sum = 0;
    let visited = for_each_once(&mut engine, &database, ALL, (), |age: i32| sum += age);
    assert_eq!(visited, Ok(()));
    assert_eq!(sum, 45);
}
