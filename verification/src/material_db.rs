use vstd::prelude::*;
use vstd::string::*;
use crate::models::{
    Category, CategoryView, Ec3Category, Ec3Material, Ec3MaterialView, Manufacturer,
    ManufacturerView,
};
use crate::number::{real_bits, Number, NumberView};
use crate::rows::{
    categories_of, category_rows, first_occurrences, manufacturer_rows, manufacturers_of,
    material_rows,
};
use crate::text::joined;
use crate::units::{
    gwp_unit_of, unit_of, DeclaredUnit, DeclaredUnitView, Gwp, GwpUnits, GwpView, Unit,
};

verus! {

#[verifier::external_type_specification]
#[verifier::external_body]
pub struct ExConnection(rusqlite::Connection);

#[verifier::external_type_specification]
#[verifier::external_body]
pub struct ExStatement<'conn>(rusqlite::Statement<'conn>);

#[verifier::external_type_specification]
#[verifier::external_body]
pub struct ExRows<'stmt>(rusqlite::Rows<'stmt>);

#[verifier::external_type_specification]
#[verifier::external_body]
pub struct ExRow<'stmt>(rusqlite::Row<'stmt>);

#[verifier::external_type_specification]
#[verifier::external_body]
pub struct ExSqlError(rusqlite::Error);

/// Why the store could not do what was asked.
#[derive(Clone, Copy, Debug, PartialEq, Eq, Structural)]
pub enum StoreError {
    /// The database could not be opened.
    Open,
    /// The database refused a statement.
    Statement,
    /// The database failed while it handed out rows.
    Read,
    /// The store does not hold what was asked for.
    Missing,
}

/// One cell of a row that the database handed out.
#[derive(Debug)]
pub enum SqlValue {
    Null,
    /// An integer or a real, in decimal.
    Number(String),
    Text(String),
    Blob(Vec<u8>),
}

/// `Connection::open`: opens the database file at `path`, creating it where
/// there is none. Nothing is claimed of the outcome.
#[verifier::external_body]
fn open_at(path: &str) -> (r: Result<rusqlite::Connection, rusqlite::Error>)
{
    rusqlite::Connection::open(path)
}

/// `Connection::prepare`: compiles one statement. Nothing is claimed of the
/// outcome.
#[verifier::external_body]
fn prepare<'conn>(conn: &'conn rusqlite::Connection, sql: &str) -> (r: Result<
    rusqlite::Statement<'conn>,
    rusqlite::Error,
>)
{
    conn.prepare(sql)
}

/// `Statement::execute` with the parameters bound in their order as text.
/// Nothing is claimed of the outcome.
#[verifier::external_body]
fn execute(stmt: &mut rusqlite::Statement<'_>, params: &Vec<String>) -> (r: Result<
    usize,
    rusqlite::Error,
>)
{
    stmt.execute(rusqlite::params_from_iter(params.iter()))
}

/// `Statement::query` with the parameters bound in their order as text.
/// Nothing is claimed of the outcome.
#[verifier::external_body]
fn query<'stmt>(stmt: &'stmt mut rusqlite::Statement<'_>, params: &Vec<String>) -> (r: Result<
    rusqlite::Rows<'stmt>,
    rusqlite::Error,
>)
{
    stmt.query(rusqlite::params_from_iter(params.iter()))
}

/// `Rows::next`: moves to the next row and says whether there is one.
/// Nothing is claimed of the outcome.
#[verifier::external_body]
fn advance(rows: &mut rusqlite::Rows<'_>) -> (r: Result<bool, rusqlite::Error>)
{
    rows.next().map(|row| row.is_some())
}

/// `Rows::get`, of `FallibleStreamingIterator`: the row that `rows` stands
/// at, if it stands at one. Nothing is claimed of the outcome.
#[verifier::external_body]
fn current<'a, 'stmt>(rows: &'a rusqlite::Rows<'stmt>) -> (r: Option<&'a rusqlite::Row<'stmt>>)
{
    rusqlite::fallible_streaming_iterator::FallibleStreamingIterator::get(rows)
}

/// `Row::get` as a `Value`: the cell at a column, variant by variant, a
/// number in decimal. It fails where the row has no such column. Nothing is
/// claimed of the outcome.
#[verifier::external_body]
fn cell(row: &rusqlite::Row<'_>, column: usize) -> (r: Result<SqlValue, rusqlite::Error>)
{
    Ok(
        match row.get::<usize, rusqlite::types::Value>(column)? {
            rusqlite::types::Value::Null => SqlValue::Null,
            rusqlite::types::Value::Integer(n) => SqlValue::Number(n.to_string()),
            rusqlite::types::Value::Real(x) => SqlValue::Number(x.to_string()),
            rusqlite::types::Value::Text(t) => SqlValue::Text(t),
            rusqlite::types::Value::Blob(b) => SqlValue::Blob(b),
        },
    )
}

/// The first `width` cells of the next row, or `None` behind the last row.
fn next_cells(rows: &mut rusqlite::Rows<'_>, width: usize) -> (r: Result<
    Option<Vec<SqlValue>>,
    StoreError,
>)
    ensures
        match r {
            Ok(Some(cells)) => cells@.len() == width,
            Ok(None) => true,
            Err(e) => e == StoreError::Read,
        },
{
    match advance(rows) {
        Err(_) => { return Err(StoreError::Read); },
        Ok(false) => { return Ok(None); },
        Ok(true) => {},
    }
    let row = match current(rows) {
        Some(row) => row,
        None => { return Ok(None); },
    };
    let mut cells: Vec<SqlValue> = Vec::new();
    let mut i: usize = 0;
    while i < width
        invariant
            i <= width,
            cells@.len() == i,
        decreases width - i,
    {
        match cell(row, i) {
            Ok(value) => { cells.push(value); },
            Err(_) => { return Err(StoreError::Read); },
        }
        i += 1;
    }
    Ok(Some(cells))
}

/// Opens the store at `path`.
pub fn connection(path: &str) -> (r: Result<rusqlite::Connection, StoreError>)
    ensures
        r matches Err(e) ==> e == StoreError::Open,
{
    match open_at(path) {
        Ok(conn) => Ok(conn),
        Err(_) => Err(StoreError::Open),
    }
}

/// Runs one statement that takes no parameter.
fn run_plain(conn: &rusqlite::Connection, sql: &str) -> (r: Result<(), StoreError>)
    ensures
        r matches Err(e) ==> e == StoreError::Statement,
{
    let params: Vec<String> = Vec::new();
    match prepare(conn, sql) {
        Err(_) => Err(StoreError::Statement),
        Ok(mut stmt) => match execute(&mut stmt, &params) {
            Ok(_) => Ok(()),
            Err(_) => Err(StoreError::Statement),
        },
    }
}

/// What a cell stands for in contracts.
pub enum SqlValueView {
    Null,
    Number(Seq<char>),
    Text(Seq<char>),
    Blob(Seq<u8>),
}

impl View for SqlValue {
    type V = SqlValueView;

    open spec fn view(&self) -> SqlValueView {
        match *self {
            SqlValue::Null => SqlValueView::Null,
            SqlValue::Number(t) => SqlValueView::Number(t@),
            SqlValue::Text(t) => SqlValueView::Text(t@),
            SqlValue::Blob(b) => SqlValueView::Blob(b@),
        }
    }
}

/// The views of the cells of a row.
pub open spec fn cell_views(cells: Seq<SqlValue>) -> Seq<SqlValueView> {
    Seq::new(cells.len(), |i: int| cells[i]@)
}

/// The text of a cell that holds text.
pub open spec fn text_cell(c: SqlValueView) -> Option<Seq<char>> {
    match c {
        SqlValueView::Text(t) => Some(t),
        _ => None,
    }
}

/// The number of a cell that holds one.
pub open spec fn number_cell(c: SqlValueView) -> Option<NumberView> {
    match c {
        SqlValueView::Number(t) => match real_bits(t) {
            Some(bits) => Some(NumberView { bits, text: t }),
            None => None,
        },
        _ => None,
    }
}

/// The number of columns of a row that holds a material.
pub const MATERIAL_COLUMNS: usize = 13;

/// Whether a row can be read as a material: thirteen cells, numbers in the
/// fourth and the twelfth, text in all the others.
pub open spec fn is_material_row(cells: Seq<SqlValueView>) -> bool {
    &&& cells.len() == MATERIAL_COLUMNS
    &&& forall|i: int| 0 <= i < 13 && i != 3 && i != 11 ==> text_cell(#[trigger] cells[i]) is Some
    &&& number_cell(cells[3]) is Some
    &&& number_cell(cells[11]) is Some
}

/// The material that a row holds, in the order of the columns that the queries
/// select: the material's id, name, description, potential and its unit, the
/// category's name, display name, id and description, the manufacturer's name
/// and country, and the declared quantity and its unit.
pub open spec fn row_material(cells: Seq<SqlValueView>) -> Option<Ec3MaterialView> {
    if is_material_row(cells) {
        Some(
            Ec3MaterialView {
                id: text_cell(cells[0])->0,
                name: text_cell(cells[1])->0,
                description: text_cell(cells[2])->0,
                gwp: GwpView {
                    value: number_cell(cells[3])->0,
                    unit: gwp_unit_of(text_cell(cells[4])->0),
                },
                image: None,
                category: CategoryView {
                    name: text_cell(cells[5])->0,
                    display_name: text_cell(cells[6])->0,
                    id: text_cell(cells[7])->0,
                    description: text_cell(cells[8])->0,
                },
                manufacturer: ManufacturerView {
                    name: text_cell(cells[9])->0,
                    country: Some(text_cell(cells[10])->0),
                },
                declared_unit: DeclaredUnitView {
                    value: number_cell(cells[11])->0,
                    unit: unit_of(text_cell(cells[12])->0),
                },
            },
        )
    } else {
        None
    }
}

fn text_at(cells: &Vec<SqlValue>, i: usize) -> (r: Option<String>)
    requires
        i < cells@.len(),
    ensures
        crate::models::opt_text(r) == text_cell(cells@[i as int]@),
{
    match &cells[i] {
        SqlValue::Text(t) => Some(t.clone()),
        _ => None,
    }
}

fn number_at(cells: &Vec<SqlValue>, i: usize) -> (r: Option<Number>)
    requires
        i < cells@.len(),
    ensures
        match r {
            Some(n) => number_cell(cells@[i as int]@) == Some(n@) && n.wf(),
            None => number_cell(cells@[i as int]@) is None,
        },
{
    match &cells[i] {
        SqlValue::Number(t) => Number::parse(t.as_str()),
        _ => None,
    }
}

/// Reads a row as a material. `None` where a cell does not hold what its
/// column asks for.
pub fn material_of_row(cells: &Vec<SqlValue>) -> (r: Option<Ec3Material>)
    ensures
        match r {
            Some(m) => row_material(cell_views(cells@)) == Some(m@) && m.wf(),
            None => row_material(cell_views(cells@)) is None,
        },
{
    if cells.len() != MATERIAL_COLUMNS {
        return None;
    }
    let ghost views = cell_views(cells@);
    assert(forall|i: int| 0 <= i < 13 ==> views[i] == cells@[i]@);
    let id = match text_at(cells, 0) { Some(t) => t, None => { return None; } };
    let name = match text_at(cells, 1) { Some(t) => t, None => { return None; } };
    let description = match text_at(cells, 2) { Some(t) => t, None => { return None; } };
    let gwp_value = match number_at(cells, 3) { Some(n) => n, None => { return None; } };
    let gwp_unit = match text_at(cells, 4) { Some(t) => t, None => { return None; } };
    let category_name = match text_at(cells, 5) { Some(t) => t, None => { return None; } };
    let display_name = match text_at(cells, 6) { Some(t) => t, None => { return None; } };
    let category_id = match text_at(cells, 7) { Some(t) => t, None => { return None; } };
    let category_description = match text_at(cells, 8) {
        Some(t) => t,
        None => { return None; },
    };
    let manufacturer_name = match text_at(cells, 9) { Some(t) => t, None => { return None; } };
    let country = match text_at(cells, 10) { Some(t) => t, None => { return None; } };
    let declared_value = match number_at(cells, 11) { Some(n) => n, None => { return None; } };
    let declared_unit = match text_at(cells, 12) { Some(t) => t, None => { return None; } };
    let gwp_unit = match GwpUnits::from_str(gwp_unit.as_str()) {
        Ok(u) => u,
        Err(_) => GwpUnits::Unknown,
    };
    let unit = match Unit::from_str(declared_unit.as_str()) {
        Ok(u) => u,
        Err(_) => Unit::Unknown,
    };
    Some(
        Ec3Material {
            name,
            gwp: Gwp { value: gwp_value, unit: gwp_unit },
            image: None,
            manufacturer: Manufacturer { name: manufacturer_name, country: Some(country) },
            description,
            category: Category {
                description: category_description,
                name: category_name,
                display_name,
                id: category_id,
            },
            id,
            declared_unit: DeclaredUnit { value: declared_value, unit },
        },
    )
}

/// The statement that creates the table of categories.
pub const CREATE_CATEGORIES: &'static str =
    "CREATE TABLE IF NOT EXISTS categories (\
        id TEXT PRIMARY KEY, \
        name TEXT NOT NULL, \
        display_name TEXT, \
        description TEXT, \
        parent_id TEXT, \
        declared_value REAL, \
        declared_unit TEXT);";

/// The statement that creates the table of manufacturers.
pub const CREATE_MANUFACTURERS: &'static str =
    "CREATE TABLE IF NOT EXISTS manufacturers (\
        name TEXT PRIMARY KEY, \
        country TEXT);";

/// The statement that creates the table of materials.
pub const CREATE_MATERIALS: &'static str =
    "CREATE TABLE IF NOT EXISTS materials (\
        id TEXT PRIMARY KEY, \
        name TEXT NOT NULL, \
        description TEXT, \
        category_id TEXT NOT NULL, \
        gwp REAL, \
        gwp_unit TEXT, \
        manufacturer_name TEXT, \
        declared_value REAL, \
        declared_unit TEXT, \
        FOREIGN KEY(category_id) REFERENCES categories (id), \
        FOREIGN KEY(manufacturer_name) REFERENCES manufacturers (name));";

pub const INSERT_CATEGORY: &'static str =
    "INSERT INTO categories (id, name, display_name, description, parent_id) \
     VALUES (?1, ?2, ?3, ?4, ?5);";

pub const INSERT_MANUFACTURER: &'static str = "INSERT INTO manufacturers (name, country) VALUES (?1, ?2)";

pub const INSERT_MATERIAL: &'static str =
    "INSERT INTO materials (id, name, description, category_id, gwp, gwp_unit, \
     manufacturer_name, declared_value, declared_unit) \
     VALUES (?1, ?2, ?3, ?4, ?5, ?6, ?7, ?8, ?9)";

pub const UPDATE_CATEGORY_UNIT: &'static str =
    "UPDATE categories SET declared_value=(?1), declared_unit=(?2) WHERE id=(?3);";

/// The materials of a category and of the categories directly under it.
pub const SELECT_BY_CATEGORY: &'static str =
    "SELECT materials.id, materials.name, materials.description, materials.gwp, \
     materials.gwp_unit, categories.name, categories.display_name, categories.id, \
     categories.description, manufacturers.name, manufacturers.country, \
     materials.declared_value, materials.declared_unit FROM materials \
     JOIN categories ON materials.category_id = categories.id \
     LEFT JOIN manufacturers ON materials.manufacturer_name = manufacturers.name \
     WHERE categories.name = (?1) OR categories.parent_id = (?1);";

/// The materials whose name, category or category above matches a pattern.
pub const SELECT_BY_PATTERN: &'static str =
    "SELECT materials.id, materials.name, materials.description, materials.gwp, \
     materials.gwp_unit, categories.name, categories.display_name, categories.id, \
     categories.description, manufacturers.name, manufacturers.country, \
     materials.declared_value, materials.declared_unit FROM materials \
     JOIN categories ON materials.category_id = categories.id \
     LEFT JOIN manufacturers ON materials.manufacturer_name = manufacturers.name \
     WHERE materials.name LIKE (?1) ESCAPE '\\' \
     OR categories.parent_id LIKE (?1) ESCAPE '\\' \
     OR categories.name LIKE (?1) ESCAPE '\\' LIMIT 200;";

/// Makes `LIKE` tell upper case from lower case on this connection.
pub const CASE_SENSITIVE_LIKE: &'static str = "PRAGMA case_sensitive_like = ON;";

pub const SELECT_AVERAGE_BY_ID: &'static str = "SELECT avg(gwp) FROM materials WHERE category_id = (?1);";

pub const SELECT_AVERAGE_BY_NAME: &'static str =
    "SELECT avg(gwp) FROM materials \
     JOIN categories ON categories.id = materials.category_id \
     WHERE categories.name = (?1);";

pub const SELECT_CATEGORY_UNIT: &'static str =
    "SELECT declared_value, declared_unit FROM categories WHERE categories.name = (?1);";

/// The most materials that a search hands back.
pub const SEARCH_LIMIT: usize = 200;

/// Creates the three tables where they are missing.
pub fn migrate(conn: &rusqlite::Connection) -> (r: Result<(), StoreError>)
    ensures
        r matches Err(e) ==> e == StoreError::Statement,
{
    match run_plain(conn, CREATE_CATEGORIES) {
        Err(e) => { return Err(e); },
        Ok(_) => {},
    }
    match run_plain(conn, CREATE_MANUFACTURERS) {
        Err(e) => { return Err(e); },
        Ok(_) => {},
    }
    run_plain(conn, CREATE_MATERIALS)
}

/// The test for a row that the database took.
pub open spec fn is_taken() -> spec_fn(bool) -> bool {
    |taken: bool| taken
}

/// The test for a row that the database refused.
pub open spec fn is_refused() -> spec_fn(bool) -> bool {
    |taken: bool| !taken
}

/// Counts what became of the rows that were offered: how many the database
/// took and how many it refused. A refused row is counted and nothing more:
/// no outcome makes the count fail.
pub fn tally(outcomes: &Vec<bool>) -> (r: (usize, usize))
    ensures
        r.0 == outcomes@.filter(is_taken()).len(),
        r.1 == outcomes@.filter(is_refused()).len(),
        r.0 + r.1 == outcomes@.len(),
{
    let mut taken: usize = 0;
    let mut refused: usize = 0;
    let mut i: usize = 0;
    proof {
        reveal(Seq::filter);
        assert(outcomes@.take(0) =~= Seq::<bool>::empty());
    }
    while i < outcomes.len()
        invariant
            i <= outcomes@.len(),
            taken == outcomes@.take(i as int).filter(is_taken()).len(),
            refused == outcomes@.take(i as int).filter(is_refused()).len(),
            taken + refused == i,
        decreases outcomes@.len() - i,
    {
        proof {
            let seen = outcomes@.take(i as int);
            assert(outcomes@.take(i + 1) =~= seen.push(outcomes@[i as int]));
            crate::sort::lemma_filter_push(seen, outcomes@[i as int], is_taken());
            crate::sort::lemma_filter_push(seen, outcomes@[i as int], is_refused());
        }
        if outcomes[i] {
            taken += 1;
        } else {
            refused += 1;
        }
        i += 1;
    }
    assert(outcomes@.take(outcomes@.len() as int) =~= outcomes@);
    (taken, refused)
}

/// Offers each row to a prepared statement, in the rows' order, and notes for
/// each whether the database took it. A row that it refuses is passed over:
/// the next is offered all the same.
fn offer_all(stmt: &mut rusqlite::Statement<'_>, rows: &Vec<Vec<String>>) -> (outcomes: Vec<bool>)
    ensures
        outcomes@.len() == rows@.len(),
{
    let mut outcomes: Vec<bool> = Vec::new();
    let mut i: usize = 0;
    while i < rows.len()
        invariant
            i <= rows@.len(),
            outcomes@.len() == i,
        decreases rows@.len() - i,
    {
        let taken = match execute(stmt, &rows[i]) {
            Ok(_) => true,
            Err(_) => false,
        };
        outcomes.push(taken);
        i += 1;
    }
    outcomes
}

/// Prepares `sql` and offers each row to it. It fails only where the
/// statement cannot be prepared; what becomes of a row is an outcome, not a
/// failure.
fn insert_all(conn: &rusqlite::Connection, sql: &str, rows: &Vec<Vec<String>>) -> (r: Result<
    Vec<bool>,
    StoreError,
>)
    ensures
        match r {
            Ok(outcomes) => outcomes@.len() == rows@.len(),
            Err(e) => e == StoreError::Statement,
        },
{
    match prepare(conn, sql) {
        Ok(mut stmt) => Ok(offer_all(&mut stmt, rows)),
        Err(_) => Err(StoreError::Statement),
    }
}

/// What became of one batch: for each table, how many rows the database took
/// and how many it refused.
#[derive(Clone, Copy, Debug, PartialEq, Eq, Structural)]
pub struct WriteReport {
    pub categories: usize,
    pub manufacturers: usize,
    pub materials: usize,
    pub categories_refused: usize,
    pub manufacturers_refused: usize,
    pub materials_refused: usize,
}

/// Whether a report accounts for a batch: each distinct category, each
/// distinct manufacturer and each material of the batch was offered to the
/// store once, and was either taken or refused.
pub open spec fn accounts_for(report: WriteReport, batch: Seq<Ec3MaterialView>) -> bool {
    &&& report.categories + report.categories_refused == first_occurrences(
        categories_of(batch),
    ).len()
    &&& report.manufacturers + report.manufacturers_refused == first_occurrences(
        manufacturers_of(batch),
    ).len()
    &&& report.materials + report.materials_refused == batch.len()
}

/// Stores a batch: its distinct categories under `parent`, its distinct
/// manufacturers, then the materials. A row that the database refuses is
/// passed over and counted; the batch fails only where a statement cannot be
/// prepared.
pub fn write(conn: &rusqlite::Connection, materials: &Vec<Ec3Material>, parent: &str) -> (r:
    Result<WriteReport, StoreError>)
    ensures
        match r {
            Ok(report) => accounts_for(report, crate::models::material_views(materials@)),
            Err(e) => e == StoreError::Statement,
        },
{
    let category_batch = category_rows(materials, parent);
    let manufacturer_batch = manufacturer_rows(materials);
    let material_batch = material_rows(materials);
    proof {
        let batch = crate::models::material_views(materials@);
        assert(crate::rows::row_texts(category_batch@).len() == first_occurrences(
            categories_of(batch),
        ).len());
        assert(crate::rows::row_texts(manufacturer_batch@).len() == first_occurrences(
            manufacturers_of(batch),
        ).len());
        assert(crate::rows::row_texts(material_batch@).len() == materials@.len());
    }
    let categories = match insert_all(conn, INSERT_CATEGORY, &category_batch) {
        Ok(outcomes) => tally(&outcomes),
        Err(e) => { return Err(e); },
    };
    let manufacturers = match insert_all(conn, INSERT_MANUFACTURER, &manufacturer_batch) {
        Ok(outcomes) => tally(&outcomes),
        Err(e) => { return Err(e); },
    };
    let stored = match insert_all(conn, INSERT_MATERIAL, &material_batch) {
        Ok(outcomes) => tally(&outcomes),
        Err(e) => { return Err(e); },
    };
    Ok(
        WriteReport {
            categories: categories.0,
            manufacturers: manufacturers.0,
            materials: stored.0,
            categories_refused: categories.1,
            manufacturers_refused: manufacturers.1,
            materials_refused: stored.1,
        },
    )
}

/// What is stored of a category's declared unit: the quantity, the unit's
/// name, and the id of the category to find it by.
pub open spec fn category_unit_row(c: crate::models::Ec3CategoryView) -> Seq<Seq<char>> {
    seq![c.declared_unit.value.text, c.declared_unit.unit.spec_name(), c.id]
}

/// The parameters of the statement that stores a category's declared unit.
pub fn category_unit_params(category: &Ec3Category) -> (params: Vec<String>)
    ensures
        crate::text::texts(params@) == category_unit_row(category@),
{
    let mut params: Vec<String> = Vec::new();
    params.push(String::from_str(category.declared_unit.value.text()));
    params.push(String::from_str(category.declared_unit.unit.name()));
    params.push(category.id.clone());
    assert(crate::text::texts(params@) =~= category_unit_row(category@));
    params
}

/// Stores the declared unit of a category that is already in the store.
pub fn write_category(conn: &rusqlite::Connection, category: &Ec3Category) -> (r: Result<
    (),
    StoreError,
>)
    ensures
        r matches Err(e) ==> e == StoreError::Statement,
{
    let params = category_unit_params(category);
    let mut stmt = match prepare(conn, UPDATE_CATEGORY_UNIT) {
        Ok(stmt) => stmt,
        Err(_) => { return Err(StoreError::Statement); },
    };
    match execute(&mut stmt, &params) {
        Ok(_) => Ok(()),
        Err(_) => Err(StoreError::Statement),
    }
}

/// Whether every material is well formed.
pub open spec fn all_wf(ms: Seq<Ec3Material>) -> bool {
    forall|i: int| 0 <= i < ms.len() ==> (#[trigger] ms[i]).wf()
}

/// The views of the rows of an answer.
pub open spec fn row_views(rows: Seq<Vec<SqlValue>>) -> Seq<Seq<SqlValueView>> {
    Seq::new(rows.len(), |i: int| cell_views(rows[i]@))
}

/// The materials that the rows of an answer hold, in the rows' order. A row
/// that cannot be read as a material is passed over.
pub open spec fn row_materials(rows: Seq<Seq<SqlValueView>>) -> Seq<Ec3MaterialView>
    decreases rows.len(),
{
    if rows.len() == 0 {
        Seq::empty()
    } else {
        let head = row_materials(rows.drop_last());
        match row_material(rows.last()) {
            Some(m) => head.push(m),
            None => head,
        }
    }
}

/// Reads the rows of an answer as materials.
pub fn materials_of_rows(rows: &Vec<Vec<SqlValue>>) -> (ms: Vec<Ec3Material>)
    ensures
        crate::models::material_views(ms@) == row_materials(row_views(rows@)),
        ms@.len() <= rows@.len(),
        all_wf(ms@),
{
    let ghost views = row_views(rows@);
    let mut materials: Vec<Ec3Material> = Vec::new();
    let mut i: usize = 0;
    assert(views.take(0) =~= Seq::<Seq<SqlValueView>>::empty());
    while i < rows.len()
        invariant
            i <= rows@.len(),
            views == row_views(rows@),
            crate::models::material_views(materials@) == row_materials(views.take(i as int)),
            materials@.len() <= i,
            all_wf(materials@),
        decreases rows@.len() - i,
    {
        let ghost before = crate::models::material_views(materials@);
        proof {
            assert(views.take(i + 1).drop_last() =~= views.take(i as int));
            assert(views.take(i + 1).last() == cell_views(rows@[i as int]@));
        }
        match material_of_row(&rows[i]) {
            Some(m) => {
                materials.push(m);
                assert(crate::models::material_views(materials@) =~= before.push(m@));
            },
            None => {},
        }
        i += 1;
    }
    assert(views.take(rows@.len() as int) =~= views);
    materials
}

/// Runs a query with one parameter and collects the rows that the database
/// hands out, `width` cells of each, until it has no more or `limit` are
/// collected.
fn read_rows(
    conn: &rusqlite::Connection,
    sql: &str,
    param: &str,
    width: usize,
    limit: usize,
) -> (r: Result<Vec<Vec<SqlValue>>, StoreError>)
    ensures
        match r {
            Ok(rows) => rows@.len() <= limit && forall|i: int|
                0 <= i < rows@.len() ==> (#[trigger] rows@[i])@.len() == width,
            Err(e) => e == StoreError::Statement || e == StoreError::Read,
        },
{
    let mut params: Vec<String> = Vec::new();
    params.push(String::from_str(param));
    let mut stmt = match prepare(conn, sql) {
        Ok(stmt) => stmt,
        Err(_) => { return Err(StoreError::Statement); },
    };
    let mut rows = match query(&mut stmt, &params) {
        Ok(rows) => rows,
        Err(_) => { return Err(StoreError::Statement); },
    };
    let mut collected: Vec<Vec<SqlValue>> = Vec::new();
    while collected.len() < limit
        invariant
            collected@.len() <= limit,
            forall|i: int| 0 <= i < collected@.len() ==> (#[trigger] collected@[i])@.len() == width,
        decreases limit - collected@.len(),
    {
        match next_cells(&mut rows, width) {
            Err(_) => { return Err(StoreError::Read); },
            Ok(None) => { return Ok(collected); },
            Ok(Some(cells)) => { collected.push(cells); },
        }
    }
    Ok(collected)
}

/// Runs a query with one parameter and reads at most `limit` rows as
/// materials. A row that cannot be read as a material is passed over.
fn read_materials(conn: &rusqlite::Connection, sql: &str, param: &str, limit: usize) -> (r:
    Result<Vec<Ec3Material>, StoreError>)
    ensures
        match r {
            Ok(ms) => ms@.len() <= limit && all_wf(ms@),
            Err(e) => e == StoreError::Statement || e == StoreError::Read,
        },
{
    match read_rows(conn, sql, param, MATERIAL_COLUMNS, limit) {
        Ok(rows) => Ok(materials_of_rows(&rows)),
        Err(e) => Err(e),
    }
}

/// The materials filed under the category named `category` or under a
/// category directly below it.
pub fn load_category(conn: &rusqlite::Connection, category: &str) -> (r: Result<
    Vec<Ec3Material>,
    StoreError,
>)
    ensures
        match r {
            Ok(ms) => all_wf(ms@),
            Err(e) => e == StoreError::Statement || e == StoreError::Read,
        },
{
    read_materials(conn, SELECT_BY_CATEGORY, category, usize::MAX)
}

/// The sign that takes its meaning from the character behind it in a
/// pattern.
pub const ESCAPE: char = '\\';

/// Whether a character means something else than itself in a pattern: the
/// two wildcards and the escape sign.
pub open spec fn is_special(c: char) -> bool {
    c == '%' || c == '_' || c == ESCAPE
}

/// A text as a pattern that matches this text alone: the escape sign stands
/// before each character that would mean something else.
pub open spec fn escaped(s: Seq<char>) -> Seq<char>
    decreases s.len(),
{
    if s.len() == 0 {
        Seq::empty()
    } else if is_special(s.last()) {
        escaped(s.drop_last()).push(ESCAPE).push(s.last())
    } else {
        escaped(s.drop_last()).push(s.last())
    }
}

/// The pattern that matches every text in which `input` occurs, letter for
/// letter: `input` between two wildcards, with what is special in it
/// escaped.
pub fn search_pattern(input: &str) -> (pattern: String)
    ensures
        pattern@ == "%"@ + escaped(input@) + "%"@,
{
    let n: usize = input.unicode_len();
    let mut body = String::new();
    let mut i: usize = 0;
    proof {
        reveal_strlit("\\");
        assert(input@.take(0) =~= Seq::<char>::empty());
    }
    while i < n
        invariant
            n == input@.len(),
            i <= n,
            body@ == escaped(input@.take(i as int)),
            "\\"@ == seq![ESCAPE],
        decreases n - i,
    {
        let c = input.get_char(i);
        let one = input.substring_char(i, i + 1);
        proof {
            assert(input@.take(i + 1).drop_last() =~= input@.take(i as int));
            assert(input@.take(i + 1).last() == c);
            assert(one@ =~= seq![c]);
            assert(body@ + seq![ESCAPE] =~= body@.push(ESCAPE));
            assert(body@.push(ESCAPE) + seq![c] =~= body@.push(ESCAPE).push(c));
            assert(body@ + seq![c] =~= body@.push(c));
        }
        if c == '%' || c == '_' || c == ESCAPE {
            body.append("\\");
        }
        body.append(one);
        i += 1;
    }
    assert(input@.take(n as int) =~= input@);
    let mut pattern = joined("%", body.as_str());
    pattern.append("%");
    pattern
}

/// The materials in whose name, category or category above `input` occurs,
/// letter for letter: never more than `SEARCH_LIMIT` of them.
pub fn query_materials(conn: &rusqlite::Connection, input: &str) -> (r: Result<
    Vec<Ec3Material>,
    StoreError,
>)
    ensures
        match r {
            Ok(ms) => ms@.len() <= SEARCH_LIMIT && all_wf(ms@),
            Err(e) => e == StoreError::Statement || e == StoreError::Read,
        },
{
    match run_plain(conn, CASE_SENSITIVE_LIKE) {
        Err(e) => { return Err(e); },
        Ok(_) => {},
    }
    let pattern = search_pattern(input);
    read_materials(conn, SELECT_BY_PATTERN, pattern.as_str(), SEARCH_LIMIT)
}

/// The first row of a query with one parameter, `width` cells wide.
fn first_row(conn: &rusqlite::Connection, sql: &str, param: &str, width: usize) -> (r: Result<
    Option<Vec<SqlValue>>,
    StoreError,
>)
    ensures
        match r {
            Ok(Some(cells)) => cells@.len() == width,
            Ok(None) => true,
            Err(e) => e == StoreError::Statement || e == StoreError::Read,
        },
{
    let mut params: Vec<String> = Vec::new();
    params.push(String::from_str(param));
    let mut stmt = match prepare(conn, sql) {
        Ok(stmt) => stmt,
        Err(_) => { return Err(StoreError::Statement); },
    };
    let mut rows = match query(&mut stmt, &params) {
        Ok(rows) => rows,
        Err(_) => { return Err(StoreError::Statement); },
    };
    match next_cells(&mut rows, width) {
        Ok(first) => Ok(first),
        Err(_) => Err(StoreError::Read),
    }
}

/// The average that the first row of an aggregate query holds: the number in
/// its one cell, and zero where there is no row, no cell or no number, as
/// when no material matched.
pub open spec fn average_in(first: Option<Seq<SqlValueView>>) -> Option<NumberView> {
    match first {
        Some(cells) => if cells.len() == 1 {
            number_cell(cells[0])
        } else {
            None
        },
        None => None,
    }
}

/// Reads the answer of an aggregate query. Zero stands for "no data".
pub fn average_of(first: &Option<Vec<SqlValue>>) -> (avg: Number)
    ensures
        avg.wf(),
        match average_in(
            match *first {
                Some(cells) => Some(cell_views(cells@)),
                None => None,
            },
        ) {
            Some(n) => avg@ == n,
            None => avg@.bits == 0 && avg@.text == "0"@,
        },
{
    match first {
        Some(cells) => {
            if cells.len() == 1 {
                assert(cell_views(cells@)[0] == cells@[0]@);
                match number_at(cells, 0) {
                    Some(n) => n,
                    None => Number::zero(),
                }
            } else {
                Number::zero()
            }
        },
        None => Number::zero(),
    }
}

/// The average potential of the materials filed under `category`, by its id.
/// Zero where there are none.
pub fn get_category_stats(conn: &rusqlite::Connection, category: &Category) -> (r: Result<
    Number,
    StoreError,
>)
    ensures
        match r {
            Ok(avg) => avg.wf(),
            Err(e) => e == StoreError::Statement || e == StoreError::Read,
        },
{
    match first_row(conn, SELECT_AVERAGE_BY_ID, category.id.as_str(), 1) {
        Ok(first) => Ok(average_of(&first)),
        Err(e) => Err(e),
    }
}

/// The average potential of the materials filed under the category named
/// `category`. Zero where there are none.
pub fn get_category_avg(conn: &rusqlite::Connection, category: &str) -> (r: Result<
    Number,
    StoreError,
>)
    ensures
        match r {
            Ok(avg) => avg.wf(),
            Err(e) => e == StoreError::Statement || e == StoreError::Read,
        },
{
    match first_row(conn, SELECT_AVERAGE_BY_NAME, category, 1) {
        Ok(first) => Ok(average_of(&first)),
        Err(e) => Err(e),
    }
}

/// The declared unit that a row of two cells holds: a number and a unit's
/// name.
pub open spec fn row_unit(cells: Seq<SqlValueView>) -> Option<DeclaredUnitView> {
    if cells.len() == 2 && number_cell(cells[0]) is Some && text_cell(cells[1]) is Some {
        Some(
            DeclaredUnitView {
                value: number_cell(cells[0])->0,
                unit: unit_of(text_cell(cells[1])->0),
            },
        )
    } else {
        None
    }
}

/// Reads a row as a declared unit.
pub fn unit_of_row(cells: &Vec<SqlValue>) -> (r: Option<DeclaredUnit>)
    ensures
        match r {
            Some(u) => row_unit(cell_views(cells@)) == Some(u@) && u.wf(),
            None => row_unit(cell_views(cells@)) is None,
        },
{
    if cells.len() != 2 {
        return None;
    }
    assert(cell_views(cells@)[0] == cells@[0]@);
    assert(cell_views(cells@)[1] == cells@[1]@);
    let value = match number_at(cells, 0) { Some(n) => n, None => { return None; } };
    let name = match text_at(cells, 1) { Some(t) => t, None => { return None; } };
    let unit = match Unit::from_str(name.as_str()) {
        Ok(u) => u,
        Err(_) => Unit::Unknown,
    };
    Some(DeclaredUnit { value, unit })
}

/// What the first row of an answer gives as a declared unit: the unit that
/// the row holds, and `Missing` where there is no row or the row holds none.
pub open spec fn answered_unit(first: Option<Seq<SqlValueView>>) -> Result<
    DeclaredUnitView,
    StoreError,
> {
    match first {
        Some(cells) => match row_unit(cells) {
            Some(u) => Ok(u),
            None => Err(StoreError::Missing),
        },
        None => Err(StoreError::Missing),
    }
}

/// Reads the answer to the question for a category's declared unit.
pub fn unit_answer(first: &Option<Vec<SqlValue>>) -> (r: Result<DeclaredUnit, StoreError>)
    ensures
        match r {
            Ok(u) => answered_unit(
                match *first {
                    Some(cells) => Some(cell_views(cells@)),
                    None => None,
                },
            ) == Ok::<DeclaredUnitView, StoreError>(u@) && u.wf(),
            Err(e) => answered_unit(
                match *first {
                    Some(cells) => Some(cell_views(cells@)),
                    None => None,
                },
            ) == Err::<DeclaredUnitView, StoreError>(e),
        },
{
    match first {
        Some(cells) => match unit_of_row(cells) {
            Some(u) => Ok(u),
            None => Err(StoreError::Missing),
        },
        None => Err(StoreError::Missing),
    }
}

/// The declared unit of the category named `category`. `Missing` where the
/// store holds no such category or no unit for it.
pub fn get_category_unit(conn: &rusqlite::Connection, category: &str) -> (r: Result<
    DeclaredUnit,
    StoreError,
>)
    ensures
        match r {
            Ok(u) => u.wf(),
            Err(e) => e == StoreError::Statement || e == StoreError::Read || e
                == StoreError::Missing,
        },
{
    match first_row(conn, SELECT_CATEGORY_UNIT, category, 2) {
        Ok(first) => unit_answer(&first),
        Err(e) => Err(e),
    }
}

/// The row that the queries hand out for a material that was written with
/// its category and its manufacturer, where the database keeps each text as
/// it was given.
pub open spec fn selected_row(m: Ec3MaterialView) -> Seq<SqlValueView> {
    let material = crate::rows::material_row(m);
    let category = crate::rows::category_row(m.category, Seq::empty());
    let manufacturer = crate::rows::manufacturer_row(m.manufacturer);
    seq![
        SqlValueView::Text(material[0]),
        SqlValueView::Text(material[1]),
        SqlValueView::Text(material[2]),
        SqlValueView::Number(material[4]),
        SqlValueView::Text(material[5]),
        SqlValueView::Text(category[1]),
        SqlValueView::Text(category[2]),
        SqlValueView::Text(category[0]),
        SqlValueView::Text(category[3]),
        SqlValueView::Text(manufacturer[0]),
        SqlValueView::Text(manufacturer[1]),
        SqlValueView::Number(material[7]),
        SqlValueView::Text(material[8]),
    ]
}

/// What is written of a material reads back as that material, but for what
/// the store does not keep: the image is gone, and a manufacturer without a
/// country has the country under which it was stored.
pub proof fn lemma_row_reads_back(m: Ec3Material)
    requires
        m.wf(),
    ensures
        row_material(selected_row(m@)) == Some(
            Ec3MaterialView {
                image: None,
                manufacturer: ManufacturerView {
                    country: Some(crate::rows::stored_country(m@.manufacturer.country)),
                    ..m@.manufacturer
                },
                ..m@
            },
        ),
{
    let cells = selected_row(m@);
    crate::units::lemma_gwp_unit_name_reads_back(m.gwp.unit);
    crate::units::lemma_unit_name_reads_back(m.declared_unit.unit);
    assert(number_cell(cells[3]) == Some(m@.gwp.value));
    assert(number_cell(cells[11]) == Some(m@.declared_unit.value));
    assert forall|i: int| 0 <= i < 13 && i != 3 && i != 11 implies text_cell(
        #[trigger] cells[i],
    ) is Some by {
        if i == 0 {
        } else if i == 1 {
        } else if i == 2 {
        } else if i == 4 {
        } else if i == 5 {
        } else if i == 6 {
        } else if i == 7 {
        } else if i == 8 {
        } else if i == 9 {
        } else if i == 10 {
        } else {
            assert(i == 12);
        }
    }
    assert(is_material_row(cells));
}

} // verus!
