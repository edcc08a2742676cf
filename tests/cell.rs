use cspice::cell::{Cell, CellKind, CELL_CONTROL_SIZE};
use cspice::common::{AberrationCorrection, ComparisonOperator, RelationalOperator, Shape, Side};
use cspice::Error;

fn failure() -> Error {
    Error {
        short_message: "SPICE(INVALIDCARDINALITY)".to_string(),
        explanation: String::new(),
        long_message: String::new(),
        traceback: String::new(),
    }
}

#[test]
fn int_cell_layout() {
    let cell = Cell::new_int(10).unwrap();
    assert_eq!(cell.get_size(), 10);
    assert_eq!(cell.get_cardinality(), 0);
    let native = cell.into_native();
    assert_eq!(native.dtype, 2);
    assert_eq!(native.size, 10);
    assert_eq!(native.length, 1);
    assert_eq!(native.data_offset, CELL_CONTROL_SIZE);
    assert_eq!(native.storage.len(), CELL_CONTROL_SIZE + 10);
    assert!(native.is_set);
}

#[test]
fn char_cell_layout() {
    let cell = Cell::new_char(4, 8).unwrap();
    let native = cell.into_native();
    assert_eq!(native.dtype, 0);
    assert_eq!(native.storage.len(), (CELL_CONTROL_SIZE + 4) * 8);
    assert_eq!(native.data_offset, CELL_CONTROL_SIZE * 8);
}

#[test]
fn oversized_cells_are_refused() {
    assert!(Cell::new_int(1 << 31).is_err());
    assert!(Cell::new_char(4, 0).is_err());
    assert!(Cell::new(CellKind::Double, usize::MAX, 1, 0u64).is_err());
}

#[test]
fn cell_comes_back_from_native() {
    let mut native = Cell::new_int(3).unwrap().into_native();
    native.card = 2;
    native.storage[CELL_CONTROL_SIZE] = 5;
    let cell = Cell::from_native(native).unwrap();
    assert_eq!(cell.get_cardinality(), 2);
    assert_eq!(cell.kind(), CellKind::Int);

    let mut bad = Cell::new_int(3).unwrap().into_native();
    bad.card = 4;
    assert!(Cell::from_native(bad).is_err());
    let mut short = Cell::new_int(3).unwrap().into_native();
    short.storage.pop();
    assert!(Cell::from_native(short).is_err());
    let mut unknown = Cell::new_int(3).unwrap().into_native();
    unknown.dtype = 7;
    assert!(Cell::from_native(unknown).is_err());
}

#[test]
fn cell_arguments() {
    let cell = Cell::new_int(3).unwrap();
    assert_eq!(cell.set_cardinality(2), Some(2));
    assert_eq!(cell.set_cardinality(1 << 31), None);
    assert_eq!(cell.window_interval(4), Some(4));
    assert_eq!(cell.window_validate(8, 4), Some((8, 4)));
    assert_eq!(cell.window_validate(1 << 40, 4), None);
    assert_eq!(cell.window_extract(Side::Left), b'L');
    assert_eq!(cell.window_extract(Side::Right), b'R');
    assert_eq!(cell.window_compare(ComparisonOperator::NE), "<>");
    let chars = Cell::new_char(2, 6).unwrap();
    assert_eq!(chars.append("moon").unwrap().as_bytes_with_nul(), b"moon\0");
    assert_eq!(chars.append("mo\0on").unwrap_err().position, 2);
}

#[test]
fn cell_answers() {
    let cell = Cell::new_int(3).unwrap();
    assert_eq!(cell.window_contains_element(Ok(()), 1).unwrap(), true);
    assert_eq!(cell.window_contains_interval(Ok(()), 0).unwrap(), false);
    assert_eq!(cell.window_cardinality(Ok(()), 3).unwrap(), 3);
    assert!(cell.window_cardinality(Err(failure()), 3).is_err());
    let summary = cell.window_summarize(Ok(()), 1, 2).unwrap();
    assert_eq!(summary.shortest_interval_index, 1);
    assert_eq!(summary.longest_interval_index, 2);
    assert_eq!(
        cell.window_contains_element(Err(failure()), 1).unwrap_err().short_message,
        "SPICE(INVALIDCARDINALITY)"
    );
}

#[test]
fn native_names() {
    assert_eq!(AberrationCorrection::LT_S.as_spice_str(), "LT+S");
    assert_eq!(AberrationCorrection::NONE.as_spice_str(), "NONE");
    assert_eq!(Shape::Sphere.as_spice_str(), "SPHERE");
    assert_eq!(RelationalOperator::LocalMin.as_spice_str(), "LOCMIN");
    assert_eq!(ComparisonOperator::LEQ.as_spice_str(), "<=");
    assert_eq!(Side::Left.as_spice_char(), b'L');
}
