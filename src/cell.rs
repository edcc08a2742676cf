//! Cells: the native library's fixed-capacity arrays with a control header.
//!
//! A [`Cell`] owns its storage, laid out as the native side expects: a control area of
//! [`CELL_CONTROL_SIZE`] slots followed by `size` element slots, each slot `length` items wide (one
//! item for numeric cells, one string for character cells). For a native call the cell is handed
//! over as a [`NativeCell`] and taken back afterwards, with its layout checked again.
use vstd::prelude::*;
use crate::common::{comparison_name, ComparisonOperator, Side};
use crate::string::{nul_free, NulError, SpiceString};
use vstd::string::StringSliceAdditionalSpecFns;
use crate::error::Error;

verus! {

/// Slots of the control area in front of a cell's elements.
pub const CELL_CONTROL_SIZE: usize = 6;

/// The largest value of the native integer type.
pub const SPICE_INT_MAX: usize = 2147483647;

/// The native integer the native side uses for "true".
pub const SPICE_TRUE: i32 = 1;

/// What a cell holds.
#[derive(Copy, Clone, Debug, PartialEq, Eq, Structural)]
pub enum CellKind {
    Char,
    Double,
    Int,
}

/// A type whose values a cell can hold, with the kind of cell that holds it.
pub trait CellType {
    fn kind() -> CellKind;
}

impl CellType for i32 {
    fn kind() -> CellKind {
        CellKind::Int
    }
}

impl CellType for u8 {
    fn kind() -> CellKind {
        CellKind::Char
    }
}

/// The native code of `kind`.
pub open spec fn kind_code(kind: CellKind) -> i32 {
    match kind {
        CellKind::Char => 0,
        CellKind::Double => 1,
        CellKind::Int => 2,
    }
}

/// The abstract state of a cell.
pub ghost struct CellView<T> {
    pub kind: CellKind,
    /// Items per slot.
    pub length: nat,
    /// Capacity in elements.
    pub size: nat,
    /// Elements held.
    pub card: nat,
    pub is_set: bool,
    pub adjust: bool,
    pub init: bool,
    /// Control area and element slots, in order.
    pub storage: Seq<T>,
}

/// The layout of a cell of `size` elements, `length` items each, fits the native integer and
/// the address space.
pub open spec fn layout_fits(size: int, length: int) -> bool {
    &&& 1 <= length <= SPICE_INT_MAX
    &&& 0 <= size <= SPICE_INT_MAX
    &&& (CELL_CONTROL_SIZE + size) * length <= usize::MAX
}

impl<T> CellView<T> {
    /// The header and the storage agree.
    pub open spec fn wf(self) -> bool {
        &&& layout_fits(self.size as int, self.length as int)
        &&& self.card <= self.size
        &&& self.storage.len() == (CELL_CONTROL_SIZE + self.size) * self.length
    }
}

/// A cell as the native side sees it: the header in native integers, and the storage, which the
/// native call receives a pointer into for its duration only.
pub struct NativeCell<T> {
    pub dtype: i32,
    pub length: i32,
    pub size: i32,
    pub card: i32,
    pub is_set: bool,
    pub adjust: bool,
    pub init: bool,
    /// Where the elements start in `storage`.
    pub data_offset: usize,
    pub storage: Vec<T>,
}

/// The requested cell does not fit the native integer or the address space.
#[derive(Debug, Clone, Copy, PartialEq, Eq)]
pub struct CellSizeError;

/// A native call left a header that does not describe the storage it was given.
#[derive(Debug, Clone, Copy, PartialEq, Eq)]
pub struct CellLayoutError;

/// A native cell with its storage.
pub struct Cell<T> {
    kind: CellKind,
    length: usize,
    size: usize,
    card: usize,
    is_set: bool,
    adjust: bool,
    init: bool,
    data: Vec<T>,
}

impl<T> View for Cell<T> {
    type V = CellView<T>;

    closed spec fn view(&self) -> CellView<T> {
        CellView {
            kind: self.kind,
            length: self.length as nat,
            size: self.size as nat,
            card: self.card as nat,
            is_set: self.is_set,
            adjust: self.adjust,
            init: self.init,
            storage: self.data@,
        }
    }
}

/// Summary of a double precision window, but for the measures, which are the caller's.
#[derive(Debug, Clone, Copy, PartialEq, Eq)]
pub struct WindowSummary {
    pub shortest_interval_index: usize,
    pub longest_interval_index: usize,
}

/// The cell size `n` as a native integer, or `None` when it is out of the native range.
fn native_int(n: usize) -> (r: Option<i32>)
    ensures
        r is Some <==> n <= SPICE_INT_MAX,
        r matches Some(v) ==> v == n,
{
    if n <= SPICE_INT_MAX {
        Some(n as i32)
    } else {
        None
    }
}

/// Passes the error of a failed call on, or reads the native boolean it returned.
fn native_bool(status: Result<(), Error>, out: i32) -> (r: Result<bool, Error>)
    ensures
        status matches Err(e) ==> r == Err::<bool, Error>(e),
        status is Ok ==> r == Ok::<bool, Error>(out == SPICE_TRUE),
{
    match status {
        Err(e) => Err(e),
        Ok(()) => Ok(out == SPICE_TRUE),
    }
}

impl<T> Cell<T> {
    #[verifier::type_invariant]
    spec fn inv(&self) -> bool {
        self@.wf()
    }
}

impl<T: Copy> Cell<T> {
    /// An empty cell of `kind` with room for `size` elements of `length` items each, all slots
    /// filled with `fill`.
    ///
    /// Fails when the layout does not fit the native integer or the address space.
    pub fn new(kind: CellKind, size: usize, length: usize, fill: T) -> (r: Result<
        Cell<T>,
        CellSizeError,
    >)
        ensures
            r is Ok <==> layout_fits(size as int, length as int),
            r matches Ok(c) ==> c@ == (CellView {
                kind,
                length: length as nat,
                size: size as nat,
                card: 0,
                is_set: true,
                adjust: false,
                init: false,
                storage: Seq::new(
                    ((CELL_CONTROL_SIZE + size) * length) as nat,
                    |i: int| fill,
                ),
            }),
    {
        if length < 1 || length > SPICE_INT_MAX || size > SPICE_INT_MAX {
            return Err(CellSizeError);
        }
        let slots = CELL_CONTROL_SIZE + size;
        if slots > usize::MAX / length {
            proof {
                assert(slots * length > usize::MAX) by (nonlinear_arith)
                    requires
                        slots > usize::MAX / length,
                        length >= 1,
                ;
            }
            return Err(CellSizeError);
        }
        proof {
            assert(slots * length <= usize::MAX) by (nonlinear_arith)
                requires
                    slots <= usize::MAX / length,
                    length >= 1,
            ;
        }
        let total = slots * length;
        let mut data: Vec<T> = Vec::new();
        let mut i: usize = 0;
        while i < total
            invariant
                i <= total,
                data@ == Seq::new(i as nat, |j: int| fill),
            decreases total - i,
        {
            data.push(fill);
            assert(data@ =~= Seq::new((i + 1) as nat, |j: int| fill));
            i = i + 1;
        }
        assert(data@ =~= Seq::new(total as nat, |j: int| fill));
        Ok(Cell { kind, length, size, card: 0, is_set: true, adjust: false, init: false, data })
    }

    /// What the cell holds.
    pub fn kind(&self) -> (r: CellKind)
        ensures
            r == self@.kind,
    {
        self.kind
    }

    /// The size (maximum cardinality) of the cell.
    pub fn get_size(&self) -> (r: usize)
        ensures
            r == self@.size,
    {
        self.size
    }

    /// The cardinality (current number of elements) of the cell.
    pub fn get_cardinality(&self) -> (r: usize)
        ensures
            r == self@.card,
            r <= self@.size,
    {
        proof {
            use_type_invariant(self);
        }
        self.card
    }

    /// Hands the cell over for a native call: the header in native integers and the storage.
    pub fn into_native(self) -> (r: NativeCell<T>)
        ensures
            r.dtype == kind_code(self@.kind),
            r.length == self@.length,
            r.size == self@.size,
            r.card == self@.card,
            r.is_set == self@.is_set,
            r.adjust == self@.adjust,
            r.init == self@.init,
            r.data_offset == CELL_CONTROL_SIZE * self@.length,
            r.data_offset <= r.storage@.len(),
            r.storage@ == self@.storage,
    {
        proof {
            use_type_invariant(&self);
            assert(CELL_CONTROL_SIZE * self.length <= (CELL_CONTROL_SIZE + self.size) * self.length)
                by (nonlinear_arith)
                requires
                    self.length >= 1,
            ;
        }
        let dtype: i32 = match self.kind {
            CellKind::Char => 0,
            CellKind::Double => 1,
            CellKind::Int => 2,
        };
        NativeCell {
            dtype,
            length: self.length as i32,
            size: self.size as i32,
            card: self.card as i32,
            is_set: self.is_set,
            adjust: self.adjust,
            init: self.init,
            data_offset: CELL_CONTROL_SIZE * self.length,
            storage: self.data,
        }
    }

    /// Takes a cell back after a native call.
    ///
    /// Fails when the header no longer describes the storage: an unknown type code, a length or
    /// size out of range, a cardinality above the size, or storage of the wrong length.
    pub fn from_native(native: NativeCell<T>) -> (r: Result<Cell<T>, CellLayoutError>)
        ensures
            r is Ok <==> (0 <= native.dtype <= 2 && layout_fits(
                native.size as int,
                native.length as int,
            ) && 0 <= native.card <= native.size && native.storage@.len() == (CELL_CONTROL_SIZE
                + native.size) * native.length),
            r matches Ok(c) ==> kind_code(c@.kind) == native.dtype && c@.length == native.length
                && c@.size == native.size && c@.card == native.card && c@.is_set == native.is_set
                && c@.adjust == native.adjust && c@.init == native.init && c@.storage
                == native.storage@,
    {
        let kind = if native.dtype == 0 {
            CellKind::Char
        } else if native.dtype == 1 {
            CellKind::Double
        } else if native.dtype == 2 {
            CellKind::Int
        } else {
            return Err(CellLayoutError);
        };
        if native.length < 1 || native.size < 0 || native.card < 0 || native.card > native.size {
            return Err(CellLayoutError);
        }
        let length = native.length as usize;
        let size = native.size as usize;
        let slots = CELL_CONTROL_SIZE + size;
        if slots > usize::MAX / length {
            proof {
                assert(slots * length > usize::MAX) by (nonlinear_arith)
                    requires
                        slots > usize::MAX / length,
                        length >= 1,
                ;
            }
            return Err(CellLayoutError);
        }
        proof {
            assert(slots * length <= usize::MAX) by (nonlinear_arith)
                requires
                    slots <= usize::MAX / length,
                    length >= 1,
            ;
        }
        if native.storage.len() != slots * length {
            return Err(CellLayoutError);
        }
        Ok(
            Cell {
                kind,
                length,
                size,
                card: native.card as usize,
                is_set: native.is_set,
                adjust: native.adjust,
                init: native.init,
                data: native.storage,
            },
        )
    }

    /// The native argument that sets the cardinality to `cardinality`, or `None` when it is out
    /// of the native integer range. Whether it fits the cell the native side decides.
    pub fn set_cardinality(&self, cardinality: usize) -> (r: Option<i32>)
        ensures
            r is Some <==> cardinality <= SPICE_INT_MAX,
            r matches Some(v) ==> v == cardinality,
    {
        native_int(cardinality)
    }

    /// The number of intervals of the window, from the native count `out` of a call that ended
    /// with `status`.
    pub fn window_cardinality(&self, status: Result<(), Error>, out: i32) -> (r: Result<
        usize,
        Error,
    >)
        requires
            status is Ok ==> out >= 0,
        ensures
            status matches Err(e) ==> r == Err::<usize, Error>(e),
            status is Ok ==> r == Ok::<usize, Error>(out as usize),
    {
        match status {
            Err(e) => Err(e),
            Ok(()) => Ok(out as usize),
        }
    }

    /// Whether the window holds the point, from the native answer `out` of a call that ended
    /// with `status`.
    pub fn window_contains_element(&self, status: Result<(), Error>, out: i32) -> (r: Result<
        bool,
        Error,
    >)
        ensures
            status matches Err(e) ==> r == Err::<bool, Error>(e),
            status is Ok ==> r == Ok::<bool, Error>(out == SPICE_TRUE),
    {
        native_bool(status, out)
    }

    /// Whether the window includes the interval, from the native answer `out` of a call that
    /// ended with `status`.
    pub fn window_contains_interval(&self, status: Result<(), Error>, out: i32) -> (r: Result<
        bool,
        Error,
    >)
        ensures
            status matches Err(e) ==> r == Err::<bool, Error>(e),
            status is Ok ==> r == Ok::<bool, Error>(out == SPICE_TRUE),
    {
        native_bool(status, out)
    }

    /// The native index of the `n`th interval to fetch, or `None` when it is out of the native
    /// integer range.
    pub fn window_interval(&self, n: usize) -> (r: Option<i32>)
        ensures
            r is Some <==> n <= SPICE_INT_MAX,
            r matches Some(v) ==> v == n,
    {
        native_int(n)
    }

    /// The native arguments that form a window of `size` from the first `n` endpoints, or
    /// `None` when either is out of the native integer range.
    pub fn window_validate(&self, size: usize, n: usize) -> (r: Option<(i32, i32)>)
        ensures
            r is Some <==> size <= SPICE_INT_MAX && n <= SPICE_INT_MAX,
            r matches Some(v) ==> v.0 == size && v.1 == n,
    {
        match (native_int(size), native_int(n)) {
            (Some(s), Some(k)) => Some((s, k)),
            _ => None,
        }
    }

    /// The native character of the endpoints to extract.
    pub fn window_extract(&self, side: Side) -> (r: u8)
        ensures
            r == match side {
                Side::Left => 'L' as u8,
                Side::Right => 'R' as u8,
            },
    {
        side.as_spice_char()
    }

    /// The native name of the comparison to make of this window against another one.
    pub fn window_compare(&self, comparison_op: ComparisonOperator) -> (r: &'static str)
        ensures
            r@ == comparison_name(comparison_op),
    {
        comparison_op.as_spice_str()
    }

    /// The indices of the shortest and longest intervals, from the native indices of a summary
    /// that ended with `status`.
    pub fn window_summarize(&self, status: Result<(), Error>, shortest: i32, longest: i32) -> (r:
        Result<WindowSummary, Error>)
        requires
            status is Ok ==> shortest >= 0 && longest >= 0,
        ensures
            status matches Err(e) ==> r == Err::<WindowSummary, Error>(e),
            status is Ok ==> r == Ok::<WindowSummary, Error>(
                WindowSummary {
                    shortest_interval_index: shortest as usize,
                    longest_interval_index: longest as usize,
                },
            ),
    {
        match status {
            Err(e) => Err(e),
            Ok(()) => Ok(
                WindowSummary {
                    shortest_interval_index: shortest as usize,
                    longest_interval_index: longest as usize,
                },
            ),
        }
    }
}

impl Cell<i32> {
    /// An empty integer cell with room for `size` elements.
    pub fn new_int(size: usize) -> (r: Result<Cell<i32>, CellSizeError>)
        ensures
            r is Ok <==> size <= SPICE_INT_MAX,
            r matches Ok(c) ==> c@.kind == CellKind::Int && c@.size == size && c@.length == 1
                && c@.card == 0,
    {
        Cell::new(CellKind::Int, size, 1, 0i32)
    }
}

impl Cell<u8> {
    /// An empty character cell with room for `size` strings of `length` bytes each, nul
    /// included.
    pub fn new_char(size: usize, length: usize) -> (r: Result<Cell<u8>, CellSizeError>)
        ensures
            r is Ok <==> layout_fits(size as int, length as int),
            r matches Ok(c) ==> c@.kind == CellKind::Char && c@.size == size && c@.length == length
                && c@.card == 0,
    {
        Cell::new(CellKind::Char, size, length, 0u8)
    }

    /// The native argument that appends `item` to the cell.
    ///
    /// Fails when `item` holds a nul byte, which would end the string early on the native side.
    pub fn append(&self, item: &str) -> (r: Result<SpiceString, NulError>)
        ensures
            r is Ok <==> nul_free(item.spec_bytes()),
            r matches Ok(s) ==> s@ == item.spec_bytes(),
    {
        SpiceString::new(item)
    }
}

} // verus!
