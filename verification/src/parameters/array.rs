//! Arrays of amounts, kept by `ndarray`.

use vstd::prelude::*;
use crate::value::Value;

verus! {

/// A one-dimensional array of amounts.
#[verifier::external_body]
pub struct Array1 {
    inner: ndarray::Array1<i64>,
}

/// A two-dimensional array of amounts.
#[verifier::external_body]
pub struct Array2 {
    inner: ndarray::Array2<i64>,
}

/// The elements of a one-dimensional array, in order.
pub uninterp spec fn array1_values(array: Array1) -> Seq<i64>;

/// The rows of a two-dimensional array, each with its elements in order.
pub uninterp spec fn array2_rows(array: Array2) -> Seq<Seq<i64>>;

/// `ndarray::Array1::from_vec`: the array holds the elements of the vector, in
/// their order. For elements of eight bytes it does not panic.
#[verifier::external_body]
fn array1_from_vec(values: Vec<i64>) -> (r: Array1)
    ensures
        array1_values(r) == values@,
{
    Array1 { inner: ndarray::Array1::from_vec(values) }
}

/// `ndarray::ArrayBase::get` with one index: the element there, or nothing
/// where the index is not below the length.
#[verifier::external_body]
fn array1_get(array: &Array1, index: usize) -> (r: Option<i64>)
    ensures
        r == if index < array1_values(*array).len() {
            Some(array1_values(*array)[index as int])
        } else {
            None::<i64>
        },
{
    array.inner.get(index).copied()
}

/// `ndarray::ArrayBase::len` of a one-dimensional array: the number of its
/// elements.
#[verifier::external_body]
fn array1_len(array: &Array1) -> (r: usize)
    ensures
        r == array1_values(*array).len(),
{
    array.inner.len()
}

/// The rows that `rows * columns` amounts make when they are laid out row by
/// row.
pub open spec fn laid_out(rows: usize, columns: usize, values: Seq<i64>) -> Seq<Seq<i64>> {
    Seq::new(rows as nat, |i: int| values.subrange(i * columns, (i + 1) * columns))
}

/// `ndarray::Array2::from_shape_vec` with a shape of rows and columns: an array
/// comes back only where rows times columns is the number of elements, and then
/// row `i` holds the elements from `i * columns` on; with at least one row and
/// one column it does come back.
#[verifier::external_body]
fn array2_from_shape_vec(rows: usize, columns: usize, values: Vec<i64>) -> (r: Option<Array2>)
    ensures
        r.is_some() ==> rows * columns == values.len() && array2_rows(r.unwrap()) == laid_out(
            rows,
            columns,
            values@,
        ),
        rows > 0 && columns > 0 && rows * columns == values.len() ==> r.is_some(),
{
    match ndarray::Array2::from_shape_vec((rows, columns), values) {
        Ok(inner) => Some(Array2 { inner }),
        Err(_) => None,
    }
}

/// The element at a row and a column, if the rows reach that far.
pub open spec fn element_at(rows: Seq<Seq<i64>>, row: usize, column: usize) -> Option<i64> {
    if row < rows.len() && column < rows[row as int].len() {
        Some(rows[row as int][column as int])
    } else {
        None
    }
}

/// `ndarray::ArrayBase::get` with a row and a column: the element there, or
/// nothing where the array has no such row or the row no such column.
#[verifier::external_body]
fn array2_get(array: &Array2, row: usize, column: usize) -> (r: Option<i64>)
    ensures
        r == element_at(array2_rows(*array), row, column),
{
    array.inner.get((row, column)).copied()
}

impl View for Array1 {
    type V = Seq<i64>;

    open spec fn view(&self) -> Seq<i64> {
        array1_values(*self)
    }
}

impl View for Array2 {
    type V = Seq<Seq<i64>>;

    open spec fn view(&self) -> Seq<Seq<i64>> {
        array2_rows(*self)
    }
}

impl Array1 {
    /// An array of the given amounts.
    pub fn from_vec(values: Vec<Value>) -> (r: Self)
        ensures
            r@ == values@,
    {
        array1_from_vec(values)
    }

    /// The amount at `index`, if there is one.
    pub fn get(&self, index: usize) -> (r: Option<Value>)
        ensures
            r == if index < self@.len() {
                Some(self@[index as int])
            } else {
                None::<i64>
            },
    {
        array1_get(self, index)
    }

    /// The number of amounts.
    pub fn len(&self) -> (r: usize)
        ensures
            r == self@.len(),
    {
        array1_len(self)
    }
}

impl Array2 {
    /// An array of `rows` rows and `columns` columns, filled row by row from
    /// `values`; nothing where `values` holds more or fewer amounts, or where
    /// there is no row or no column.
    pub fn from_shape_vec(rows: usize, columns: usize, values: Vec<Value>) -> (r: Option<Self>)
        ensures
            r.is_some() <==> rows > 0 && columns > 0 && rows * columns == values.len(),
            r.is_some() ==> r.unwrap()@ == laid_out(rows, columns, values@),
    {
        if rows == 0 || columns == 0 {
            None
        } else {
            array2_from_shape_vec(rows, columns, values)
        }
    }

    /// The amount at a row and a column, if there is one.
    pub fn get(&self, row: usize, column: usize) -> (r: Option<Value>)
        ensures
            r == element_at(self@, row, column),
    {
        array2_get(self, row, column)
    }
}

} // verus!
