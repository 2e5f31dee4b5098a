//! Exchange of a buffer field's contents with the host language: copies
//! for reading and writing, and single swaps that move the buffer out.
use vstd::prelude::*;
use crate::container::List;
use crate::error::Error;

verus! {

/// The field after a read, and the value handed out: the field unchanged
/// and a copy of it.
pub open spec fn spec_get<T>(field: Seq<T>) -> (Seq<T>, Seq<T>) {
    (field, field)
}

/// The field after a take, and the value handed out: the field emptied and
/// its former contents.
pub open spec fn spec_take<T>(field: Seq<T>) -> (Seq<T>, Seq<T>) {
    (Seq::empty(), field)
}

/// The field after a replace by `src`, and the value handed out: the field
/// holding `src` and its former contents.
pub open spec fn spec_replace<T>(field: Seq<T>, src: Seq<T>) -> (Seq<T>, Seq<T>) {
    (src, field)
}

/// What an optional buffer supplies: its contents, or nothing.
pub open spec fn spec_supplied<T>(src: Option<Vec<T>>) -> Seq<T> {
    match src {
        Some(v) => v@,
        None => Seq::empty(),
    }
}

/// A copy of the field's contents as a new container.
pub fn get_field<T: Copy>(field: &Vec<T>) -> (r: List<T>)
    ensures
        (field@, r@) == spec_get(field@),
{
    List::new(crate::container::copy_elements(field))
}

/// Copies the contents of `list` into the field; `list` stays usable.
pub fn set_field<T: Copy>(field: &mut Vec<T>, list: &List<T>)
    ensures
        final(field)@ == list@,
{
    *field = list.to_list();
}

/// Moves the field's contents out as a container, leaving the field empty.
pub fn take_field<T: Copy>(field: &mut Vec<T>) -> (r: List<T>)
    ensures
        (final(field)@, r@) == spec_take(old(field)@),
{
    let mut data: Vec<T> = Vec::new();
    std::mem::swap(field, &mut data);
    List::new(data)
}

/// Moves the contents of `src` into the field in one swap and hands back
/// the field's former contents as a container.
pub fn replace_field<T: Copy>(field: &mut Vec<T>, src: List<T>) -> (r: List<T>)
    ensures
        (final(field)@, r@) == spec_replace(old(field)@, src@),
{
    let mut data = src.into_vec();
    std::mem::swap(field, &mut data);
    List::new(data)
}

/// Moves the supplied buffer (nothing supplied meaning an empty one) into
/// the field in one swap and hands back the field's former contents.
pub fn replace_contents<T>(field: &mut Vec<T>, src: Option<Vec<T>>) -> (r: Vec<T>)
    ensures
        (final(field)@, r@) == spec_replace(old(field)@, spec_supplied(src)),
{
    let mut data = match src {
        Some(v) => v,
        None => Vec::new(),
    };
    std::mem::swap(field, &mut data);
    data
}

/// The contents of a sequence of byte rows, row by row.
pub open spec fn rows_view(rs: Seq<Vec<u8>>) -> Seq<Seq<u8>> {
    rs.map_values(|r: Vec<u8>| r@)
}

/// Whether every row has `cols` elements.
pub open spec fn all_rows_have(rs: Seq<Seq<u8>>, cols: nat) -> bool {
    forall|i: int| 0 <= i < rs.len() ==> (#[trigger] rs[i]).len() == cols
}

/// Whether every row has the length of the first.
pub open spec fn is_rectangular(rs: Seq<Seq<u8>>) -> bool {
    rs.len() == 0 || all_rows_have(rs, rs[0].len())
}

/// `data` cut into `rows` consecutive rows of `cols` elements.
pub open spec fn chunk_rows(data: Seq<u8>, rows: nat, cols: nat) -> Seq<Seq<u8>> {
    Seq::new(rows, |i: int| data.subrange(i * cols, i * cols + cols))
}

/// A rectangular buffer of bytes: rows of one common length.
#[derive(Debug)]
pub struct Matrix {
    cols: usize,
    rows: Vec<Vec<u8>>,
}

impl View for Matrix {
    type V = Seq<Seq<u8>>;

    closed spec fn view(&self) -> Seq<Seq<u8>> {
        rows_view(self.rows@)
    }
}

impl Matrix {
    #[verifier::type_invariant]
    spec fn inv(&self) -> bool {
        all_rows_have(rows_view(self.rows@), self.cols as nat)
    }

    /// The length of every row.
    pub closed spec fn spec_cols(&self) -> nat {
        self.cols as nat
    }

    /// The flat buffer `data` of shape `rows` x `cols`, cut into rows; a
    /// dimension mismatch where `data` does not hold exactly `rows * cols`
    /// elements.
    pub fn new(rows: usize, cols: usize, data: &[u8]) -> (r: Result<Matrix, Error>)
        ensures
            (r is Ok) == (data@.len() == rows * cols),
            r matches Ok(m) ==> m@ == chunk_rows(data@, rows as nat, cols as nat)
                && m.spec_cols() == cols,
            r matches Err(e) ==> e is DimensionMismatch,
    {
        let n = data.len();
        let fits = if cols == 0 {
            n == 0
        } else {
            n % cols == 0 && n / cols == rows
        };
        proof {
            if cols > 0 {
                let (c, len, rw) = (cols as int, n as int, rows as int);
                assert(len == c * (len / c) + len % c) by (nonlinear_arith)
                    requires c > 0;
                if len == rw * c {
                    assert(len % c == 0 && len / c == rw) by (nonlinear_arith)
                        requires len == rw * c, c > 0, rw >= 0;
                }
            } else {
                assert(rows * cols == 0) by (nonlinear_arith)
                    requires cols == 0;
            }
        }
        if !fits {
            return Err(Error::DimensionMismatch { expected: cols, found: n });
        }
        proof {
            if cols > 0 {
                let (c, len, rw) = (cols as int, n as int, rows as int);
                assert(len == rw * c) by (nonlinear_arith)
                    requires len == c * (len / c) + len % c, len % c == 0, len / c == rw;
            }
        }
        let mut out: Vec<Vec<u8>> = Vec::with_capacity(rows);
        let mut i: usize = 0;
        while i < rows
            invariant
                n == data@.len(),
                n == rows * cols,
                i <= rows,
                rows_view(out@) == chunk_rows(data@, i as nat, cols as nat),
                all_rows_have(rows_view(out@), cols as nat),
            decreases rows - i,
        {
            proof {
                assert((i + 1) * cols <= rows * cols) by (nonlinear_arith)
                    requires i < rows;
                assert((i + 1) * cols == i * cols + cols) by (nonlinear_arith);
            }
            let start = i * cols;
            let mut row: Vec<u8> = Vec::with_capacity(cols);
            let mut j: usize = 0;
            while j < cols
                invariant
                    n == data@.len(),
                    start + cols <= n,
                    j <= cols,
                    row@ == data@.subrange(start as int, start + j),
                decreases cols - j,
            {
                row.push(data[start + j]);
                assert(row@ =~= data@.subrange(start as int, start + j + 1));
                j = j + 1;
            }
            let ghost before = out@;
            assert(row@ =~= data@.subrange(i * cols, i * cols + cols));
            out.push(row);
            assert(rows_view(out@) =~= rows_view(before).push(row@));
            assert(chunk_rows(data@, (i + 1) as nat, cols as nat) =~= chunk_rows(
                data@,
                i as nat,
                cols as nat,
            ).push(data@.subrange(i * cols, i * cols + cols)));
            i = i + 1;
        }
        Ok(Matrix { cols, rows: out })
    }

    /// The rows as given, when they all have one length; a dimension
    /// mismatch otherwise. The rows are moved, not copied.
    pub fn from_rows(rows: Vec<Vec<u8>>) -> (r: Result<Matrix, Error>)
        ensures
            (r is Ok) == is_rectangular(rows_view(rows@)),
            r matches Ok(m) ==> m@ == rows_view(rows@),
            r matches Err(e) ==> e is DimensionMismatch,
    {
        if let Some((expected, found)) = find_ragged_row(&rows) {
            return Err(Error::DimensionMismatch { expected, found });
        }
        let cols = if rows.len() == 0 {
            0
        } else {
            rows[0].len()
        };
        assert(rows@.len() > 0 ==> rows_view(rows@)[0] == rows@[0]@);
        Ok(Matrix { cols, rows })
    }

    /// The number of rows.
    pub fn row_count(&self) -> (r: usize)
        ensures
            r == self@.len(),
    {
        self.rows.len()
    }

    /// The length of every row.
    pub fn col_count(&self) -> (r: usize)
        ensures
            r == self.spec_cols(),
    {
        self.cols
    }

    /// The rows, borrowed.
    pub fn rows(&self) -> (r: &Vec<Vec<u8>>)
        ensures
            rows_view(r@) == self@,
    {
        &self.rows
    }

    /// The rows, moved out.
    pub fn into_rows(self) -> (r: Vec<Vec<u8>>)
        ensures
            rows_view(r@) == self@,
    {
        self.rows
    }
}

/// `None` where all rows of `rows` have one length; otherwise the length of
/// the first row and that of the first row that differs from it.
fn find_ragged_row(rows: &Vec<Vec<u8>>) -> (r: Option<(usize, usize)>)
    ensures
        (r is None) == is_rectangular(rows_view(rows@)),
{
    if rows.len() == 0 {
        return None;
    }
    let cols = rows[0].len();
    let mut i: usize = 0;
    while i < rows.len()
        invariant
            rows@.len() > 0,
            cols == rows@[0]@.len(),
            i <= rows@.len(),
            forall|k: int| 0 <= k < i ==> (#[trigger] rows@[k])@.len() == cols,
        decreases rows@.len() - i,
    {
        if rows[i].len() != cols {
            assert(rows_view(rows@)[i as int] == rows@[i as int]@);
            return Some((cols, rows[i].len()));
        }
        i = i + 1;
    }
    assert forall|k: int| 0 <= k < rows_view(rows@).len() implies (#[trigger] rows_view(
        rows@,
    )[k]).len() == cols by {
        assert(rows_view(rows@)[k] == rows@[k]@);
    }
    None
}

/// Moves the rows of `src` (nothing supplied meaning no rows) into a byte
/// rows field in one swap and hands back the field's former rows as a
/// rectangular buffer. Where the former rows are not all of one length the
/// exchange does not happen: the field is left as it was and a dimension
/// mismatch is returned.
pub fn replace_rows(field: &mut Vec<Vec<u8>>, src: Option<Matrix>) -> (r: Result<Matrix, Error>)
    ensures
        (r is Ok) == is_rectangular(rows_view(old(field)@)),
        r matches Ok(m) ==> m@ == rows_view(old(field)@) && rows_view(final(field)@) == match src {
            Some(s) => s@,
            None => Seq::<Seq<u8>>::empty(),
        },
        r matches Err(e) ==> e is DimensionMismatch && final(field)@ == old(field)@,
{
    if let Some((expected, found)) = find_ragged_row(field) {
        return Err(Error::DimensionMismatch { expected, found });
    }
    let mut data: Vec<Vec<u8>> = match src {
        Some(m) => m.into_rows(),
        None => Vec::new(),
    };
    assert(src is None ==> rows_view(data@) =~= Seq::<Seq<u8>>::empty());
    std::mem::swap(field, &mut data);
    Matrix::from_rows(data)
}

/// Reading a field twice hands out its contents both times, and the field
/// keeps them.
pub proof fn lemma_get_twice<T>(s: Seq<T>)
    ensures
        spec_get(s).1 == s,
        spec_get(spec_get(s).0).1 == s,
        spec_get(spec_get(s).0).0 == s,
{
}

/// Taking a field hands out its contents exactly once: the taken value is
/// the former contents and a later read finds the field empty.
pub proof fn lemma_take_moves_once<T>(s: Seq<T>)
    ensures
        spec_take(s).1 == s,
        spec_get(spec_take(s).0).1 == Seq::<T>::empty(),
        spec_take(spec_take(s).0).1 == Seq::<T>::empty(),
{
}

/// Replacing the contents `s1` of a field by `s2` hands out `s1` and leaves
/// `s2` in the field.
pub proof fn lemma_replace_swaps<T>(s1: Seq<T>, s2: Seq<T>)
    ensures
        spec_replace(s1, s2).1 == s1,
        spec_replace(s1, s2).0 == s2,
        spec_get(spec_replace(s1, s2).0).1 == s2,
{
}

} // verus!
