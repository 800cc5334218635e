//! A text table whose columns widen to fit their widest cell.
use vstd::prelude::*;
use crate::text::{push_char, push_repeat, push_str, repeat_char};
use crate::util::{char_width, cjk_width};

verus! {

/// Columns between the text of a cell and the next cell.
pub const TABLE_PADDING: u16 = 3;

/// The width a column needs for the text `s`: its display width, cut to 16
/// bits, plus the padding.
pub open spec fn needed_width(s: Seq<char>) -> int {
    (cjk_width(s) as u16) + TABLE_PADDING
}

/// Whether `s` fits in a column without overflowing the 16-bit width.
pub open spec fn fits_column(s: Seq<char>) -> bool {
    needed_width(s) <= u16::MAX
}

/// The parts of a string sequence joined end to end.
pub open spec fn joined(parts: Seq<Seq<char>>) -> Seq<char>
    decreases parts.len(),
{
    if parts.len() == 0 {
        Seq::empty()
    } else {
        joined(parts.drop_last()) + parts.last()
    }
}

/// One cell: a space, the text, the filler up to the column width, two spaces.
pub open spec fn cell_text(v: Seq<char>, width: int) -> Seq<char> {
    seq![' '] + v + repeat_char(' ', (width - needed_width(v)) as nat) + seq![' ', ' ']
}

/// What a table view shows: the column headers, their widths, the rows.
pub struct TableModel {
    pub headers: Seq<Seq<char>>,
    pub widths: Seq<int>,
    pub rows: Seq<Seq<Seq<char>>>,
}

/// Whether every column is as wide as its header and each of its cells
/// need, every row having a cell for each column: the cells line up.
pub open spec fn columns_fit(m: TableModel) -> bool {
    &&& m.widths.len() == m.headers.len()
    &&& forall|c: int| 0 <= c < m.headers.len() ==> #[trigger] m.widths[c] >= needed_width(m.headers[c])
    &&& forall|r: int| 0 <= r < m.rows.len() ==> #[trigger] m.rows[r].len() == m.headers.len()
    &&& forall|r: int, c: int|
        0 <= r < m.rows.len() && 0 <= c < m.headers.len() ==> m.widths[c] >= needed_width(
            #[trigger] m.rows[r][c],
        )
}

/// The texts of the cells.
pub open spec fn cell_texts(cells: Seq<&str>) -> Seq<Seq<char>> {
    Seq::new(cells.len(), |i: int| cells[i]@)
}

/// Whether a row has a cell for each of `n` columns, each fitting a column.
pub open spec fn row_fits(cells: Seq<Seq<char>>, n: int) -> bool {
    cells.len() >= n && forall|i: int| 0 <= i < n ==> fits_column(#[trigger] cells[i])
}

/// The table `new` makes: the headers, each column as wide as its header
/// needs, no rows.
pub open spec fn new_model(headers: Seq<Seq<char>>) -> TableModel {
    TableModel {
        headers,
        widths: Seq::new(headers.len(), |i: int| needed_width(headers[i])),
        rows: Seq::empty(),
    }
}

/// The table `add_row` makes: each column widened to what its new cell
/// needs, and the row, cut to the columns, appended.
pub open spec fn add_row_model(m: TableModel, cells: Seq<Seq<char>>) -> TableModel {
    TableModel {
        headers: m.headers,
        widths: Seq::new(
            m.widths.len(),
            |c: int|
                if m.widths[c] < needed_width(cells[c]) {
                    needed_width(cells[c])
                } else {
                    m.widths[c]
                },
        ),
        rows: m.rows.push(Seq::new(m.headers.len(), |c: int| cells[c])),
    }
}

/// The table after `new` with `headers` and then `add_row` with each of `rows` in turn.
pub open spec fn table_after(headers: Seq<Seq<char>>, rows: Seq<Seq<Seq<char>>>) -> TableModel
    decreases rows.len(),
{
    if rows.len() == 0 {
        new_model(headers)
    } else {
        add_row_model(table_after(headers, rows.drop_last()), rows.last())
    }
}

/// The widest need of column `c` over its header and the cells of `rows`.
pub open spec fn widest(headers: Seq<Seq<char>>, rows: Seq<Seq<Seq<char>>>, c: int) -> int
    decreases rows.len(),
{
    if rows.len() == 0 {
        needed_width(headers[c])
    } else {
        let w = widest(headers, rows.drop_last(), c);
        let n = needed_width(rows.last()[c]);
        if w < n {
            n
        } else {
            w
        }
    }
}

/// `widest` is the largest of the needs of the header and of the cells of
/// the column: at least each of them, and equal to one of them.
pub proof fn lemma_widest_is_max(headers: Seq<Seq<char>>, rows: Seq<Seq<Seq<char>>>, c: int)
    ensures
        widest(headers, rows, c) >= needed_width(headers[c]),
        forall|j: int| 0 <= j < rows.len() ==> widest(headers, rows, c) >= needed_width(#[trigger] rows[j][c]),
        widest(headers, rows, c) == needed_width(headers[c]) || exists|j: int|
            0 <= j < rows.len() && widest(headers, rows, c) == needed_width(#[trigger] rows[j][c]),
    decreases rows.len(),
{
    if rows.len() > 0 {
        let init = rows.drop_last();
        lemma_widest_is_max(headers, init, c);
        assert forall|j: int| 0 <= j < rows.len() implies widest(headers, rows, c) >= needed_width(
            #[trigger] rows[j][c],
        ) by {
            if j < rows.len() - 1 {
                assert(rows[j] == init[j]);
            }
        }
        if widest(headers, rows, c) != needed_width(headers[c]) {
            if widest(headers, rows, c) == needed_width(rows.last()[c]) {
                assert(rows[rows.len() - 1] == rows.last());
            } else {
                let j = choose|j: int|
                    0 <= j < init.len() && widest(headers, init, c) == needed_width(#[trigger] init[j][c]);
                assert(rows[j] == init[j]);
            }
        }
    }
}

/// After `new` with `headers` and `add_row` with each of `rows`, each with a
/// cell for every column: the headers are kept, each column is as wide as the
/// widest need of its header and cells (3 more than the widest display width,
/// cut to 16 bits), and the rows are the given ones in call order, cut to the
/// columns.
pub proof fn lemma_table_after_rows(headers: Seq<Seq<char>>, rows: Seq<Seq<Seq<char>>>)
    requires
        forall|j: int| 0 <= j < rows.len() ==> (#[trigger] rows[j]).len() >= headers.len(),
    ensures
        table_after(headers, rows).headers == headers,
        table_after(headers, rows).widths == Seq::new(headers.len(), |c: int| widest(headers, rows, c)),
        table_after(headers, rows).rows == Seq::new(
            rows.len(),
            |j: int| rows[j].subrange(0, headers.len() as int),
        ),
    decreases rows.len(),
{
    if rows.len() == 0 {
        assert(table_after(headers, rows).widths =~= Seq::new(
            headers.len(),
            |c: int| widest(headers, rows, c),
        ));
        assert(table_after(headers, rows).rows =~= Seq::new(
            rows.len(),
            |j: int| rows[j].subrange(0, headers.len() as int),
        ));
    } else {
        let init = rows.drop_last();
        assert forall|j: int| 0 <= j < init.len() implies (#[trigger] init[j]).len() >= headers.len() by {
            assert(init[j] == rows[j]);
        }
        lemma_table_after_rows(headers, init);
        let t = table_after(headers, rows);
        assert(t.widths =~= Seq::new(headers.len(), |c: int| widest(headers, rows, c)));
        assert(rows.last() == rows[rows.len() - 1]);
        assert(Seq::new(headers.len(), |c: int| rows.last()[c]) =~= rows.last().subrange(
            0,
            headers.len() as int,
        ));
        assert(t.rows =~= Seq::new(rows.len(), |j: int| rows[j].subrange(0, headers.len() as int)));
    }
}

/// The header line.
pub open spec fn header_line(m: TableModel) -> Seq<char> {
    joined(Seq::new(m.headers.len(), |c: int| cell_text(m.headers[c], m.widths[c]))) + seq!['\n']
}

/// The line of dashes under the headers, as wide as the columns.
pub open spec fn border_line(m: TableModel) -> Seq<char> {
    joined(Seq::new(m.headers.len(), |c: int| repeat_char('-', m.widths[c] as nat))) + seq!['\n']
}

/// The line of row `r`.
pub open spec fn row_line(m: TableModel, r: int) -> Seq<char> {
    joined(Seq::new(m.headers.len(), |c: int| cell_text(m.rows[r][c], m.widths[c]))) + seq!['\n']
}

/// The whole table: headers, border, rows, and a closing empty line.
pub open spec fn table_text(m: TableModel) -> Seq<char> {
    header_line(m) + border_line(m) + joined(Seq::new(m.rows.len(), |r: int| row_line(m, r)))
        + seq!['\n']
}

pub(crate) proof fn lemma_joined_step(f: spec_fn(int) -> Seq<char>, i: nat)
    ensures
        joined(Seq::new(i + 1, f)) == joined(Seq::new(i, f)) + f(i as int),
{
    assert(Seq::new(i + 1, f).drop_last() =~= Seq::new(i, f));
}

struct TableColumn {
    header: String,
    width: u16,
}

struct TableRow {
    cells: Vec<String>,
}

impl TableColumn {
    fn new(header: &str) -> (r: Self)
        requires
            fits_column(header@),
        ensures
            r.header@ == header@,
            r.width == needed_width(header@),
    {
        TableColumn { header: String::from_str(header), width: (char_width(header) as u16) + TABLE_PADDING }
    }

    fn print_header(&self) -> (r: String)
        requires
            self.width >= needed_width(self.header@),
        ensures
            r@ == cell_text(self.header@, self.width as int),
    {
        print_cell(self.header.as_str(), self.width)
    }

    fn print_border(&self) -> (r: String)
        ensures
            r@ == repeat_char('-', self.width as nat),
    {
        let mut s = String::new();
        push_repeat(&mut s, '-', self.width as usize);
        assert(s@ =~= repeat_char('-', self.width as nat));
        s
    }
}

/// The text of one cell.
fn print_cell(value: &str, width: u16) -> (r: String)
    requires
        width >= needed_width(value@),
    ensures
        r@ == cell_text(value@, width as int),
{
    let count = char_width(value) as u16;
    let right_padding = width - count - TABLE_PADDING;
    let mut s = String::new();
    push_char(&mut s, ' ');
    push_str(&mut s, value);
    push_repeat(&mut s, ' ', right_padding as usize);
    push_char(&mut s, ' ');
    push_char(&mut s, ' ');
    assert(s@ =~= cell_text(value@, width as int));
    s
}

/// A table of text whose columns are as wide as their widest cell plus padding.
pub struct TableView {
    columns: Vec<TableColumn>,
    rows: Vec<TableRow>,
}

impl View for TableView {
    type V = TableModel;

    closed spec fn view(&self) -> TableModel {
        TableModel {
            headers: Seq::new(self.columns@.len(), |c: int| self.columns@[c].header@),
            widths: Seq::new(self.columns@.len(), |c: int| self.columns@[c].width as int),
            rows: Seq::new(
                self.rows@.len(),
                |r: int| Seq::new(self.rows@[r].cells@.len(), |c: int| self.rows@[r].cells@[c]@),
            ),
        }
    }
}

impl TableView {
    /// Every row has a cell for each column, and each column is at least as
    /// wide as its header and each of its cells need.
    #[verifier::type_invariant]
    spec fn inv(self) -> bool {
        &&& forall|r: int| 0 <= r < self.rows@.len() ==> #[trigger] self.rows@[r].cells@.len()
            == self.columns@.len()
        &&& forall|c: int|
            0 <= c < self.columns@.len() ==> #[trigger] self.columns@[c].width >= needed_width(
                self.columns@[c].header@,
            )
        &&& forall|r: int, c: int|
            0 <= r < self.rows@.len() && 0 <= c < self.columns@.len() ==> self.columns@[c].width
                >= needed_width(#[trigger] self.rows@[r].cells@[c]@)
    }

    /// The invariant seen through the view: the cells line up.
    proof fn lemma_inv_fits(self)
        requires
            self.inv(),
        ensures
            columns_fit(self@),
    {
        let m = self@;
        assert forall|c: int| 0 <= c < m.headers.len() implies #[trigger] m.widths[c] >= needed_width(
            m.headers[c],
        ) by {
            assert(self.columns@[c].width >= needed_width(self.columns@[c].header@));
        }
        assert forall|r: int| 0 <= r < m.rows.len() implies #[trigger] m.rows[r].len() == m.headers.len() by {
            assert(self.rows@[r].cells@.len() == self.columns@.len());
        }
        assert forall|r: int, c: int|
            0 <= r < m.rows.len() && 0 <= c < m.headers.len() implies m.widths[c] >= needed_width(
            #[trigger] m.rows[r][c],
        ) by {
            assert(self.rows@[r].cells@.len() == self.columns@.len());
            assert(self.columns@[c].width >= needed_width(self.rows@[r].cells@[c]@));
        }
    }

    /// A table with the given column headers and no rows; each column starts
    /// as wide as its header needs.
    pub fn new(headers: Vec<&str>) -> (r: Self)
        requires
            forall|i: int| 0 <= i < headers@.len() ==> fits_column(#[trigger] headers@[i]@),
        ensures
            r@ == new_model(cell_texts(headers@)),
            columns_fit(r@),
    {
        let n = headers.len();
        let mut columns: Vec<TableColumn> = Vec::new();
        let mut i: usize = 0;
        while i < n
            invariant
                n == headers@.len(),
                i <= n,
                forall|k: int| 0 <= k < headers@.len() ==> fits_column(#[trigger] headers@[k]@),
                columns@.len() == i,
                forall|k: int|
                    0 <= k < i ==> (#[trigger] columns@[k]).header@ == headers@[k]@
                        && columns@[k].width == needed_width(headers@[k]@),
            decreases n - i,
        {
            let col = TableColumn::new(headers[i]);
            columns.push(col);
            i = i + 1;
        }
        let t = TableView { columns, rows: Vec::new() };
        assert(t@.headers =~= cell_texts(headers@));
        assert(t@.widths =~= new_model(cell_texts(headers@)).widths);
        assert(t@.rows =~= Seq::<Seq<Seq<char>>>::empty());
        proof {
            use_type_invariant(&t);
            t.lemma_inv_fits();
        }
        t
    }

    /// Builds the table when every header fits a 16-bit column width, and
    /// gives `None` otherwise.
    pub fn try_new(headers: Vec<&str>) -> (r: Option<Self>)
        ensures
            (forall|i: int| 0 <= i < headers@.len() ==> fits_column(#[trigger] headers@[i]@))
                <==> r is Some,
            r matches Some(t) ==> t@ == new_model(cell_texts(headers@)) && columns_fit(t@),
    {
        let n = headers.len();
        let mut i: usize = 0;
        while i < n
            invariant
                n == headers@.len(),
                i <= n,
                forall|k: int| 0 <= k < i ==> fits_column(#[trigger] headers@[k]@),
            decreases n - i,
        {
            if (char_width(headers[i]) as u16) > u16::MAX - TABLE_PADDING {
                return None;
            }
            i = i + 1;
        }
        Some(Self::new(headers))
    }

    /// Appends a row made of the first cells, one per column, widening each
    /// column that a cell needs more room for.
    pub fn add_row(&mut self, cells: Vec<&str>)
        requires
            row_fits(cell_texts(cells@), old(self)@.headers.len() as int),
        ensures
            final(self)@ == add_row_model(old(self)@, cell_texts(cells@)),
            columns_fit(final(self)@),
    {
        proof {
            use_type_invariant(&*self);
        }
        let mut rows: Vec<TableRow> = Vec::new();
        std::mem::swap(&mut rows, &mut self.rows);
        let mut columns: Vec<TableColumn> = Vec::new();
        std::mem::swap(&mut columns, &mut self.columns);
        let n = columns.len();
        let ghost old_columns = columns@;
        proof {
            assert forall|i: int| 0 <= i < n implies fits_column(#[trigger] cells@[i]@) by {
                assert(cell_texts(cells@)[i] == cells@[i]@);
            }
        }
        let mut row = TableRow { cells: Vec::new() };
        let mut c: usize = 0;
        while c < n
            invariant
                n == columns@.len(),
                n <= cells@.len(),
                c <= n,
                forall|i: int| 0 <= i < n ==> fits_column(#[trigger] cells@[i]@),
                old_columns == old(self).columns@,
                row.cells@.len() == c,
                forall|k: int| 0 <= k < c ==> (#[trigger] row.cells@[k])@ == cells@[k]@,
                forall|k: int|
                    0 <= k < n ==> (#[trigger] columns@[k]).header@ == old_columns[k].header@,
                forall|k: int|
                    0 <= k < c ==> (#[trigger] columns@[k]).width == (if old_columns[k].width
                        < needed_width(cells@[k]@) {
                        needed_width(cells@[k]@)
                    } else {
                        old_columns[k].width as int
                    }),
                forall|k: int|
                    c <= k < n ==> (#[trigger] columns@[k]).width == old_columns[k].width,
            decreases n - c,
        {
            let cell = cells[c];
            row.cells.push(String::from_str(cell));
            let len = (char_width(cell) as u16) + TABLE_PADDING;
            if columns[c].width < len {
                let header = columns[c].header.clone();
                columns.set(c, TableColumn { header, width: len });
            }
            c = c + 1;
        }
        let ghost new_row = row.cells@;
        rows.push(row);
        proof {
            assert forall|r: int, k: int|
                0 <= r < rows@.len() && 0 <= k < columns@.len() implies columns@[k].width
                >= needed_width(#[trigger] rows@[r].cells@[k]@) by {
                if r < old(self).rows@.len() {
                    assert(old(self).rows@[r] == rows@[r]);
                    assert(old(self).columns@[k].width >= needed_width(old(self).rows@[r].cells@[k]@));
                }
            }
            assert forall|r: int| 0 <= r < rows@.len() implies #[trigger] rows@[r].cells@.len()
                == columns@.len() by {
                if r < old(self).rows@.len() {
                    assert(old(self).rows@[r] == rows@[r]);
                }
            }
        }
        std::mem::swap(&mut columns, &mut self.columns);
        std::mem::swap(&mut rows, &mut self.rows);
        proof {
            let ghost nr = self@.rows;
            let ghost last = nr[nr.len() - 1];
            assert(last =~= Seq::new(old(self)@.headers.len(), |c: int| cells@[c]@));
            assert(self@.headers =~= old(self)@.headers);
            assert(self@.widths =~= Seq::new(
                old(self)@.widths.len(),
                |c: int|
                    if old(self)@.widths[c] < needed_width(cells@[c]@) {
                        needed_width(cells@[c]@)
                    } else {
                        old(self)@.widths[c]
                    },
            ));
            assert(nr =~= old(self)@.rows.push(
                Seq::new(old(self)@.headers.len(), |c: int| cells@[c]@),
            ));
            let ct = cell_texts(cells@);
            let want = add_row_model(old(self)@, ct);
            assert(want.widths =~= self@.widths);
            assert(Seq::new(old(self)@.headers.len(), |c: int| ct[c]) =~= Seq::new(
                old(self)@.headers.len(),
                |c: int| cells@[c]@,
            ));
            assert(want.rows =~= self@.rows);
            assert(self@ == want);
            use_type_invariant(&*self);
            (*self).lemma_inv_fits();
        }
    }

    /// Appends the row when every cell fits a 16-bit column width and there
    /// is a cell for each column; returns whether it did.
    pub fn try_add_row(&mut self, cells: Vec<&str>) -> (r: bool)
        ensures
            r == row_fits(cell_texts(cells@), old(self)@.headers.len() as int),
            !r ==> final(self)@ == old(self)@,
            r ==> final(self)@ == add_row_model(old(self)@, cell_texts(cells@)),
            columns_fit(final(self)@),
    {
        proof {
            use_type_invariant(&*self);
            (*self).lemma_inv_fits();
        }
        if cells.len() < self.columns.len() {
            return false;
        }
        let n = self.columns.len();
        let mut i: usize = 0;
        while i < n
            invariant
                n == old(self)@.headers.len(),
                n <= cells@.len(),
                i <= n,
                forall|k: int| 0 <= k < i ==> fits_column(#[trigger] cells@[k]@),
                self@ == old(self)@,
                columns_fit(old(self)@),
            decreases n - i,
        {
            if (char_width(cells[i]) as u16) > u16::MAX - TABLE_PADDING {
                proof {
                    assert(cell_texts(cells@)[i as int] == cells@[i as int]@);
                    assert(!fits_column(cell_texts(cells@)[i as int]));
                }
                return false;
            }
            i = i + 1;
        }
        proof {
            assert forall|k: int| 0 <= k < n implies fits_column(#[trigger] cell_texts(cells@)[k]) by {
                assert(cell_texts(cells@)[k] == cells@[k]@);
            }
        }
        self.add_row(cells);
        true
    }

    /// The text of the table as it is printed: the header line, a border of
    /// dashes, one line per row, then an empty line.
    pub fn print_table(&self) -> (r: String)
        ensures
            r@ == table_text(self@),
    {
        proof {
            use_type_invariant(self);
        }
        let ghost m = self@;
        let n = self.columns.len();
        let mut s = String::new();
        let mut c: usize = 0;
        while c < n
            invariant
                n == self.columns@.len(),
                m == self@,
                c <= n,
                s@ == joined(Seq::new(c as nat, |k: int| cell_text(m.headers[k], m.widths[k]))),
            decreases n - c,
        {
            proof {
                use_type_invariant(self);
                lemma_joined_step(|k: int| cell_text(m.headers[k], m.widths[k]), c as nat);
            }
            let h = self.columns[c].print_header();
            push_str(&mut s, h.as_str());
            c = c + 1;
        }
        push_char(&mut s, '\n');
        let ghost after_header = s@;
        assert(after_header =~= header_line(m));
        c = 0;
        while c < n
            invariant
                n == self.columns@.len(),
                m == self@,
                c <= n,
                after_header == header_line(m),
                s@ == after_header + joined(
                    Seq::new(c as nat, |k: int| repeat_char('-', m.widths[k] as nat)),
                ),
            decreases n - c,
        {
            proof {
                lemma_joined_step(|k: int| repeat_char('-', m.widths[k] as nat), c as nat);
            }
            let b = self.columns[c].print_border();
            push_str(&mut s, b.as_str());
            c = c + 1;
            assert(s@ =~= after_header + joined(
                Seq::new(c as nat, |k: int| repeat_char('-', m.widths[k] as nat)),
            ));
        }
        push_char(&mut s, '\n');
        let ghost before_rows = s@;
        assert(before_rows =~= header_line(m) + border_line(m));
        let nr = self.rows.len();
        let mut r: usize = 0;
        while r < nr
            invariant
                n == self.columns@.len(),
                nr == self.rows@.len(),
                m == self@,
                r <= nr,
                before_rows == header_line(m) + border_line(m),
                s@ == before_rows + joined(Seq::new(r as nat, |k: int| row_line(m, k))),
            decreases nr - r,
        {
            proof {
                use_type_invariant(self);
                lemma_joined_step(|k: int| row_line(m, k), r as nat);
                assert forall|c: int| 0 <= c < self.columns@.len() implies #[trigger] self.columns@[c].width
                    >= needed_width(self.rows@[r as int].cells@[c]@) by {}
                assert(Seq::new(
                    self.columns@.len(),
                    |c: int| cell_text(self.rows@[r as int].cells@[c]@, self.columns@[c].width as int),
                ) =~= Seq::new(m.headers.len(), |c: int| cell_text(m.rows[r as int][c], m.widths[c])));
            }
            let line = self.rows[r].print_cells(&self.columns);
            push_str(&mut s, line.as_str());
            push_char(&mut s, '\n');
            r = r + 1;
            assert(s@ =~= before_rows + joined(Seq::new(r as nat, |k: int| row_line(m, k))));
        }
        push_char(&mut s, '\n');
        assert(s@ =~= table_text(m));
        s
    }
}

impl TableRow {
    /// The cells of the row, each in its column's width.
    fn print_cells(&self, columns: &Vec<TableColumn>) -> (r: String)
        requires
            self.cells@.len() == columns@.len(),
            forall|c: int|
                0 <= c < columns@.len() ==> #[trigger] columns@[c].width >= needed_width(
                    self.cells@[c]@,
                ),
        ensures
            r@ == joined(
                Seq::new(
                    columns@.len(),
                    |c: int| cell_text(self.cells@[c]@, columns@[c].width as int),
                ),
            ),
    {
        let n = columns.len();
        let mut s = String::new();
        let mut c: usize = 0;
        while c < n
            invariant
                n == columns@.len(),
                self.cells@.len() == n,
                forall|k: int|
                    0 <= k < columns@.len() ==> #[trigger] columns@[k].width >= needed_width(
                        self.cells@[k]@,
                    ),
                c <= n,
                s@ == joined(
                    Seq::new(c as nat, |k: int| cell_text(self.cells@[k]@, columns@[k].width as int)),
                ),
            decreases n - c,
        {
            proof {
                lemma_joined_step(
                    |k: int| cell_text(self.cells@[k]@, columns@[k].width as int),
                    c as nat,
                );
            }
            let t = print_cell(self.cells[c].as_str(), columns[c].width);
            push_str(&mut s, t.as_str());
            c = c + 1;
        }
        s
    }
}

} // verus!
