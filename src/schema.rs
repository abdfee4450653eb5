use vstd::prelude::*;
use crate::coerce::{coerce_signed, coerce_unsigned, signed_of, strip_spaces, unsigned_of, without_char};
use crate::date::CalendarDate;
use crate::errors::TwseError;

verus! {

/// How a column's cells are read.
#[derive(Debug, Clone, Copy, PartialEq, Eq)]
pub enum ColumnKind {
    /// Text, with padding spaces removed.
    Text,
    /// A comma-grouped non-negative amount.
    Unsigned,
    /// A comma-grouped amount with an optional minus sign.
    Signed,
}

/// The record shape that a query's rows are read as; the caller names it,
/// rows are never probed for it.
#[derive(Debug, Clone, Copy, PartialEq, Eq)]
pub enum RowShape {
    /// Market-wide figures per investor category.
    Total,
    /// Per-security figures per investor sub-category.
    SingleStock,
}

/// One decoded cell.
#[derive(Debug, Clone)]
pub enum Cell {
    Text(String),
    Unsigned(u64),
    Signed(i64),
}

impl RowShape {
    /// Kinds of the leading columns, in order; further columns are ignored.
    pub open spec fn kinds(self) -> Seq<ColumnKind> {
        match self {
            RowShape::Total => seq![
                ColumnKind::Text,
                ColumnKind::Unsigned,
                ColumnKind::Unsigned,
                ColumnKind::Signed,
            ],
            RowShape::SingleStock => seq![
                ColumnKind::Text,
                ColumnKind::Text,
                ColumnKind::Unsigned,
                ColumnKind::Unsigned,
                ColumnKind::Signed,
                ColumnKind::Unsigned,
                ColumnKind::Unsigned,
                ColumnKind::Signed,
                ColumnKind::Unsigned,
                ColumnKind::Unsigned,
                ColumnKind::Signed,
                ColumnKind::Signed,
                ColumnKind::Unsigned,
                ColumnKind::Unsigned,
                ColumnKind::Signed,
                ColumnKind::Unsigned,
                ColumnKind::Unsigned,
                ColumnKind::Signed,
                ColumnKind::Signed,
            ],
        }
    }

    /// Names of the leading columns, as errors report them.
    pub open spec fn names(self) -> Seq<Seq<char>> {
        match self {
            RowShape::Total => seq![
                "name"@,
                "buy"@,
                "sell"@,
                "difference"@,
            ],
            RowShape::SingleStock => seq![
                "stock_id"@,
                "stock_name"@,
                "foreign_investor_buy"@,
                "foreign_investor_sell"@,
                "foreign_investor_difference"@,
                "foreign_dealer_self_buy"@,
                "foreign_dealer_self_sell"@,
                "foreign_dealer_self_difference"@,
                "investment_trust_buy"@,
                "investment_trust_sell"@,
                "investment_trust_difference"@,
                "dealer_total_difference"@,
                "dealer_self_buy"@,
                "dealer_self_sell"@,
                "dealer_self_difference"@,
                "dealer_hedging_buy"@,
                "dealer_hedging_sell"@,
                "dealer_difference"@,
                "total_difference"@,
            ],
        }
    }

    pub fn width(&self) -> (r: usize)
        ensures
            r == self.kinds().len(),
    {
        match *self {
            RowShape::Total => 4,
            RowShape::SingleStock => 19,
        }
    }

    pub fn kind_at(&self, i: usize) -> (r: ColumnKind)
        requires
            i < self.kinds().len(),
        ensures
            r == self.kinds()[i as int],
    {
        match *self {
            RowShape::Total => match i {
                0 => ColumnKind::Text,
                1 => ColumnKind::Unsigned,
                2 => ColumnKind::Unsigned,
                _ => ColumnKind::Signed,
            },
            RowShape::SingleStock => match i {
                0 => ColumnKind::Text,
                1 => ColumnKind::Text,
                2 => ColumnKind::Unsigned,
                3 => ColumnKind::Unsigned,
                4 => ColumnKind::Signed,
                5 => ColumnKind::Unsigned,
                6 => ColumnKind::Unsigned,
                7 => ColumnKind::Signed,
                8 => ColumnKind::Unsigned,
                9 => ColumnKind::Unsigned,
                10 => ColumnKind::Signed,
                11 => ColumnKind::Signed,
                12 => ColumnKind::Unsigned,
                13 => ColumnKind::Unsigned,
                14 => ColumnKind::Signed,
                15 => ColumnKind::Unsigned,
                16 => ColumnKind::Unsigned,
                17 => ColumnKind::Signed,
                _ => ColumnKind::Signed,
            },
        }
    }

    pub fn name_at(&self, i: usize) -> (r: &'static str)
        requires
            i < self.kinds().len(),
        ensures
            r@ == self.names()[i as int],
    {
        match *self {
            RowShape::Total => match i {
                0 => "name",
                1 => "buy",
                2 => "sell",
                _ => "difference",
            },
            RowShape::SingleStock => match i {
                0 => "stock_id",
                1 => "stock_name",
                2 => "foreign_investor_buy",
                3 => "foreign_investor_sell",
                4 => "foreign_investor_difference",
                5 => "foreign_dealer_self_buy",
                6 => "foreign_dealer_self_sell",
                7 => "foreign_dealer_self_difference",
                8 => "investment_trust_buy",
                9 => "investment_trust_sell",
                10 => "investment_trust_difference",
                11 => "dealer_total_difference",
                12 => "dealer_self_buy",
                13 => "dealer_self_sell",
                14 => "dealer_self_difference",
                15 => "dealer_hedging_buy",
                16 => "dealer_hedging_sell",
                17 => "dealer_difference",
                _ => "total_difference",
            },
        }
    }
}

/// The cells of a raw row, as text.
pub open spec fn row_view(row: Seq<String>) -> Seq<Seq<char>> {
    row.map_values(|s: String| s@)
}

/// A cell that its column's kind can read.
pub open spec fn cell_ok(kind: ColumnKind, raw: Seq<char>) -> bool {
    match kind {
        ColumnKind::Text => true,
        ColumnKind::Unsigned => unsigned_of(raw) is Some,
        ColumnKind::Signed => signed_of(raw) is Some,
    }
}

/// What a column's kind reads from a cell.
pub open spec fn cell_read(cell: Cell, kind: ColumnKind, raw: Seq<char>) -> bool {
    match kind {
        ColumnKind::Text => cell matches Cell::Text(s) && s@ == without_char(raw, ' '),
        ColumnKind::Unsigned => cell == Cell::Unsigned(unsigned_of(raw)->0),
        ColumnKind::Signed => cell == Cell::Signed(signed_of(raw)->0),
    }
}

/// Column `c` reads, for every `c` below `n`.
pub open spec fn cells_ok_upto(row: Seq<Seq<char>>, shape: RowShape, n: int) -> bool {
    forall|c: int| 0 <= c < n ==> cell_ok(#[trigger] shape.kinds()[c], row[c])
}

/// The row has every column of the shape, and each of them reads.
pub open spec fn row_decodes(row: Seq<Seq<char>>, shape: RowShape) -> bool {
    row.len() >= shape.kinds().len() && cells_ok_upto(row, shape, shape.kinds().len() as int)
}

/// `e` is the error that row number `index` gives: too few cells, else the
/// first cell that its column cannot read.
pub open spec fn is_row_error(index: usize, row: Seq<Seq<char>>, shape: RowShape, e: TwseError) -> bool {
    if row.len() < shape.kinds().len() {
        e == TwseError::ShapeMismatch {
            row: index,
            expected: shape.kinds().len() as usize,
            found: row.len() as usize,
        }
    } else {
        exists|c: int|
            0 <= c < shape.kinds().len() && !cell_ok(#[trigger] shape.kinds()[c], row[c])
                && cells_ok_upto(row, shape, c) && (e matches TwseError::BadNumber { row: k, field, raw }
                && k == index && field@ == shape.names()[c] && raw@ == row[c])
    }
}

/// Reads the leading cells of row number `index` by the shape's columns.
pub fn decode_cells(index: usize, row: &Vec<String>, shape: RowShape) -> (r: Result<Vec<Cell>, TwseError>)
    ensures
        r is Ok <==> row_decodes(row_view(row@), shape),
        r matches Ok(cells) ==> cells@.len() == shape.kinds().len() && forall|c: int|
            0 <= c < cells@.len() ==> cell_read(#[trigger] cells@[c], shape.kinds()[c], row@[c]@),
        r matches Err(e) ==> is_row_error(index, row_view(row@), shape, e),
{
    let width = shape.width();
    if row.len() < width {
        return Err(TwseError::ShapeMismatch { row: index, expected: width, found: row.len() });
    }
    let ghost rv = row_view(row@);
    let mut cells: Vec<Cell> = Vec::new();
    let mut c: usize = 0;
    while c < width
        invariant
            width == shape.kinds().len(),
            width <= row@.len(),
            rv == row_view(row@),
            c <= width,
            cells@.len() == c,
            cells_ok_upto(rv, shape, c as int),
            forall|j: int| 0 <= j < c ==> cell_read(#[trigger] cells@[j], shape.kinds()[j], row@[j]@),
        decreases width - c,
    {
        let raw = row[c].as_str();
        assert(rv[c as int] == raw@);
        let cell = match shape.kind_at(c) {
            ColumnKind::Text => Cell::Text(strip_spaces(raw)),
            ColumnKind::Unsigned => match coerce_unsigned(raw) {
                Ok(n) => Cell::Unsigned(n),
                Err(_) => {
                    return Err(TwseError::BadNumber {
                        row: index,
                        field: shape.name_at(c).to_owned(),
                        raw: raw.to_owned(),
                    });
                },
            },
            ColumnKind::Signed => match coerce_signed(raw) {
                Ok(n) => Cell::Signed(n),
                Err(_) => {
                    return Err(TwseError::BadNumber {
                        row: index,
                        field: shape.name_at(c).to_owned(),
                        raw: raw.to_owned(),
                    });
                },
            },
        };
        cells.push(cell);
        c = c + 1;
    }
    Ok(cells)
}

fn text_at(cells: &Vec<Cell>, i: usize) -> (r: String)
    requires
        i < cells@.len(),
        cells@[i as int] is Text,
    ensures
        cells@[i as int] matches Cell::Text(s) && r@ == s@,
{
    match &cells[i] {
        Cell::Text(s) => s.clone(),
        _ => String::new(),
    }
}

fn unsigned_at(cells: &Vec<Cell>, i: usize) -> (r: u64)
    requires
        i < cells@.len(),
        cells@[i as int] is Unsigned,
    ensures
        cells@[i as int] == Cell::Unsigned(r),
{
    match &cells[i] {
        Cell::Unsigned(n) => *n,
        _ => 0,
    }
}

fn signed_at(cells: &Vec<Cell>, i: usize) -> (r: i64)
    requires
        i < cells@.len(),
        cells@[i as int] is Signed,
    ensures
        cells@[i as int] == Cell::Signed(r),
{
    match &cells[i] {
        Cell::Signed(n) => *n,
        _ => 0,
    }
}

/// Market-wide buy and sell amounts of one investor category. The net
/// figure is the feed's own, not recomputed.
#[derive(Debug, Clone)]
pub struct TotalInstitutionalInvestors {
    pub name: String,
    pub buy: u64,
    pub sell: u64,
    pub difference: i64,
}

/// Per-security buy, sell and net share counts of each investor
/// sub-category, in the feed's column order.
#[derive(Debug, Clone)]
pub struct SingleStockInstitutionalInvestors {
    pub stock_id: String,
    pub stock_name: String,
    pub foreign_investor_buy: u64,
    pub foreign_investor_sell: u64,
    pub foreign_investor_difference: i64,
    pub foreign_dealer_self_buy: u64,
    pub foreign_dealer_self_sell: u64,
    pub foreign_dealer_self_difference: i64,
    pub investment_trust_buy: u64,
    pub investment_trust_sell: u64,
    pub investment_trust_difference: i64,
    pub dealer_total_difference: i64,
    pub dealer_self_buy: u64,
    pub dealer_self_sell: u64,
    pub dealer_self_difference: i64,
    pub dealer_hedging_buy: u64,
    pub dealer_hedging_sell: u64,
    pub dealer_difference: i64,
    pub total_difference: i64,
}

/// `t` holds what the leading cells of `row` read as.
pub open spec fn total_read(t: TotalInstitutionalInvestors, row: Seq<Seq<char>>) -> bool {
        &&& t.name@ == without_char(row[0], ' ')
        &&& t.buy == unsigned_of(row[1])->0
        &&& t.sell == unsigned_of(row[2])->0
        &&& t.difference == signed_of(row[3])->0
}

/// `s` holds what the leading cells of `row` read as.
pub open spec fn single_stock_read(s: SingleStockInstitutionalInvestors, row: Seq<Seq<char>>) -> bool {
        &&& s.stock_id@ == without_char(row[0], ' ')
        &&& s.stock_name@ == without_char(row[1], ' ')
        &&& s.foreign_investor_buy == unsigned_of(row[2])->0
        &&& s.foreign_investor_sell == unsigned_of(row[3])->0
        &&& s.foreign_investor_difference == signed_of(row[4])->0
        &&& s.foreign_dealer_self_buy == unsigned_of(row[5])->0
        &&& s.foreign_dealer_self_sell == unsigned_of(row[6])->0
        &&& s.foreign_dealer_self_difference == signed_of(row[7])->0
        &&& s.investment_trust_buy == unsigned_of(row[8])->0
        &&& s.investment_trust_sell == unsigned_of(row[9])->0
        &&& s.investment_trust_difference == signed_of(row[10])->0
        &&& s.dealer_total_difference == signed_of(row[11])->0
        &&& s.dealer_self_buy == unsigned_of(row[12])->0
        &&& s.dealer_self_sell == unsigned_of(row[13])->0
        &&& s.dealer_self_difference == signed_of(row[14])->0
        &&& s.dealer_hedging_buy == unsigned_of(row[15])->0
        &&& s.dealer_hedging_sell == unsigned_of(row[16])->0
        &&& s.dealer_difference == signed_of(row[17])->0
        &&& s.total_difference == signed_of(row[18])->0
}

impl TotalInstitutionalInvestors {
    /// Reads row number `index` of the market-wide report.
    pub fn from_row(index: usize, row: &Vec<String>) -> (r: Result<Self, TwseError>)
        ensures
            r is Ok <==> row_decodes(row_view(row@), RowShape::Total),
            r matches Ok(t) ==> total_read(t, row_view(row@)),
            r matches Err(e) ==> is_row_error(index, row_view(row@), RowShape::Total, e),
    {
        let cells = decode_cells(index, row, RowShape::Total)?;
        assert(cell_read(cells@[0], ColumnKind::Text, row@[0]@));
        assert(cell_read(cells@[1], ColumnKind::Unsigned, row@[1]@));
        assert(cell_read(cells@[2], ColumnKind::Unsigned, row@[2]@));
        assert(cell_read(cells@[3], ColumnKind::Signed, row@[3]@));
        let r = TotalInstitutionalInvestors {
            name: text_at(&cells, 0),
            buy: unsigned_at(&cells, 1),
            sell: unsigned_at(&cells, 2),
            difference: signed_at(&cells, 3),
        };
        Ok(r)
    }
}

impl SingleStockInstitutionalInvestors {
    /// Reads row number `index` of the per-security report.
    pub fn from_row(index: usize, row: &Vec<String>) -> (r: Result<Self, TwseError>)
        ensures
            r is Ok <==> row_decodes(row_view(row@), RowShape::SingleStock),
            r matches Ok(s) ==> single_stock_read(s, row_view(row@)),
            r matches Err(e) ==> is_row_error(index, row_view(row@), RowShape::SingleStock, e),
    {
        let cells = decode_cells(index, row, RowShape::SingleStock)?;
        assert forall|c: int| 0 <= c < 19 implies cell_read(#[trigger] cells@[c], RowShape::SingleStock.kinds()[c], row@[c]@) by {}
        let r = SingleStockInstitutionalInvestors {
            stock_id: text_at(&cells, 0),
            stock_name: text_at(&cells, 1),
            foreign_investor_buy: unsigned_at(&cells, 2),
            foreign_investor_sell: unsigned_at(&cells, 3),
            foreign_investor_difference: signed_at(&cells, 4),
            foreign_dealer_self_buy: unsigned_at(&cells, 5),
            foreign_dealer_self_sell: unsigned_at(&cells, 6),
            foreign_dealer_self_difference: signed_at(&cells, 7),
            investment_trust_buy: unsigned_at(&cells, 8),
            investment_trust_sell: unsigned_at(&cells, 9),
            investment_trust_difference: signed_at(&cells, 10),
            dealer_total_difference: signed_at(&cells, 11),
            dealer_self_buy: unsigned_at(&cells, 12),
            dealer_self_sell: unsigned_at(&cells, 13),
            dealer_self_difference: signed_at(&cells, 14),
            dealer_hedging_buy: unsigned_at(&cells, 15),
            dealer_hedging_sell: unsigned_at(&cells, 16),
            dealer_difference: signed_at(&cells, 17),
            total_difference: signed_at(&cells, 18),
        };
        Ok(r)
    }
}

/// A short row is refused for its length, whatever its cells hold: it never
/// yields a record.
pub proof fn lemma_short_row_is_shape_mismatch(
    index: usize,
    row: Seq<Seq<char>>,
    shape: RowShape,
    e: TwseError,
)
    requires
        row.len() < shape.kinds().len(),
        is_row_error(index, row, shape, e),
    ensures
        !row_decodes(row, shape),
        e matches TwseError::ShapeMismatch { row: k, expected, found } && k == index
            && expected == shape.kinds().len() && found == row.len(),
{
}

/// A decoded row, of either record shape.
#[derive(Debug, Clone)]
pub enum Data {
    TotalInstitutionalInvestors(TotalInstitutionalInvestors),
    SingleStockInstitutionalInvestors(SingleStockInstitutionalInvestors),
}

/// `d` is the record of the given shape that `row` reads as.
pub open spec fn data_read(d: Data, row: Seq<Seq<char>>, shape: RowShape) -> bool {
    match shape {
        RowShape::Total => d matches Data::TotalInstitutionalInvestors(t) && total_read(t, row),
        RowShape::SingleStock => d matches Data::SingleStockInstitutionalInvestors(s)
            && single_stock_read(s, row),
    }
}

impl Data {
    /// Reads row number `index` as the record shape the caller expects.
    pub fn decode(index: usize, row: &Vec<String>, shape: RowShape) -> (r: Result<Data, TwseError>)
        ensures
            r is Ok <==> row_decodes(row_view(row@), shape),
            r matches Ok(d) ==> data_read(d, row_view(row@), shape),
            r matches Err(e) ==> is_row_error(index, row_view(row@), shape, e),
    {
        match shape {
            RowShape::Total => {
                let t = TotalInstitutionalInvestors::from_row(index, row)?;
                Ok(Data::TotalInstitutionalInvestors(t))
            },
            RowShape::SingleStock => {
                let s = SingleStockInstitutionalInvestors::from_row(index, row)?;
                Ok(Data::SingleStockInstitutionalInvestors(s))
            },
        }
    }

    /// The market-wide record; `EnumCastingError` for a per-security one.
    pub fn into_total(self) -> (r: Result<TotalInstitutionalInvestors, TwseError>)
        ensures
            match self {
                Data::TotalInstitutionalInvestors(t) => r == Ok::<
                    TotalInstitutionalInvestors,
                    TwseError,
                >(t),
                _ => r == Err::<TotalInstitutionalInvestors, TwseError>(TwseError::EnumCastingError),
            },
    {
        match self {
            Data::TotalInstitutionalInvestors(t) => Ok(t),
            _ => Err(TwseError::EnumCastingError),
        }
    }

    /// The per-security record; `EnumCastingError` for a market-wide one.
    pub fn into_single_stock(self) -> (r: Result<SingleStockInstitutionalInvestors, TwseError>)
        ensures
            match self {
                Data::SingleStockInstitutionalInvestors(s) => r == Ok::<
                    SingleStockInstitutionalInvestors,
                    TwseError,
                >(s),
                _ => r == Err::<SingleStockInstitutionalInvestors, TwseError>(
                    TwseError::EnumCastingError,
                ),
            },
    {
        match self {
            Data::SingleStockInstitutionalInvestors(s) => Ok(s),
            _ => Err(TwseError::EnumCastingError),
        }
    }
}

/// Every row of the batch reads as the shape.
pub open spec fn rows_decode(rows: Seq<Vec<String>>, shape: RowShape) -> bool {
    forall|i: int| 0 <= i < rows.len() ==> row_decodes(row_view(#[trigger] rows[i]@), shape)
}

/// `e` is the error of the first row of the batch that does not read.
pub open spec fn is_batch_error(rows: Seq<Vec<String>>, shape: RowShape, e: TwseError) -> bool {
    exists|i: int|
        0 <= i < rows.len() && !row_decodes(row_view(#[trigger] rows[i]@), shape) && (forall|j: int|
            0 <= j < i ==> row_decodes(row_view(#[trigger] rows[j]@), shape)) && is_row_error(
            i as usize,
            row_view(rows[i]@),
            shape,
            e,
        )
}

/// Reads every row as a market-wide record, in order; the first row that does
/// not read fails the whole batch.
pub fn decode_total_rows(rows: &Vec<Vec<String>>) -> (r: Result<Vec<TotalInstitutionalInvestors>, TwseError>)
    ensures
        r is Ok <==> rows_decode(rows@, RowShape::Total),
        r matches Ok(v) ==> v@.len() == rows@.len() && forall|i: int|
            0 <= i < v@.len() ==> total_read(#[trigger] v@[i], row_view(rows@[i]@)),
        r matches Err(e) ==> is_batch_error(rows@, RowShape::Total, e),
{
    let mut out: Vec<TotalInstitutionalInvestors> = Vec::with_capacity(rows.len());
    let mut i: usize = 0;
    while i < rows.len()
        invariant
            i <= rows@.len(),
            out@.len() == i,
            forall|j: int| 0 <= j < i ==> row_decodes(row_view(#[trigger] rows@[j]@), RowShape::Total),
            forall|j: int| 0 <= j < i ==> total_read(#[trigger] out@[j], row_view(rows@[j]@)),
        decreases rows@.len() - i,
    {
        let d = match Data::decode(i, &rows[i], RowShape::Total) {
            Ok(d) => d,
            Err(e) => {
                assert(!row_decodes(row_view(rows@[i as int]@), RowShape::Total));
                return Err(e);
            },
        };
        let t = match d.into_total() {
            Ok(t) => t,
            Err(e) => {
                return Err(e);
            },
        };
        out.push(t);
        i = i + 1;
    }
    Ok(out)
}

/// Reads every row as a per-security record, in order; the first row that
/// does not read fails the whole batch.
pub fn decode_single_stock_rows(rows: &Vec<Vec<String>>) -> (r: Result<Vec<SingleStockInstitutionalInvestors>, TwseError>)
    ensures
        r is Ok <==> rows_decode(rows@, RowShape::SingleStock),
        r matches Ok(v) ==> v@.len() == rows@.len() && forall|i: int|
            0 <= i < v@.len() ==> single_stock_read(#[trigger] v@[i], row_view(rows@[i]@)),
        r matches Err(e) ==> is_batch_error(rows@, RowShape::SingleStock, e),
{
    let mut out: Vec<SingleStockInstitutionalInvestors> = Vec::with_capacity(rows.len());
    let mut i: usize = 0;
    while i < rows.len()
        invariant
            i <= rows@.len(),
            out@.len() == i,
            forall|j: int| 0 <= j < i ==> row_decodes(row_view(#[trigger] rows@[j]@), RowShape::SingleStock),
            forall|j: int| 0 <= j < i ==> single_stock_read(#[trigger] out@[j], row_view(rows@[j]@)),
        decreases rows@.len() - i,
    {
        let d = match Data::decode(i, &rows[i], RowShape::SingleStock) {
            Ok(d) => d,
            Err(e) => {
                assert(!row_decodes(row_view(rows@[i as int]@), RowShape::SingleStock));
                return Err(e);
            },
        };
        let s = match d.into_single_stock() {
            Ok(s) => s,
            Err(e) => {
                return Err(e);
            },
        };
        out.push(s);
        i = i + 1;
    }
    Ok(out)
}

/// The feed's answer to one query: status, report date, title, column labels
/// and raw rows of text cells.
#[derive(Debug, Clone)]
pub struct Response {
    pub stat: String,
    pub date: CalendarDate,
    pub title: String,
    pub fields: Vec<String>,
    pub data: Vec<Vec<String>>,
}

/// The status by which the feed reports success.
pub open spec fn status_ok(stat: Seq<char>) -> bool {
    stat == "OK"@
}

/// Whether the feed reported success.
pub fn is_status_ok(stat: &String) -> (r: bool)
    ensures
        r == status_ok(stat@),
{
    let ok = "OK".to_owned();
    *stat == ok
}

impl Response {
    /// The market-wide records of this answer; a status other than `OK`
    /// fails with that status, whatever the rows hold.
    pub fn total_institutional_investors(&self) -> (r: Result<Vec<TotalInstitutionalInvestors>, TwseError>)
        ensures
            !status_ok(self.stat@) ==> (r matches Err(TwseError::TWSEError(s)) && s@ == self.stat@),
            status_ok(self.stat@) ==> (r is Ok <==> rows_decode(self.data@, RowShape::Total)),
            status_ok(self.stat@) ==> (r matches Ok(v) ==> v@.len() == self.data@.len()
                && forall|i: int| 0 <= i < v@.len() ==> total_read(#[trigger] v@[i], row_view(self.data@[i]@))),
            status_ok(self.stat@) ==> (r matches Err(e) ==> is_batch_error(self.data@, RowShape::Total, e)),
    {
        if !is_status_ok(&self.stat) {
            return Err(TwseError::TWSEError(self.stat.clone()));
        }
        decode_total_rows(&self.data)
    }

    /// The per-security records of this answer; a status other than `OK`
    /// fails with that status, whatever the rows hold.
    pub fn single_stock_institutional_investors(&self) -> (r: Result<Vec<SingleStockInstitutionalInvestors>, TwseError>)
        ensures
            !status_ok(self.stat@) ==> (r matches Err(TwseError::TWSEError(s)) && s@ == self.stat@),
            status_ok(self.stat@) ==> (r is Ok <==> rows_decode(self.data@, RowShape::SingleStock)),
            status_ok(self.stat@) ==> (r matches Ok(v) ==> v@.len() == self.data@.len()
                && forall|i: int| 0 <= i < v@.len() ==> single_stock_read(#[trigger] v@[i], row_view(self.data@[i]@))),
            status_ok(self.stat@) ==> (r matches Err(e) ==> is_batch_error(self.data@, RowShape::SingleStock, e)),
    {
        if !is_status_ok(&self.stat) {
            return Err(TwseError::TWSEError(self.stat.clone()));
        }
        decode_single_stock_rows(&self.data)
    }
}

} // verus!
