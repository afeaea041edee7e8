//! A width-constrained, ASCII-bordered console table.
//!
//! A [`ConsoleTableBuilder`] accumulates weighted [`Column`]s and a target
//! total width; [`ConsoleTableBuilder::build`] validates the configuration and
//! produces an immutable [`ConsoleTable`], which renders a border line, a
//! header line, and one line per row, each exactly as wide as the weighted
//! layout allows.
//!
//! Widths count characters: a cell value is truncated at its column's
//! character width, so a multi-byte character is never split.

use vstd::prelude::*;

use itertools::Itertools;
use std::io::Write;

use crate::domain::task::{
    TASK_CELL_COMPLETED, TASK_CELL_CREATED_AT, TASK_CELL_DESCRIPTION, TASK_CELL_ID,
    TASK_CELL_SCOPE,
};

verus! {

/// The five-column layout of the task list: ID, Description, Scope,
/// Created at and Completed, weighted 1-8-3-4-2, with the identifiers
/// right-aligned and everything else centered.
pub fn get_tasks_table(width: u8) -> (r: ConsoleTableBuilder)
    ensures
        r.width == width,
        r.vertical_separator == '|',
        r.horizontal_separator == '-',
        r.cross_separator == '+',
        r.columns@.len() == 5,
        r.columns@[0].0.name@ == "ID"@,
        r.columns@[0].0.value_key == TASK_CELL_ID,
        r.columns@[0].0.column_alignment == Alignment::Center,
        r.columns@[0].0.data_alignment == Alignment::Right,
        r.columns@[0].1 == 1,
        r.columns@[1].0.name@ == "Description"@,
        r.columns@[1].0.value_key == TASK_CELL_DESCRIPTION,
        r.columns@[1].0.column_alignment == Alignment::Center,
        r.columns@[1].0.data_alignment == Alignment::Center,
        r.columns@[1].1 == 8,
        r.columns@[2].0.name@ == "Scope"@,
        r.columns@[2].0.value_key == TASK_CELL_SCOPE,
        r.columns@[2].0.column_alignment == Alignment::Center,
        r.columns@[2].0.data_alignment == Alignment::Center,
        r.columns@[2].1 == 3,
        r.columns@[3].0.name@ == "Created at"@,
        r.columns@[3].0.value_key == TASK_CELL_CREATED_AT,
        r.columns@[3].0.column_alignment == Alignment::Center,
        r.columns@[3].0.data_alignment == Alignment::Center,
        r.columns@[3].1 == 4,
        r.columns@[4].0.name@ == "Completed"@,
        r.columns@[4].0.value_key == TASK_CELL_COMPLETED,
        r.columns@[4].0.column_alignment == Alignment::Center,
        r.columns@[4].0.data_alignment == Alignment::Center,
        r.columns@[4].1 == 2,
{
    let id = Column::new("ID", TASK_CELL_ID).set_data_alignment(Alignment::Right);
    let description = Column::new("Description", TASK_CELL_DESCRIPTION);
    let scope = Column::new("Scope", TASK_CELL_SCOPE);
    let created_at = Column::new("Created at", TASK_CELL_CREATED_AT);
    let completed_at = Column::new("Completed", TASK_CELL_COMPLETED);
    ConsoleTableBuilder::new(width)
        .add_column(id, 1)
        .add_column(description, 8)
        .add_column(scope, 3)
        .add_column(created_at, 4)
        .add_column(completed_at, 2)
}

/// Horizontal placement of a value inside a fixed-width cell.
#[derive(Clone, Copy, Debug, PartialEq, Eq, Structural)]
pub enum Alignment {
    Left,
    Center,
    Right,
}

/// `n` copies of the character `c`.
pub open spec fn repeat_char(c: char, n: nat) -> Seq<char> {
    Seq::new(n, |i: int| c)
}

/// `n` space characters.
pub open spec fn spaces(n: nat) -> Seq<char> {
    repeat_char(' ', n)
}

/// `value` cut down to at most `width` leading characters.
pub open spec fn truncated(value: Seq<char>, width: nat) -> Seq<char> {
    if value.len() <= width {
        value
    } else {
        value.take(width as int)
    }
}

/// The contents of one cell: `value` truncated to `width` characters, or
/// padded with spaces up to `width` according to `align`.  Center alignment
/// puts the odd leftover space on the right.
pub open spec fn cell_text(value: Seq<char>, width: nat, align: Alignment) -> Seq<char> {
    if value.len() >= width {
        value.take(width as int)
    } else {
        let pad = (width - value.len()) as nat;
        match align {
            Alignment::Left => value + spaces(pad),
            Alignment::Right => spaces(pad) + value,
            Alignment::Center => spaces(pad / 2) + value + spaces((pad - pad / 2) as nat),
        }
    }
}

/// The parts concatenated with `sep` between consecutive parts.
pub open spec fn joined(parts: Seq<Seq<char>>, sep: Seq<char>) -> Seq<char>
    decreases parts.len(),
{
    if parts.len() == 0 {
        Seq::empty()
    } else if parts.len() == 1 {
        parts[0]
    } else {
        parts[0] + sep + joined(parts.drop_first(), sep)
    }
}

/// A cell is always exactly as wide as asked.
pub proof fn lemma_cell_text_len(value: Seq<char>, width: nat, align: Alignment)
    ensures
        cell_text(value, width, align).len() == width,
{
}

/// Truncation idempotence: a value already exactly at the target width comes
/// back unchanged, whatever the alignment.
pub proof fn lemma_cell_text_exact_width(value: Seq<char>, align: Alignment)
    ensures
        cell_text(value, value.len(), align) == value,
{
    assert(cell_text(value, value.len(), align) =~= value);
}

/// A value longer than the cell is truncated to exactly the cell width, with
/// no padding added.
pub proof fn lemma_cell_text_truncates(value: Seq<char>, width: nat, align: Alignment)
    requires
        value.len() >= width,
    ensures
        cell_text(value, width, align) == value.take(width as int),
{
}

/// Padding placement: a short left-aligned value has all its padding after
/// it, a right-aligned one has it all before it, and a centered one splits
/// the padding with the odd leftover space on the right.
pub proof fn lemma_cell_text_padding(value: Seq<char>, width: nat)
    requires
        value.len() < width,
    ensures
        cell_text(value, width, Alignment::Left) == value + spaces((width - value.len()) as nat),
        cell_text(value, width, Alignment::Right) == spaces((width - value.len()) as nat) + value,
        cell_text(value, width, Alignment::Center) == spaces(((width - value.len()) as nat) / 2)
            + value + spaces(((width - value.len()) - ((width - value.len()) as nat) / 2) as nat),
{
}

fn spaces_text(n: usize) -> (r: String)
    ensures
        r@ == spaces(n as nat),
{
    repeat_char_text(' ', n)
}

/// The leading characters of `text`, at most `max_len` of them.
pub fn format_string_to_constraint<'a>(text: &'a str, max_len: usize) -> (r: &'a str)
    ensures
        r@ == truncated(text@, max_len as nat),
{
    let text_len = text.unicode_len();
    if text_len <= max_len {
        return text;
    }
    let r = text.substring_char(0, max_len);
    proof {
        assert(r@ =~= truncated(text@, max_len as nat));
    }
    r
}

/// Formats `value` into a cell of exactly `width` characters: truncated when
/// too long, padded with spaces according to `alignment` when too short.
pub fn get_formatted_cell(value: &str, width: usize, alignment: Alignment) -> (r: String)
    ensures
        r@ == cell_text(value@, width as nat, alignment),
        r@.len() == width,
{
    let short = format_string_to_constraint(value, width);
    let short_len = short.unicode_len();
    let r = if short_len >= width {
        String::from_str(short)
    } else {
        let pad = width - short_len;
        match alignment {
            Alignment::Left => {
                let mut s = String::from_str(short);
                s.append(spaces_text(pad).as_str());
                s
            },
            Alignment::Right => {
                let mut s = spaces_text(pad);
                s.append(short);
                s
            },
            Alignment::Center => {
                let mut s = spaces_text(pad / 2);
                s.append(short);
                s.append(spaces_text(pad - pad / 2).as_str());
                s
            },
        }
    };
    proof {
        lemma_cell_text_len(value@, width as nat, alignment);
        assert(r@ =~= cell_text(value@, width as nat, alignment));
    }
    r
}

/// `text` with `value_to_add` glued onto both ends.
pub fn add_value_to_start_and_end_of_string(text: String, value_to_add: &str) -> (r: String)
    ensures
        r@ == value_to_add@ + text@ + value_to_add@,
{
    let mut s = String::from_str(value_to_add);
    s.append(text.as_str());
    s.append(value_to_add);
    proof {
        assert(s@ =~= value_to_add@ + text@ + value_to_add@);
    }
    s
}

/// Relies on itertools' `Itertools::join`: the items, rendered as they
/// display, concatenated with `separator` between consecutive items.
#[verifier::external_body]
fn join_with(parts: &Vec<String>, separator: &str) -> (r: String)
    ensures
        r@ == joined(parts.deep_view(), separator@),
{
    parts.iter().join(separator)
}

/// Relies on `String::push`: appends exactly one character.
#[verifier::external_body]
fn push_char(s: &mut String, c: char)
    ensures
        final(s)@ == old(s)@.push(c),
{
    s.push(c);
}

/// Relies on `std::io::Stdout`'s `Write` implementation: writes the line and
/// a trailing newline to standard output; a write error is ignored.
#[verifier::external_body]
fn emit_line(line: &str) {
    let _ = writeln!(std::io::stdout(), "{}", line);
}

fn char_text(c: char) -> (r: String)
    ensures
        r@ == seq![c],
{
    let mut s = String::new();
    push_char(&mut s, c);
    proof {
        assert(s@ =~= seq![c]);
    }
    s
}

fn repeat_char_text(c: char, n: usize) -> (r: String)
    ensures
        r@ == repeat_char(c, n as nat),
{
    let mut s = String::new();
    let mut i: usize = 0;
    while i < n
        invariant
            i <= n,
            s@ == repeat_char(c, i as nat),
        decreases n - i,
    {
        push_char(&mut s, c);
        proof {
            assert(s@ =~= repeat_char(c, (i + 1) as nat));
        }
        i += 1;
    }
    s
}

/// The total of the parts' lengths.
pub open spec fn lens_sum(parts: Seq<Seq<char>>) -> int
    decreases parts.len(),
{
    if parts.len() == 0 {
        0
    } else {
        parts[0].len() + lens_sum(parts.drop_first())
    }
}

proof fn lemma_joined_len(parts: Seq<Seq<char>>, sep: Seq<char>)
    requires
        parts.len() >= 1,
    ensures
        joined(parts, sep).len() == lens_sum(parts) + (parts.len() - 1) * sep.len(),
    decreases parts.len(),
{
    if parts.len() == 1 {
        assert(parts.drop_first() =~= Seq::<Seq<char>>::empty());
        assert(lens_sum(parts.drop_first()) == 0);
        assert(lens_sum(parts) == parts[0].len());
        assert((parts.len() - 1) * sep.len() == 0) by {
            vstd::arithmetic::mul::lemma_mul_basics(sep.len() as int);
        }
    } else {
        let n = parts.len() as int;
        let s = sep.len() as int;
        lemma_joined_len(parts.drop_first(), sep);
        assert((n - 1) * s == 1 * s + (n - 2) * s) by {
            vstd::arithmetic::mul::lemma_mul_is_distributive_add_other_way(s, 1, n - 2);
        }
        assert(1 * s == s) by {
            vstd::arithmetic::mul::lemma_mul_basics(s);
        }
        assert(joined(parts, sep).len() == parts[0].len() + s + joined(parts.drop_first(), sep).len());
        assert(lens_sum(parts) == parts[0].len() + lens_sum(parts.drop_first()));
    }
}

/// The sum of the weights, in insertion order.
pub open spec fn sum_weights(cols: Seq<(Column, u8)>) -> int
    decreases cols.len(),
{
    if cols.len() == 0 {
        0
    } else {
        cols[0].1 + sum_weights(cols.drop_first())
    }
}

proof fn lemma_sum_weights_skip(cols: Seq<(Column, u8)>, i: int)
    requires
        0 <= i < cols.len(),
    ensures
        sum_weights(cols.skip(i)) == cols[i].1 + sum_weights(cols.skip(i + 1)),
{
    assert(cols.skip(i).drop_first() =~= cols.skip(i + 1));
}

proof fn lemma_sum_weights_lower(cols: Seq<(Column, u8)>)
    requires
        forall|i: int| 0 <= i < cols.len() ==> (#[trigger] cols[i]).1 >= 1,
    ensures
        sum_weights(cols) >= cols.len(),
    decreases cols.len(),
{
    if cols.len() > 0 {
        assert forall|i: int| 0 <= i < cols.drop_first().len() implies (#[trigger] cols.drop_first()[i]).1
            >= 1 by {
            assert(cols.drop_first()[i] == cols[i + 1]);
        }
        lemma_sum_weights_lower(cols.drop_first());
    }
}

proof fn lemma_cells_lens_sum(parts: Seq<Seq<char>>, cols: Seq<(Column, u8)>, unit: nat)
    requires
        parts.len() == cols.len(),
        forall|j: int| 0 <= j < cols.len() ==> (#[trigger] parts[j]).len() == (
        #[trigger] cols[j]).1 as nat * unit,
    ensures
        lens_sum(parts) == sum_weights(cols) * unit,
    decreases cols.len(),
{
    if cols.len() == 0 {
        assert(sum_weights(cols) * unit == 0) by {
            vstd::arithmetic::mul::lemma_mul_basics(unit as int);
        }
    } else {
        assert forall|j: int| 0 <= j < cols.drop_first().len() implies (#[trigger] parts.drop_first()[j]).len()
            == (#[trigger] cols.drop_first()[j]).1 as nat * unit by {
            assert(parts.drop_first()[j] == parts[j + 1]);
            assert(cols.drop_first()[j] == cols[j + 1]);
        }
        lemma_cells_lens_sum(parts.drop_first(), cols.drop_first(), unit);
        vstd::arithmetic::mul::lemma_mul_is_distributive_add_other_way(
            unit as int,
            cols[0].1 as int,
            sum_weights(cols.drop_first()),
        );
    }
}

/// One table column: a header name, where to align the header and the data
/// cells, and the key under which a row yields this column's value.
#[derive(Debug)]
pub struct Column {
    pub name: String,
    pub column_alignment: Alignment,
    pub data_alignment: Alignment,
    pub value_key: usize,
}

impl Column {
    /// A column with the given header name and value key, centered by
    /// default.
    pub fn new(name: &str, value_key: usize) -> (r: Column)
        ensures
            r.name@ == name@,
            r.column_alignment == Alignment::Center,
            r.data_alignment == Alignment::Center,
            r.value_key == value_key,
    {
        Column {
            name: String::from_str(name),
            column_alignment: Alignment::Center,
            data_alignment: Alignment::Center,
            value_key,
        }
    }

    /// The same column with the header alignment replaced.
    pub fn set_column_alignment(self, alignment: Alignment) -> (r: Column)
        ensures
            r == (Column { column_alignment: alignment, ..self }),
    {
        Column {
            name: self.name,
            column_alignment: alignment,
            data_alignment: self.data_alignment,
            value_key: self.value_key,
        }
    }

    /// The same column with the data alignment replaced.
    pub fn set_data_alignment(self, alignment: Alignment) -> (r: Column)
        ensures
            r == (Column { data_alignment: alignment, ..self }),
    {
        Column {
            name: self.name,
            column_alignment: self.column_alignment,
            data_alignment: alignment,
            value_key: self.value_key,
        }
    }
}

/// A row type that a table can render: asked for a cell key, it yields the
/// text to show in that column.
pub trait TableRow {
    /// The cell value under `key`, as specification text.
    spec fn cell_view(&self, key: int) -> Seq<char>;

    /// Produces the cell value under `key`.
    fn cell(&self, key: usize) -> (r: String)
        ensures
            r@ == self.cell_view(key as int),
    ;
}

/// Configuration errors that `build` reports; nothing is rendered until a
/// configuration passes all checks.
#[derive(Clone, Copy, Debug, PartialEq, Eq, Structural)]
pub enum ConsoleTableError {
    /// The column count reached the hard cap of 255.
    TooManyColumns,
    /// No column was configured.
    NoColumns,
    /// The target width cannot give every border character its place and
    /// every weight unit at least one character.
    InsufficientWidth,
}

/// Accumulates weighted columns and a target total line width.
#[derive(Debug)]
pub struct ConsoleTableBuilder {
    pub width: u8,
    pub columns: Vec<(Column, u8)>,
    pub vertical_separator: char,
    pub horizontal_separator: char,
    pub cross_separator: char,
}

/// A validated, immutable table layout, ready to render rows.
#[derive(Debug)]
pub struct ConsoleTable {
    pub width: u8,
    pub vertical_separator: char,
    pub horizontal_separator: char,
    pub cross_separator: char,
    pub columns: Vec<(Column, u8)>,
}

fn sum_weights_exec(columns: &Vec<(Column, u8)>) -> (r: u32)
    requires
        columns@.len() < 255,
    ensures
        r as int == sum_weights(columns@),
        r <= 255 * columns@.len(),
{
    let mut total: u32 = 0;
    let mut i: usize = 0;
    proof {
        assert(columns@.skip(0) =~= columns@);
    }
    while i < columns.len()
        invariant
            i <= columns@.len() < 255,
            total as int == sum_weights(columns@) - sum_weights(columns@.skip(i as int)),
            total <= 255 * i,
        decreases columns@.len() - i,
    {
        proof {
            lemma_sum_weights_skip(columns@, i as int);
        }
        total = total + (columns[i].1 as u32);
        i += 1;
    }
    proof {
        assert(columns@.skip(columns@.len() as int) =~= Seq::<(Column, u8)>::empty());
    }
    total
}

impl ConsoleTableBuilder {
    /// The narrowest total width this configuration could render at: one
    /// border character per column boundary plus one character per weight
    /// unit.
    pub open spec fn min_width(&self) -> int {
        self.columns@.len() + 1 + sum_weights(self.columns@)
    }

    /// A configuration that `build` accepts: at least one and fewer than 255
    /// columns, every weight positive, and a total width of at least
    /// `min_width`.
    pub open spec fn valid(&self) -> bool {
        &&& 1 <= self.columns@.len() < 255
        &&& (forall|i: int| 0 <= i < self.columns@.len() ==> (#[trigger] self.columns@[i]).1 >= 1)
        &&& self.min_width() <= self.width as int
    }

    /// Exactly what `build` returns.
    pub open spec fn build_spec(self) -> Result<ConsoleTable, ConsoleTableError> {
        if self.columns@.len() >= 255 {
            Err(ConsoleTableError::TooManyColumns)
        } else if self.columns@.len() == 0 {
            Err(ConsoleTableError::NoColumns)
        } else if (exists|i: int|
            0 <= i < self.columns@.len() && (#[trigger] self.columns@[i]).1 == 0) || (
        self.width as int) < self.min_width() {
            Err(ConsoleTableError::InsufficientWidth)
        } else {
            Ok(
                (ConsoleTable {
                    width: self.width,
                    vertical_separator: self.vertical_separator,
                    horizontal_separator: self.horizontal_separator,
                    cross_separator: self.cross_separator,
                    columns: self.columns,
                }),
            )
        }
    }

    /// A builder for a table `width` characters wide, with `|`, `-` and `+`
    /// as its separator characters and no columns yet.
    pub fn new(width: u8) -> (r: ConsoleTableBuilder)
        ensures
            r.width == width,
            r.columns@.len() == 0,
            r.vertical_separator == '|',
            r.horizontal_separator == '-',
            r.cross_separator == '+',
    {
        ConsoleTableBuilder {
            width,
            columns: Vec::new(),
            vertical_separator: '|',
            horizontal_separator: '-',
            cross_separator: '+',
        }
    }

    /// Appends a column with its proportional weight; first added is
    /// leftmost.
    pub fn add_column(self, column: Column, weight: u8) -> (r: ConsoleTableBuilder)
        ensures
            r.width == self.width,
            r.columns@ == self.columns@.push((column, weight)),
            r.vertical_separator == self.vertical_separator,
            r.horizontal_separator == self.horizontal_separator,
            r.cross_separator == self.cross_separator,
    {
        let ConsoleTableBuilder {
            width,
            mut columns,
            vertical_separator,
            horizontal_separator,
            cross_separator,
        } = self;
        columns.push((column, weight));
        ConsoleTableBuilder { width, columns, vertical_separator, horizontal_separator, cross_separator }
    }

    fn any_zero_weight(&self) -> (r: bool)
        ensures
            r == exists|i: int|
                0 <= i < self.columns@.len() && (#[trigger] self.columns@[i]).1 == 0,
    {
        let mut i: usize = 0;
        while i < self.columns.len()
            invariant
                i <= self.columns@.len(),
                forall|j: int| 0 <= j < i ==> (#[trigger] self.columns@[j]).1 != 0,
            decreases self.columns@.len() - i,
        {
            if self.columns[i].1 == 0 {
                return true;
            }
            i += 1;
        }
        false
    }

    fn get_min_width(&self) -> (r: u32)
        requires
            self.columns@.len() < 255,
        ensures
            r as int == self.min_width(),
    {
        let column_len = self.columns.len() as u32;
        let spacing_width = column_len + 1;
        let columns_width = sum_weights_exec(&self.columns);
        spacing_width + columns_width
    }

    /// Validates the configuration, consuming the builder: a table comes back
    /// exactly when the configuration is `valid`, and each error names the
    /// rule that failed.
    pub fn build(self) -> (r: Result<ConsoleTable, ConsoleTableError>)
        ensures
            r == self.build_spec(),
            r is Ok <==> self.valid(),
            r matches Ok(t) ==> t.wf(),
    {
        if self.columns.len() >= 255 {
            return Err(ConsoleTableError::TooManyColumns);
        }
        if self.columns.len() == 0 {
            return Err(ConsoleTableError::NoColumns);
        }
        if self.any_zero_weight() {
            return Err(ConsoleTableError::InsufficientWidth);
        }
        let min = self.get_min_width();
        if (self.width as u32) < min {
            return Err(ConsoleTableError::InsufficientWidth);
        }
        let ConsoleTableBuilder {
            width,
            columns,
            vertical_separator,
            horizontal_separator,
            cross_separator,
        } = self;
        Ok(ConsoleTable { width, vertical_separator, horizontal_separator, cross_separator, columns })
    }
}

/// The horizontal rule cells: each column's body filled with `h`.
pub open spec fn separator_cells(cols: Seq<(Column, u8)>, h: char, unit: nat) -> Seq<Seq<char>> {
    cols.map_values(|cw: (Column, u8)| repeat_char(h, cw.1 as nat * unit))
}

/// The header cells: each column's name formatted at its width.
pub open spec fn header_cells(cols: Seq<(Column, u8)>, unit: nat) -> Seq<Seq<char>> {
    cols.map_values(|cw: (Column, u8)| cell_text(cw.0.name@, cw.1 as nat * unit, cw.0.column_alignment))
}

/// One row's cells: the row's value under each column's key, formatted at
/// that column's width.
pub open spec fn data_cells<T: TableRow>(cols: Seq<(Column, u8)>, unit: nat, row: T) -> Seq<
    Seq<char>,
> {
    cols.map_values(
        |cw: (Column, u8)|
            cell_text(row.cell_view(cw.0.value_key as int), cw.1 as nat * unit, cw.0.data_alignment),
    )
}

/// `middle` between two copies of `edge`.
pub open spec fn bordered(middle: Seq<char>, edge: Seq<char>) -> Seq<char> {
    edge + middle + edge
}

proof fn lemma_line_len(t: ConsoleTable, cells: Seq<Seq<char>>, sep: char, line: Seq<char>)
    requires
        t.wf(),
        cells.len() == t.columns@.len(),
        forall|j: int|
            0 <= j < cells.len() ==> (#[trigger] cells[j]).len() == t.columns@[j].1 as nat * (
            t.spec_unit_width() as nat),
        line == bordered(joined(cells, seq![sep]), seq![sep]),
    ensures
        line.len() == t.rendered_width(),
{
    let unit = t.spec_unit_width();
    let s = sum_weights(t.columns@);
    let sepc = seq![sep];
    lemma_sum_weights_lower(t.columns@);
    vstd::arithmetic::div_mod::lemma_div_pos_is_pos(t.width - (t.columns@.len() + 1), s);
    assert(unit as nat as int == unit);
    lemma_joined_len(cells, sepc);
    lemma_cells_lens_sum(cells, t.columns@, unit as nat);
    assert(sepc.len() == 1);
    assert((cells.len() - 1) * sepc.len() == cells.len() - 1) by {
        vstd::arithmetic::mul::lemma_mul_basics(cells.len() - 1);
    }
    assert(line.len() == 2 + joined(cells, sepc).len());
    assert(joined(cells, sepc).len() == s * unit + (cells.len() - 1));
}

impl ConsoleTable {
    /// What `build` guarantees: a usable column count, positive weights, and
    /// a width large enough for every border and weight unit.
    pub open spec fn wf(&self) -> bool {
        &&& 1 <= self.columns@.len() < 255
        &&& (forall|i: int| 0 <= i < self.columns@.len() ==> (#[trigger] self.columns@[i]).1 >= 1)
        &&& self.columns@.len() + 1 + sum_weights(self.columns@) <= self.width as int
    }

    /// The characters one weight unit occupies: the interior width divided by
    /// the total weight, shared by all columns, remainder discarded.
    pub open spec fn spec_unit_width(&self) -> int {
        (self.width - (self.columns@.len() + 1)) / sum_weights(self.columns@)
    }

    /// The exact length of every rendered line: one border character per
    /// column boundary plus each weight unit's characters.
    pub open spec fn rendered_width(&self) -> int {
        self.columns@.len() + 1 + sum_weights(self.columns@) * self.spec_unit_width()
    }

    /// The horizontal rule line.
    pub open spec fn separator_line(&self) -> Seq<char> {
        bordered(
            joined(
                separator_cells(
                    self.columns@,
                    self.horizontal_separator,
                    self.spec_unit_width() as nat,
                ),
                seq![self.cross_separator],
            ),
            seq![self.cross_separator],
        )
    }

    /// The header line.
    pub open spec fn header_line(&self) -> Seq<char> {
        bordered(
            joined(
                header_cells(self.columns@, self.spec_unit_width() as nat),
                seq![self.vertical_separator],
            ),
            seq![self.vertical_separator],
        )
    }

    /// The line showing one row.
    pub open spec fn data_line<T: TableRow>(&self, row: T) -> Seq<char> {
        bordered(
            joined(
                data_cells(self.columns@, self.spec_unit_width() as nat, row),
                seq![self.vertical_separator],
            ),
            seq![self.vertical_separator],
        )
    }

    /// Everything one print call emits, in order: rule, header, rule, one
    /// line per row, rule.
    pub open spec fn rendered_lines<T: TableRow>(&self, rows: Seq<T>) -> Seq<Seq<char>> {
        seq![self.separator_line(), self.header_line(), self.separator_line()]
            + rows.map_values(|row: T| self.data_line(row)) + seq![self.separator_line()]
    }

    fn get_unit_width(&self) -> (r: u8)
        requires
            self.wf(),
        ensures
            r as int == self.spec_unit_width(),
            r >= 1,
    {
        let column_len = self.columns.len();
        let spacing_width = column_len + 1;
        let total_units = sum_weights_exec(&self.columns) as usize;
        let interior = (self.width as usize) - spacing_width;
        proof {
            lemma_sum_weights_lower(self.columns@);
            vstd::arithmetic::div_mod::lemma_div_non_zero(
                interior as int,
                sum_weights(self.columns@),
            );
            vstd::arithmetic::div_mod::lemma_div_nonincreasing(
                interior as int,
                sum_weights(self.columns@),
            );
        }
        (interior / total_units) as u8
    }

    fn render_separator(&self) -> (r: String)
        requires
            self.wf(),
        ensures
            r@ == self.separator_line(),
            r@.len() == self.rendered_width(),
    {
        let unit = self.get_unit_width();
        let ghost unit_nat = self.spec_unit_width() as nat;
        let mut cells: Vec<String> = Vec::new();
        let mut i: usize = 0;
        while i < self.columns.len()
            invariant
                self.wf(),
                unit as int == self.spec_unit_width(),
                i <= self.columns@.len(),
                cells@.len() == i,
                forall|j: int|
                    0 <= j < i ==> (#[trigger] cells@[j])@ == repeat_char(
                        self.horizontal_separator,
                        self.columns@[j].1 as nat * (unit as nat),
                    ),
            decreases self.columns@.len() - i,
        {
            let w = self.columns[i].1;
            proof {
                vstd::arithmetic::mul::lemma_mul_upper_bound(w as int, 255, unit as int, 255);
            }
            let count: usize = (w as usize) * (unit as usize);
            cells.push(repeat_char_text(self.horizontal_separator, count));
            i += 1;
        }
        let cross = char_text(self.cross_separator);
        let middle = join_with(&cells, cross.as_str());
        let line = add_value_to_start_and_end_of_string(middle, cross.as_str());
        proof {
            let cs = separator_cells(self.columns@, self.horizontal_separator, unit_nat);
            assert(cells.deep_view() =~= cs);
            assert(line@ =~= self.separator_line());
            lemma_line_len(*self, cs, self.cross_separator, line@);
        }
        line
    }

    fn render_header(&self) -> (r: String)
        requires
            self.wf(),
        ensures
            r@ == self.header_line(),
            r@.len() == self.rendered_width(),
    {
        let unit = self.get_unit_width();
        let ghost unit_nat = self.spec_unit_width() as nat;
        let mut cells: Vec<String> = Vec::new();
        let mut i: usize = 0;
        while i < self.columns.len()
            invariant
                self.wf(),
                unit as int == self.spec_unit_width(),
                i <= self.columns@.len(),
                cells@.len() == i,
                forall|j: int|
                    0 <= j < i ==> (#[trigger] cells@[j])@ == cell_text(
                        self.columns@[j].0.name@,
                        self.columns@[j].1 as nat * (unit as nat),
                        self.columns@[j].0.column_alignment,
                    ),
            decreases self.columns@.len() - i,
        {
            let column = &self.columns[i].0;
            let w = self.columns[i].1;
            proof {
                vstd::arithmetic::mul::lemma_mul_upper_bound(w as int, 255, unit as int, 255);
            }
            let width: usize = (w as usize) * (unit as usize);
            cells.push(get_formatted_cell(column.name.as_str(), width, column.column_alignment));
            i += 1;
        }
        let vertical = char_text(self.vertical_separator);
        let middle = join_with(&cells, vertical.as_str());
        let line = add_value_to_start_and_end_of_string(middle, vertical.as_str());
        proof {
            let cs = header_cells(self.columns@, unit_nat);
            assert(cells.deep_view() =~= cs);
            assert forall|j: int| 0 <= j < cs.len() implies (#[trigger] cs[j]).len()
                == self.columns@[j].1 as nat * unit_nat by {
                lemma_cell_text_len(
                    self.columns@[j].0.name@,
                    self.columns@[j].1 as nat * unit_nat,
                    self.columns@[j].0.column_alignment,
                );
            }
            assert(line@ =~= self.header_line());
            lemma_line_len(*self, cs, self.vertical_separator, line@);
        }
        line
    }

    fn render_data_row<T: TableRow>(&self, row: &T) -> (r: String)
        requires
            self.wf(),
        ensures
            r@ == self.data_line(*row),
            r@.len() == self.rendered_width(),
    {
        let unit = self.get_unit_width();
        let ghost unit_nat = self.spec_unit_width() as nat;
        let mut cells: Vec<String> = Vec::new();
        let mut i: usize = 0;
        while i < self.columns.len()
            invariant
                self.wf(),
                unit as int == self.spec_unit_width(),
                i <= self.columns@.len(),
                cells@.len() == i,
                forall|j: int|
                    0 <= j < i ==> (#[trigger] cells@[j])@ == cell_text(
                        row.cell_view(self.columns@[j].0.value_key as int),
                        self.columns@[j].1 as nat * (unit as nat),
                        self.columns@[j].0.data_alignment,
                    ),
            decreases self.columns@.len() - i,
        {
            let column = &self.columns[i].0;
            let w = self.columns[i].1;
            proof {
                vstd::arithmetic::mul::lemma_mul_upper_bound(w as int, 255, unit as int, 255);
            }
            let width: usize = (w as usize) * (unit as usize);
            let value = row.cell(column.value_key);
            cells.push(get_formatted_cell(value.as_str(), width, column.data_alignment));
            i += 1;
        }
        let vertical = char_text(self.vertical_separator);
        let middle = join_with(&cells, vertical.as_str());
        let line = add_value_to_start_and_end_of_string(middle, vertical.as_str());
        proof {
            let cs = data_cells(self.columns@, unit_nat, *row);
            assert(cells.deep_view() =~= cs);
            assert forall|j: int| 0 <= j < cs.len() implies (#[trigger] cs[j]).len()
                == self.columns@[j].1 as nat * unit_nat by {
                lemma_cell_text_len(
                    row.cell_view(self.columns@[j].0.value_key as int),
                    self.columns@[j].1 as nat * unit_nat,
                    self.columns@[j].0.data_alignment,
                );
            }
            assert(line@ =~= self.data_line(*row));
            lemma_line_len(*self, cs, self.vertical_separator, line@);
        }
        line
    }

    /// Renders everything one print call emits: a rule, the header, a rule,
    /// one line per row in order, and a trailing rule, every line exactly
    /// `rendered_width` characters.
    pub fn render_lines<T: TableRow>(&self, data: &Vec<T>) -> (r: Vec<String>)
        requires
            self.wf(),
        ensures
            r.deep_view() == self.rendered_lines(data@),
            r@.len() == data@.len() + 4,
            forall|i: int| 0 <= i < r@.len() ==> (#[trigger] r@[i])@.len() == self.rendered_width(),
    {
        let mut lines: Vec<String> = Vec::new();
        lines.push(self.render_separator());
        lines.push(self.render_header());
        lines.push(self.render_separator());
        let mut i: usize = 0;
        while i < data.len()
            invariant
                self.wf(),
                i <= data@.len(),
                lines@.len() == i + 3,
                lines@[0]@ == self.separator_line(),
                lines@[1]@ == self.header_line(),
                lines@[2]@ == self.separator_line(),
                forall|j: int|
                    3 <= j < i + 3 ==> (#[trigger] lines@[j])@ == self.data_line(data@[j - 3]),
                forall|j: int|
                    0 <= j < lines@.len() ==> (#[trigger] lines@[j])@.len() == self.rendered_width(),
            decreases data@.len() - i,
        {
            lines.push(self.render_data_row(&data[i]));
            i += 1;
        }
        lines.push(self.render_separator());
        proof {
            let rl = self.rendered_lines(data@);
            let mapped = data@.map_values(|row: T| self.data_line(row));
            assert forall|k: int| 0 <= k < lines@.len() implies lines.deep_view()[k] == rl[k] by {
                assert(lines.deep_view()[k] == (#[trigger] lines@[k])@);
                if 3 <= k < 3 + data@.len() {
                    assert(rl[k] == mapped[k - 3]);
                    assert(mapped[k - 3] == self.data_line(data@[k - 3]));
                }
            }
            assert(lines.deep_view() =~= rl);
        }
        lines
    }

    /// Prints the rendered table to standard output, reading the rows in
    /// order.
    pub fn print<T: TableRow>(&self, data: &Vec<T>)
        requires
            self.wf(),
    {
        let lines = self.render_lines(data);
        let mut i: usize = 0;
        while i < lines.len()
            decreases lines@.len() - i,
        {
            emit_line(lines[i].as_str());
            i += 1;
        }
    }
}

/// No column ever renders at zero width: the shared unit width of a
/// well-formed table is at least 1, so each column's rendered body, its
/// weight times that unit, is at least 1 as well.
pub proof fn lemma_unit_width_positive(t: ConsoleTable)
    requires
        t.wf(),
    ensures
        t.spec_unit_width() >= 1,
        forall|i: int|
            0 <= i < t.columns@.len() ==> (#[trigger] t.columns@[i]).1 as int * t.spec_unit_width()
                >= 1,
{
    lemma_sum_weights_lower(t.columns@);
    vstd::arithmetic::div_mod::lemma_div_non_zero(
        t.width - (t.columns@.len() + 1),
        sum_weights(t.columns@),
    );
    assert forall|i: int|
        0 <= i < t.columns@.len() implies (#[trigger] t.columns@[i]).1 as int * t.spec_unit_width()
        >= 1 by {
        vstd::arithmetic::mul::lemma_mul_ordering(
            t.columns@[i].1 as int,
            t.spec_unit_width(),
        );
    }
}

/// Width accounting: every line of a well-formed table is
/// `columns + 1 + total_weight * unit_width` characters, and that never
/// exceeds the configured total width (the remainder of the shared division
/// is left unallocated, not redistributed).
pub proof fn lemma_rendered_width_bounded(t: ConsoleTable)
    requires
        t.wf(),
    ensures
        t.rendered_width() <= t.width as int,
{
    let n = t.columns@.len() as int;
    let s = sum_weights(t.columns@);
    let x = t.width - (n + 1);
    lemma_sum_weights_lower(t.columns@);
    vstd::arithmetic::div_mod::lemma_fundamental_div_mod(x, s);
    vstd::arithmetic::div_mod::lemma_mod_bound(x, s);
}

} // verus!
