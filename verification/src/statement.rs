//! Parameterized statements and the builder that numbers their placeholders.
//!
//! A statement is text with positional placeholders `$1`, `$2`, ... and the
//! list of values bound to them. The builder owns the only counter from which
//! placeholder numbers are drawn, so that a statement chained after another
//! continues the numbering instead of computing a base of its own.

use crate::text::{append_decimal, decimal, lemma_decimal_injective};
use vstd::prelude::*;

verus! {

/// A value bound to a placeholder.
#[derive(Debug, Clone, PartialEq, Eq)]
pub enum SqlValue {
    /// A character string.
    Text(String),
    /// A real number, carried as its 64-bit pattern and never interpreted here.
    Real(u64),
    /// A position in a sequence, counted from zero.
    Sequence(u64),
}

/// What a bound value is, with text as a sequence of characters.
pub enum SqlValueView {
    Text(Seq<char>),
    Real(u64),
    Sequence(u64),
}

impl View for SqlValue {
    type V = SqlValueView;

    open spec fn view(&self) -> SqlValueView {
        match self {
            SqlValue::Text(text) => SqlValueView::Text(text@),
            SqlValue::Real(bits) => SqlValueView::Real(*bits),
            SqlValue::Sequence(position) => SqlValueView::Sequence(*position),
        }
    }
}

impl DeepView for SqlValue {
    type V = SqlValueView;

    open spec fn deep_view(&self) -> SqlValueView {
        self@
    }
}

impl SqlValue {
    /// A copy of this value.
    pub fn duplicate(&self) -> (copy: SqlValue)
        ensures
            copy@ == self@,
    {
        match self {
            SqlValue::Text(text) => SqlValue::Text(text.clone()),
            SqlValue::Real(bits) => SqlValue::Real(*bits),
            SqlValue::Sequence(position) => SqlValue::Sequence(*position),
        }
    }
}

/// Statement text together with the values bound to its placeholders, in
/// placeholder order: the value for `$i` is `params[i - 1]`.
#[derive(Debug, Clone, PartialEq, Eq)]
pub struct Statement {
    pub text: String,
    pub params: Vec<SqlValue>,
}

/// A statement as plain sequences.
pub struct StatementView {
    pub text: Seq<char>,
    pub params: Seq<SqlValueView>,
}

impl View for Statement {
    type V = StatementView;

    open spec fn view(&self) -> StatementView {
        StatementView { text: self.text@, params: self.params.deep_view() }
    }
}

impl DeepView for Statement {
    type V = StatementView;

    open spec fn deep_view(&self) -> StatementView {
        self@
    }
}

/// The text of the placeholder numbered `index`.
pub open spec fn placeholder(index: nat) -> Seq<char> {
    seq!['$'] + decimal(index)
}

/// `parts` written one after another with `separator` between neighbours.
pub open spec fn join(parts: Seq<Seq<char>>, separator: Seq<char>) -> Seq<char>
    decreases parts.len(),
{
    if parts.len() == 0 {
        Seq::empty()
    } else if parts.len() == 1 {
        parts[0]
    } else {
        join(parts.drop_last(), separator) + separator + parts.last()
    }
}

/// The number of the placeholder in row `row`, column `column`, of a block of
/// rows with `columns` columns each that follows `start` earlier placeholders.
pub open spec fn placeholder_index(start: nat, columns: nat, row: nat, column: nat) -> nat {
    start + row * columns + column + 1
}

/// The first `count` placeholders that follow `base` earlier ones.
pub open spec fn placeholders_after(base: nat, count: nat) -> Seq<Seq<char>> {
    Seq::new(count, |c: int| placeholder((base + c + 1) as nat))
}

/// One row as a parenthesized group of `columns` placeholders that follow
/// `base` earlier ones: `($4, $5, $6)` for a base of three.
pub open spec fn row_text(base: nat, columns: nat) -> Seq<char> {
    "("@ + join(placeholders_after(base, columns), ", "@) + ")"@
}

/// The first `count` rows of a block of rows with `columns` columns each that
/// follows `start` earlier placeholders.
pub open spec fn rows_after(start: nat, count: nat, columns: nat) -> Seq<Seq<char>> {
    Seq::new(count, |r: int| row_text((start + r * columns) as nat, columns))
}

/// `rows` groups of `columns` placeholders each, separated by commas, numbered
/// row by row from `start + 1`.
pub open spec fn values_text(start: nat, rows: nat, columns: nat) -> Seq<char> {
    join(rows_after(start, rows, columns), ", "@)
}

/// The values of all rows in one list, row after row.
pub open spec fn concat_rows(rows: Seq<Seq<SqlValueView>>) -> Seq<SqlValueView>
    decreases rows.len(),
{
    if rows.len() == 0 {
        Seq::empty()
    } else {
        concat_rows(rows.drop_last()) + rows.last()
    }
}

/// A write of parent rows with, chained behind it, a write of child rows, as
/// one statement that the store applies in full or not at all.
///
/// The parent rows take the placeholders from `$1`; the child rows continue
/// where the parent rows ended. With no child rows there is nothing to chain,
/// and the statement is the parent write alone.
pub open spec fn chained_insert(
    parent_insert: Seq<char>,
    parent_rows: Seq<Seq<SqlValueView>>,
    parent_columns: nat,
    child_insert: Seq<char>,
    child_rows: Seq<Seq<SqlValueView>>,
    child_columns: nat,
) -> StatementView {
    if child_rows.len() == 0 {
        StatementView {
            text: parent_insert + values_text(0, parent_rows.len(), parent_columns) + ";"@,
            params: concat_rows(parent_rows),
        }
    } else {
        StatementView {
            text: "WITH parent AS ("@ + parent_insert + values_text(
                0,
                parent_rows.len(),
                parent_columns,
            ) + ") "@ + child_insert + values_text(
                parent_rows.len() * parent_columns,
                child_rows.len(),
                child_columns,
            ) + ";"@,
            params: concat_rows(parent_rows) + concat_rows(child_rows),
        }
    }
}

/// Builds one statement, or several chained into one, while keeping the
/// placeholder numbering in a single place: the next placeholder always gets
/// the number of values bound so far plus one.
#[derive(Debug, Clone, PartialEq, Eq)]
pub struct BatchStatementBuilder {
    pub text: String,
    pub params: Vec<SqlValue>,
}

impl BatchStatementBuilder {
    /// The running counter: how many placeholders have been emitted so far.
    pub open spec fn counter(&self) -> nat {
        self.params@.len()
    }

    /// A builder with no text and the counter at zero.
    pub fn new() -> (builder: BatchStatementBuilder)
        ensures
            builder.text@ == Seq::<char>::empty(),
            builder.params.deep_view() == Seq::<SqlValueView>::empty(),
            builder.counter() == 0,
    {
        let builder = BatchStatementBuilder { text: String::new(), params: Vec::new() };
        assert(builder.params.deep_view() =~= Seq::<SqlValueView>::empty());
        builder
    }

    /// Appends literal statement text; the counter stays where it is.
    pub fn push_text(&mut self, fragment: &str)
        ensures
            final(self).text@ == old(self).text@ + fragment@,
            final(self).params == old(self).params,
    {
        self.text.append(fragment);
    }

    /// Binds `value` to the next placeholder and appends that placeholder.
    pub fn bind(&mut self, value: SqlValue)
        ensures
            final(self).text@ == old(self).text@ + placeholder(old(self).counter() + 1),
            final(self).params.deep_view() == old(self).params.deep_view().push(value@),
            final(self).counter() == old(self).counter() + 1,
    {
        proof {
            reveal_strlit("$");
        }
        self.params.push(value);
        self.text.append("$");
        let index: usize = self.params.len();
        append_decimal(&mut self.text, index as u64);
        proof {
            assert("$"@ =~= seq!['$']);
            assert(final(self).text@ =~= old(self).text@ + placeholder(old(self).counter() + 1));
            assert(final(self).params.deep_view() =~= old(self).params.deep_view().push(value@));
        }
    }
    /// Appends one parenthesized group with a placeholder for each value of
    /// `row`, and binds the values in the same order.
    pub fn push_row(&mut self, row: &Vec<SqlValue>)
        ensures
            final(self).text@ == old(self).text@ + row_text(old(self).counter(), row@.len()),
            final(self).params.deep_view() == old(self).params.deep_view() + row.deep_view(),
            final(self).counter() == old(self).counter() + row@.len(),
    {
        let ghost base = self.counter();
        let ghost text0 = self.text@;
        let ghost params0 = self.params.deep_view();
        self.text.append("(");
        let mut column: usize = 0;
        while column < row.len()
            invariant
                column <= row.len(),
                self.counter() == base + column,
                self.text@ == text0 + "("@ + join(placeholders_after(base, column as nat), ", "@),
                self.params.deep_view() == params0 + row.deep_view().take(column as int),
            decreases row.len() - column,
        {
            let ghost before = self.text@;
            if column > 0 {
                self.text.append(", ");
            }
            self.bind(row[column].duplicate());
            proof {
                let done = placeholders_after(base, column as nat);
                let next = placeholders_after(base, (column + 1) as nat);
                assert(next.drop_last() =~= done);
                assert(next.last() == placeholder((base + column + 1) as nat));
                assert(self.text@ =~= text0 + "("@ + join(next, ", "@));
                assert(self.params.deep_view() =~= params0 + row.deep_view().take(column + 1));
            }
            column += 1;
        }
        self.text.append(")");
        proof {
            assert(row.deep_view().take(row@.len() as int) =~= row.deep_view());
            assert(self.text@ =~= text0 + row_text(base, row@.len()));
        }
    }

    /// Appends `rows` as comma-separated groups of `columns` placeholders each
    /// and binds every value, row after row. The counter advances by
    /// `rows.len() * columns`.
    pub fn push_rows(&mut self, rows: &Vec<Vec<SqlValue>>, columns: usize)
        requires
            forall|r: int| 0 <= r < rows@.len() ==> (#[trigger] rows@[r])@.len() == columns,
        ensures
            final(self).text@ == old(self).text@ + values_text(
                old(self).counter(),
                rows@.len(),
                columns as nat,
            ),
            final(self).params.deep_view() == old(self).params.deep_view() + concat_rows(
                rows.deep_view(),
            ),
            final(self).counter() == old(self).counter() + rows@.len() * columns,
    {
        let ghost start = self.counter();
        let ghost text0 = self.text@;
        let ghost params0 = self.params.deep_view();
        let mut r: usize = 0;
        assert(rows.deep_view().take(0) =~= Seq::<Seq<SqlValueView>>::empty());
        while r < rows.len()
            invariant
                r <= rows.len(),
                forall|i: int| 0 <= i < rows@.len() ==> (#[trigger] rows@[i])@.len() == columns,
                self.counter() == start + r * columns,
                self.text@ == text0 + join(rows_after(start, r as nat, columns as nat), ", "@),
                self.params.deep_view() == params0 + concat_rows(rows.deep_view().take(r as int)),
            decreases rows.len() - r,
        {
            if r > 0 {
                self.text.append(", ");
            }
            self.push_row(&rows[r]);
            proof {
                let done = rows_after(start, r as nat, columns as nat);
                let next = rows_after(start, (r + 1) as nat, columns as nat);
                assert(next.drop_last() =~= done);
                assert(next.last() == row_text((start + r * columns) as nat, columns as nat));
                assert(self.text@ =~= text0 + join(next, ", "@));
                let taken = rows.deep_view().take(r + 1);
                assert(taken.drop_last() =~= rows.deep_view().take(r as int));
                assert(taken.last() == rows@[r as int].deep_view());
                assert(self.params.deep_view() =~= params0 + concat_rows(taken));
                assert((r + 1) * columns == r * columns + columns) by (nonlinear_arith);
            }
            r += 1;
        }
        proof {
            assert(rows.deep_view().take(rows@.len() as int) =~= rows.deep_view());
        }
    }

    /// How many values have been bound so far.
    pub fn bound(&self) -> (count: usize)
        ensures
            count == self.counter(),
    {
        self.params.len()
    }

    /// The finished statement.
    pub fn finish(self) -> (statement: Statement)
        ensures
            statement@ == (StatementView { text: self.text@, params: self.params.deep_view() }),
    {
        Statement { text: self.text, params: self.params }
    }

    /// A write of `parent_rows` with a write of `child_rows` chained behind
    /// it, numbered from one counter.
    pub fn parent_with_children(
        parent_insert: &str,
        parent_rows: &Vec<Vec<SqlValue>>,
        parent_columns: usize,
        child_insert: &str,
        child_rows: &Vec<Vec<SqlValue>>,
        child_columns: usize,
    ) -> (statement: Statement)
        requires
            forall|r: int|
                0 <= r < parent_rows@.len() ==> (#[trigger] parent_rows@[r])@.len()
                    == parent_columns,
            forall|r: int|
                0 <= r < child_rows@.len() ==> (#[trigger] child_rows@[r])@.len() == child_columns,
        ensures
            statement@ == chained_insert(
                parent_insert@,
                parent_rows.deep_view(),
                parent_columns as nat,
                child_insert@,
                child_rows.deep_view(),
                child_columns as nat,
            ),
    {
        let mut builder = BatchStatementBuilder::new();
        if child_rows.len() == 0 {
            builder.push_text(parent_insert);
            builder.push_rows(parent_rows, parent_columns);
            builder.push_text(";");
            let statement = builder.finish();
            proof {
                assert(statement@.text =~= parent_insert@ + values_text(
                    0,
                    parent_rows@.len(),
                    parent_columns as nat,
                ) + ";"@);
                assert(statement@.params =~= concat_rows(parent_rows.deep_view()));
            }
            statement
        } else {
            builder.push_text("WITH parent AS (");
            builder.push_text(parent_insert);
            builder.push_rows(parent_rows, parent_columns);
            builder.push_text(") ");
            builder.push_text(child_insert);
            builder.push_rows(child_rows, child_columns);
            builder.push_text(";");
            let statement = builder.finish();
            proof {
                assert(statement@.text =~= "WITH parent AS ("@ + parent_insert@ + values_text(
                    0,
                    parent_rows@.len(),
                    parent_columns as nat,
                ) + ") "@ + child_insert@ + values_text(
                    parent_rows@.len() * parent_columns as nat,
                    child_rows@.len(),
                    child_columns as nat,
                ) + ";"@);
                assert(statement@.params =~= concat_rows(parent_rows.deep_view()) + concat_rows(
                    child_rows.deep_view(),
                ));
            }
            statement
        }
    }
}

/// The text of `rows` groups of `columns` placeholders each, numbered from
/// `start + 1`, together with the counter after them; none where the counter
/// would pass the largest number that the machine can count to.
pub open spec fn placeholder_rows_from(rows: nat, columns: nat, start: nat) -> Option<
    (Seq<char>, nat),
> {
    if start + rows * columns <= usize::MAX {
        Some((values_text(start, rows, columns), start + rows * columns))
    } else {
        None
    }
}

/// The placeholders for a block of `row_count` rows of `columns` values each
/// that follows `start_index` earlier placeholders, and the counter as it
/// stands after the block. It depends on these three numbers alone.
pub fn placeholder_rows(row_count: usize, columns: usize, start_index: usize) -> (result: Option<
    (String, usize),
>)
    ensures
        match result {
            Some((text, next)) => placeholder_rows_from(
                row_count as nat,
                columns as nat,
                start_index as nat,
            ) == Some((text@, next as nat)),
            None => placeholder_rows_from(row_count as nat, columns as nat, start_index as nat)
                is None,
        },
{
    let total = match row_count.checked_mul(columns) {
        Some(total) => total,
        None => {
            return None;
        },
    };
    let next = match start_index.checked_add(total) {
        Some(next) => next,
        None => {
            return None;
        },
    };
    let mut text = String::new();
    let mut counter: usize = start_index;
    let mut r: usize = 0;
    while r < row_count
        invariant
            r <= row_count,
            counter == start_index + r * columns,
            next == start_index + row_count * columns,
            text@ == join(rows_after(start_index as nat, r as nat, columns as nat), ", "@),
        decreases row_count - r,
    {
        let ghost before = text@;
        let ghost base = counter as nat;
        proof {
            assert(r * columns + columns <= row_count * columns) by (nonlinear_arith)
                requires
                    r < row_count,
            ;
        }
        if r > 0 {
            text.append(", ");
        }
        text.append("(");
        let ghost opened = text@;
        let mut c: usize = 0;
        while c < columns
            invariant
                c <= columns,
                counter == base + c,
                base + columns <= next,
                text@ == opened + join(placeholders_after(base, c as nat), ", "@),
            decreases columns - c,
        {
            if c > 0 {
                text.append(", ");
            }
            counter += 1;
            proof {
                reveal_strlit("$");
            }
            text.append("$");
            append_decimal(&mut text, counter as u64);
            proof {
                let done = placeholders_after(base, c as nat);
                let more = placeholders_after(base, (c + 1) as nat);
                assert(more.drop_last() =~= done);
                assert("$"@ =~= seq!['$']);
                assert(more.last() =~= seq!['$'] + decimal((base + c + 1) as nat));
                assert(text@ =~= opened + join(more, ", "@));
            }
            c += 1;
        }
        text.append(")");
        proof {
            let done = rows_after(start_index as nat, r as nat, columns as nat);
            let more = rows_after(start_index as nat, (r + 1) as nat, columns as nat);
            assert(more.drop_last() =~= done);
            assert(more.last() == row_text(base, columns as nat));
            assert(text@ =~= join(more, ", "@));
            assert((r + 1) * columns == r * columns + columns) by (nonlinear_arith);
        }
        r += 1;
    }
    Some((text, next))
}

/// In the text of a block, the placeholder that stands in row `row` and
/// column `column` is the one that carries the number of that cell.
pub proof fn law_text_carries_block_numbers(
    start: nat,
    rows: nat,
    columns: nat,
    row: nat,
    column: nat,
)
    requires
        row < rows,
        column < columns,
    ensures
        rows_after(start, rows, columns)[row as int] == row_text(start + row * columns, columns),
        placeholders_after(start + row * columns, columns)[column as int] == placeholder(
            placeholder_index(start, columns, row, column),
        ),
{
}

/// Placeholders with different numbers are different texts.
pub proof fn law_placeholder_tells_its_number(a: nat, b: nat)
    requires
        placeholder(a) == placeholder(b),
    ensures
        a == b,
{
    assert(decimal(a) =~= placeholder(a).subrange(1, placeholder(a).len() as int));
    assert(decimal(b) =~= placeholder(b).subrange(1, placeholder(b).len() as int));
    lemma_decimal_injective(a, b);
}

/// Within a block of `rows` by `columns` placeholders emitted after `start`
/// earlier ones, the placeholder of a cell is numbered by its position in
/// row-major order, counted from `start + 1`; hence the block holds exactly
/// `rows * columns` placeholders.
pub proof fn law_block_numbered_in_order(start: nat, rows: nat, columns: nat, row: nat, column: nat)
    requires
        row < rows,
        column < columns,
    ensures
        row * columns + column < rows * columns,
        placeholder_index(start, columns, row, column) == start + 1 + (row * columns + column),
        start + 1 <= placeholder_index(start, columns, row, column) <= start + rows * columns,
{
    assert(row * columns + column < rows * columns) by (nonlinear_arith)
        requires
            row < rows,
            column < columns,
    ;
}

/// Two different cells of one block never carry the same number.
pub proof fn law_block_numbers_distinct(
    start: nat,
    columns: nat,
    row_a: nat,
    column_a: nat,
    row_b: nat,
    column_b: nat,
)
    requires
        column_a < columns,
        column_b < columns,
        placeholder_index(start, columns, row_a, column_a) == placeholder_index(
            start,
            columns,
            row_b,
            column_b,
        ),
    ensures
        row_a == row_b,
        column_a == column_b,
{
    assert(row_a == row_b && column_a == column_b) by (nonlinear_arith)
        requires
            column_a < columns,
            column_b < columns,
            row_a * columns + column_a == row_b * columns + column_b,
    ;
}

/// Every number from `start + 1` to `start + rows * columns` is carried by
/// some cell of the block: the numbers form a contiguous range.
pub proof fn law_block_numbers_contiguous(start: nat, rows: nat, columns: nat, number: nat)
    requires
        start < number <= start + rows * columns,
    ensures
        exists|row: nat, column: nat|
            row < rows && column < columns && placeholder_index(start, columns, row, column)
                == number,
{
    let position = (number - start - 1) as nat;
    assert(columns > 0) by (nonlinear_arith)
        requires
            position < rows * columns,
    ;
    let row = position / columns;
    let column = position % columns;
    assert(row < rows && row * columns + column == position) by (nonlinear_arith)
        requires
            position < rows * columns,
            columns > 0,
            row == position / columns,
            column == position % columns,
    ;
    assert(row < rows && column < columns && placeholder_index(start, columns, row, column)
        == number);
}

/// A block chained after another starts where the first one ended, so every
/// number of the second block is greater than every number of the first: no
/// number is used twice.
pub proof fn law_chained_blocks_share_no_number(
    start: nat,
    rows: nat,
    columns: nat,
    row: nat,
    column: nat,
    next_columns: nat,
    next_row: nat,
    next_column: nat,
)
    requires
        row < rows,
        column < columns,
    ensures
        placeholder_index(start, columns, row, column) < placeholder_index(
            start + rows * columns,
            next_columns,
            next_row,
            next_column,
        ),
{
    law_block_numbered_in_order(start, rows, columns, row, column);
}

/// In a list of rows of `columns` values each, the value of a cell stands at
/// the cell's row-major position: the value bound to a placeholder is the one
/// whose position is the placeholder's number minus one.
pub proof fn law_values_follow_numbering(
    earlier: Seq<SqlValueView>,
    rows: Seq<Seq<SqlValueView>>,
    columns: nat,
    row: nat,
    column: nat,
)
    requires
        forall|r: int| 0 <= r < rows.len() ==> (#[trigger] rows[r]).len() == columns,
        row < rows.len(),
        column < columns,
    ensures
        concat_rows(rows).len() == rows.len() * columns,
        (earlier + concat_rows(rows))[placeholder_index(earlier.len(), columns, row, column) - 1]
            == rows[row as int][column as int],
    decreases rows.len(),
{
    let head = rows.drop_last();
    if head.len() > 0 {
        if row < head.len() {
            law_values_follow_numbering(earlier, head, columns, row, column);
        } else {
            law_values_follow_numbering(earlier, head, columns, 0, column);
        }
    }
    assert(concat_rows(head).len() == head.len() * columns) by {
        if head.len() == 0 {
            assert(concat_rows(head) =~= Seq::<SqlValueView>::empty());
            assert(head.len() * columns == 0) by (nonlinear_arith)
                requires
                    head.len() == 0,
            ;
        }
    }
    assert(rows.len() * columns == head.len() * columns + columns) by (nonlinear_arith)
        requires
            rows.len() == head.len() + 1,
    ;
    law_block_numbered_in_order(earlier.len(), rows.len(), columns, row, column);
    if row < head.len() {
        assert(head[row as int] == rows[row as int]);
        assert(row * columns + column < head.len() * columns) by (nonlinear_arith)
            requires
                row < head.len(),
                column < columns,
        ;
    } else {
        assert(row * columns == head.len() * columns) by (nonlinear_arith)
            requires
                row == head.len(),
        ;
    }
}

} // verus!
