//! Decimal rendering with zero padding, and a fixed-width text table renderer.
use vstd::prelude::*;

verus! {

/// The character of a decimal digit.
pub open spec fn digit_char(d: nat) -> char {
    seq!['0', '1', '2', '3', '4', '5', '6', '7', '8', '9'][d as int]
}

/// The shortest decimal representation of `n`.
pub open spec fn decimal(n: nat) -> Seq<char>
    decreases n,
{
    if n < 10 {
        seq![digit_char(n)]
    } else {
        decimal(n / 10).push(digit_char(n % 10))
    }
}

/// Decimal text of an integer, with a leading `-` when it is negative.
pub open spec fn signed_decimal(n: int) -> Seq<char> {
    if n < 0 {
        seq!['-'] + decimal((-n) as nat)
    } else {
        decimal(n as nat)
    }
}

/// `n` repeated characters `c`.
pub open spec fn repeat_char(c: char, n: nat) -> Seq<char> {
    Seq::new(n, |i: int| c)
}

/// `decimal(n)` with leading zeros up to `width` characters.
pub open spec fn padded_decimal(n: nat, width: nat) -> Seq<char> {
    if decimal(n).len() < width {
        repeat_char('0', (width - decimal(n).len()) as nat) + decimal(n)
    } else {
        decimal(n)
    }
}

/// Tells whether two texts are equal, character for character.
pub(crate) fn same_text(a: &str, b: &str) -> (r: bool)
    ensures
        r == (a@ == b@),
{
    String::from_str(a) == String::from_str(b)
}

/// Relies on String::push: the character is appended at the end.
#[verifier::external_body]
pub(crate) fn push_char(s: &mut String, c: char)
    ensures
        final(s)@ == old(s)@.push(c),
{
    s.push(c)
}

fn digit_to_char(d: u64) -> (c: char)
    requires
        d < 10,
    ensures
        c == digit_char(d as nat),
{
    match d {
        0 => '0',
        1 => '1',
        2 => '2',
        3 => '3',
        4 => '4',
        5 => '5',
        6 => '6',
        7 => '7',
        8 => '8',
        _ => '9',
    }
}

/// Appends the decimal digits of `n`.
pub(crate) fn push_decimal(s: &mut String, n: u64)
    ensures
        final(s)@ == old(s)@ + decimal(n as nat),
    decreases n,
{
    if n >= 10 {
        push_decimal(s, n / 10);
        push_char(s, digit_to_char(n % 10));
    } else {
        push_char(s, digit_to_char(n));
    }
}

/// Appends the decimal text of `n`, signed.
pub(crate) fn push_signed_decimal(s: &mut String, n: i32)
    ensures
        final(s)@ == old(s)@ + signed_decimal(n as int),
{
    if n < 0 {
        push_char(s, '-');
        let magnitude = (0 - (n as i64)) as u64;
        let ghost with_sign = s@;
        push_decimal(s, magnitude);
        assert(s@ =~= with_sign.drop_last() + signed_decimal(n as int));
    } else {
        push_decimal(s, n as u64);
    }
}

/// Appends `n` copies of `c`.
pub(crate) fn push_repeated(s: &mut String, c: char, n: usize)
    ensures
        final(s)@ == old(s)@ + repeat_char(c, n as nat),
{
    let ghost start = s@;
    let mut i: usize = 0;
    while i < n
        invariant
            i <= n,
            s@ == start + repeat_char(c, i as nat),
        decreases n - i,
    {
        push_char(s, c);
        i += 1;
        assert(s@ =~= start + repeat_char(c, i as nat));
    }
}

/// Ten to the power `k`.
pub open spec fn pow10(k: nat) -> nat
    decreases k,
{
    if k == 0 {
        1
    } else {
        10 * pow10((k - 1) as nat)
    }
}

/// A number below `10^k` has at most `k` digits.
proof fn lemma_decimal_len_bound(n: nat, k: nat)
    requires
        n < pow10(k),
        k >= 1,
    ensures
        1 <= decimal(n).len() <= k,
    decreases n,
{
    if n >= 10 {
        assert(k >= 2) by {
            if k == 1 {
                assert(pow10(1) == 10 * pow10(0));
            }
        }
        assert(pow10(k) == 10 * pow10((k - 1) as nat));
        assert(n / 10 < pow10((k - 1) as nat)) by (nonlinear_arith)
            requires
                n < 10 * pow10((k - 1) as nat),
        ;
        lemma_decimal_len_bound(n / 10, (k - 1) as nat);
    }
}

/// The character is one of the ten decimal digits.
pub open spec fn is_digit(c: char) -> bool {
    c == '0' || c == '1' || c == '2' || c == '3' || c == '4' || c == '5' || c == '6' || c == '7'
        || c == '8' || c == '9'
}

/// The number a digit character stands for.
pub open spec fn digit_value(c: char) -> nat {
    if c == '1' {
        1
    } else if c == '2' {
        2
    } else if c == '3' {
        3
    } else if c == '4' {
        4
    } else if c == '5' {
        5
    } else if c == '6' {
        6
    } else if c == '7' {
        7
    } else if c == '8' {
        8
    } else if c == '9' {
        9
    } else {
        0
    }
}

/// The number that a text of decimal digits reads as; the empty text reads 0.
pub open spec fn value_of(s: Seq<char>) -> nat
    decreases s.len(),
{
    if s.len() == 0 {
        0
    } else {
        value_of(s.drop_last()) * 10 + digit_value(s.last())
    }
}

proof fn lemma_digit_char(d: nat)
    requires
        d < 10,
    ensures
        is_digit(digit_char(d)),
        digit_value(digit_char(d)) == d,
{
    let digits = seq!['0', '1', '2', '3', '4', '5', '6', '7', '8', '9'];
    assert(digits[0] == '0' && digits[1] == '1' && digits[2] == '2' && digits[3] == '3' && digits[4]
        == '4' && digits[5] == '5' && digits[6] == '6' && digits[7] == '7' && digits[8] == '8'
        && digits[9] == '9');
}

/// The decimal text of `n` is all digits and reads back as `n`.
proof fn lemma_decimal_reads_back(n: nat)
    ensures
        value_of(decimal(n)) == n,
        forall|i: int| 0 <= i < decimal(n).len() ==> is_digit(#[trigger] decimal(n)[i]),
    decreases n,
{
    if n < 10 {
        lemma_digit_char(n);
        assert(decimal(n).drop_last() =~= Seq::<char>::empty());
        assert(value_of(decimal(n)) == value_of(decimal(n).drop_last()) * 10 + digit_value(decimal(n).last()));
    } else {
        lemma_decimal_reads_back(n / 10);
        lemma_digit_char(n % 10);
        assert(decimal(n).drop_last() =~= decimal(n / 10));
        assert(decimal(n).last() == digit_char(n % 10));
        assert((n / 10) * 10 + n % 10 == n);
        assert(value_of(decimal(n)) == value_of(decimal(n / 10)) * 10 + digit_value(decimal(n).last()));
    }
}

/// Leading zeros do not change what a text reads as.
proof fn lemma_leading_zeros(k: nat, s: Seq<char>)
    ensures
        value_of(repeat_char('0', k) + s) == value_of(s),
    decreases s.len() + k,
{
    if s.len() == 0 {
        assert(repeat_char('0', k) + s =~= repeat_char('0', k));
        if k > 0 {
            assert(repeat_char('0', k).drop_last() =~= repeat_char('0', (k - 1) as nat) + s);
            lemma_leading_zeros((k - 1) as nat, s);
        }
    } else {
        assert((repeat_char('0', k) + s).drop_last() =~= repeat_char('0', k) + s.drop_last());
        lemma_leading_zeros(k, s.drop_last());
    }
}

/// Below `10^width`, the padded decimal text of `n` has exactly `width`
/// digits and reads back as `n`.
pub proof fn lemma_padded_decimal_reads_back(n: nat, width: nat)
    requires
        n < pow10(width),
        width >= 1,
    ensures
        padded_decimal(n, width).len() == width,
        value_of(padded_decimal(n, width)) == n,
        forall|i: int| 0 <= i < width ==> is_digit(#[trigger] padded_decimal(n, width)[i]),
{
    lemma_decimal_len_bound(n, width);
    lemma_decimal_reads_back(n);
    let len = decimal(n).len();
    if len < width {
        lemma_leading_zeros((width - len) as nat, decimal(n));
        assert forall|i: int| 0 <= i < width implies is_digit(#[trigger] padded_decimal(n, width)[i]) by {
            if i >= width - len {
                assert(padded_decimal(n, width)[i] == decimal(n)[i - (width - len)]);
            }
        }
    }
}

/// Number of decimal digits of `n`.
fn decimal_len(n: u64) -> (r: usize)
    ensures
        r as nat == decimal(n as nat).len(),
    decreases n,
{
    proof {
        reveal_with_fuel(pow10, 21);
        assert(pow10(20) == 100_000_000_000_000_000_000);
        lemma_decimal_len_bound(n as nat, 20);
    }
    if n >= 10 {
        decimal_len(n / 10) + 1
    } else {
        1
    }
}

/// Decimal text of `digits`, left-padded with zeros to at least `width` characters.
fn with_at_least_digits(digits: u64, width: usize) -> (r: String)
    ensures
        r@ == padded_decimal(digits as nat, width as nat),
{
    let mut r = String::new();
    let len = decimal_len(digits);
    if len < width {
        push_repeated(&mut r, '0', width - len);
    }
    push_decimal(&mut r, digits);
    assert(r@ =~= padded_decimal(digits as nat, width as nat));
    r
}

/// Decimal text of `digits` with at least two characters (`7` gives `07`).
pub fn with_at_least_2_digits(digits: u64) -> (r: String)
    ensures
        r@ == padded_decimal(digits as nat, 2),
{
    with_at_least_digits(digits, 2)
}

/// Decimal text of `digits` with at least three characters (`79` gives `079`).
pub fn with_at_least_3_digits(digits: u64) -> (r: String)
    ensures
        r@ == padded_decimal(digits as nat, 3),
{
    with_at_least_digits(digits, 3)
}

/// Decimal text of `digits` with at least four characters (`2` gives `0002`).
pub fn with_at_least_4_digits(digits: u64) -> (r: String)
    ensures
        r@ == padded_decimal(digits as nat, 4),
{
    with_at_least_digits(digits, 4)
}

/// The characters of every cell of a grid.
pub open spec fn grid_view(t: Seq<Vec<String>>) -> Seq<Seq<Seq<char>>> {
    Seq::new(t.len(), |i: int| Seq::new(t[i]@.len(), |j: int| t[i]@[j]@))
}

/// Every row has as many cells as the first one.
pub open spec fn is_rectangular(g: Seq<Seq<Seq<char>>>) -> bool {
    forall|i: int| 0 <= i < g.len() ==> #[trigger] g[i].len() == g[0].len()
}

/// Number of columns of a grid; an empty grid has none.
pub open spec fn column_count(g: Seq<Seq<Seq<char>>>) -> nat {
    if g.len() == 0 {
        0
    } else {
        g[0].len()
    }
}

/// Largest character count in column `j` among the first `n` rows.
pub open spec fn max_width_upto(g: Seq<Seq<Seq<char>>>, j: int, n: int) -> nat
    decreases n,
{
    if n <= 0 {
        0
    } else {
        let w = g[n - 1][j].len();
        let m = max_width_upto(g, j, n - 1);
        if w > m {
            w
        } else {
            m
        }
    }
}

/// Natural width of each column: its widest cell, counted in characters.
pub open spec fn column_widths(g: Seq<Seq<Seq<char>>>) -> Seq<nat> {
    Seq::new(column_count(g), |j: int| max_width_upto(g, j, g.len() as int))
}

/// Each natural width plus the gutter `rim`.
pub open spec fn padded_widths(g: Seq<Seq<Seq<char>>>, rim: nat) -> Seq<nat> {
    Seq::new(column_count(g), |j: int| column_widths(g)[j] + rim)
}

/// Sum of the first `n` widths.
pub open spec fn sum_upto(w: Seq<nat>, n: int) -> nat
    decreases n,
{
    if n <= 0 {
        0
    } else {
        sum_upto(w, n - 1) + w[n - 1]
    }
}

/// Sum of all widths.
pub open spec fn sum_widths(w: Seq<nat>) -> nat {
    sum_upto(w, w.len() as int)
}

/// Characters needed for `rows` rows of the given widths, one newline each.
pub open spec fn table_size(w: Seq<nat>, rows: nat) -> nat {
    (sum_widths(w) + 1) * rows
}

/// A cell followed by spaces up to `width` characters.
pub open spec fn padded_cell(c: Seq<char>, width: nat) -> Seq<char> {
    c + repeat_char(' ', (width - c.len()) as nat)
}

/// The first `k` cells of a row, each padded to its column's width.
pub open spec fn row_text_upto(r: Seq<Seq<char>>, w: Seq<nat>, k: int) -> Seq<char>
    decreases k,
{
    if k <= 0 {
        Seq::empty()
    } else {
        row_text_upto(r, w, k - 1) + padded_cell(r[k - 1], w[k - 1])
    }
}

/// One row of the table, newline included.
pub open spec fn row_line(r: Seq<Seq<char>>, w: Seq<nat>) -> Seq<char> {
    row_text_upto(r, w, r.len() as int).push('\n')
}

/// The lines of the first `n` rows.
pub open spec fn table_text_upto(g: Seq<Seq<Seq<char>>>, w: Seq<nat>, n: int) -> Seq<char>
    decreases n,
{
    if n <= 0 {
        Seq::empty()
    } else {
        table_text_upto(g, w, n - 1) + row_line(g[n - 1], w)
    }
}

/// The aligned table: every cell left-aligned and padded to its column's
/// natural width plus `rim` spaces, every row ended by a newline.
pub open spec fn text_table(g: Seq<Seq<Seq<char>>>, rim: nat) -> Seq<char> {
    table_text_upto(g, padded_widths(g, rim), g.len() as int)
}

/// Widths held in a vector, as natural numbers.
pub open spec fn width_view(v: Seq<usize>) -> Seq<nat> {
    Seq::new(v.len(), |j: int| v[j] as nat)
}

/// Every width of `v` plus `rim`.
pub open spec fn widened(v: Seq<usize>, rim: nat) -> Seq<nat> {
    Seq::new(v.len(), |j: int| (v[j] + rim) as nat)
}

/// Relies on String::with_capacity: the new string is empty; it panics on a
/// capacity above `isize::MAX` bytes.
#[verifier::external_body]
fn empty_string_with_capacity(capacity: usize) -> (r: String)
    requires
        capacity <= isize::MAX,
    ensures
        r@ == Seq::<char>::empty(),
{
    String::with_capacity(capacity)
}

proof fn lemma_cell_within_max(g: Seq<Seq<Seq<char>>>, i: int, j: int, n: int)
    requires
        0 <= i < n <= g.len(),
    ensures
        g[i][j].len() <= max_width_upto(g, j, n),
    decreases n,
{
    if i < n - 1 {
        lemma_cell_within_max(g, i, j, n - 1);
    }
}

proof fn lemma_sum_upto_monotone(w: Seq<nat>, k: int, n: int)
    requires
        0 <= k <= n <= w.len(),
    ensures
        sum_upto(w, k) <= sum_upto(w, n),
    decreases n - k,
{
    if k < n {
        lemma_sum_upto_monotone(w, k, n - 1);
    }
}

/// Computes, for each column of a rectangular grid, the largest number of
/// characters of a cell in it. For `[["12345","123","1234"],["12","123456","12"]]`
/// that is `[5, 6, 4]`.
pub fn calc_max_column_width_for(to_format: &[Vec<String>]) -> (r: Vec<usize>)
    requires
        is_rectangular(grid_view(to_format@)),
    ensures
        width_view(r@) == column_widths(grid_view(to_format@)),
{
    let ghost g = grid_view(to_format@);
    let number_rows = to_format.len();
    let number_columns = if number_rows == 0 {
        0
    } else {
        to_format[0].len()
    };
    let mut max_width: Vec<usize> = Vec::new();
    let mut index: usize = 0;
    while index < number_columns
        invariant
            g == grid_view(to_format@),
            is_rectangular(g),
            number_rows == g.len(),
            number_columns == column_count(g),
            index <= number_columns,
            max_width@.len() == index,
            forall|j: int| 0 <= j < index ==> max_width@[j] as nat == max_width_upto(g, j, g.len() as int),
        decreases number_columns - index,
    {
        let mut widest: usize = 0;
        let mut row: usize = 0;
        while row < number_rows
            invariant
                g == grid_view(to_format@),
                is_rectangular(g),
                number_rows == g.len(),
                number_columns == column_count(g),
                index < number_columns,
                row <= number_rows,
                widest as nat == max_width_upto(g, index as int, row as int),
            decreases number_rows - row,
        {
            assert(g[row as int].len() == g[0].len());
            let column_width = to_format[row][index].as_str().unicode_len();
            assert(column_width as nat == g[row as int][index as int].len());
            if column_width > widest {
                widest = column_width;
            }
            row += 1;
        }
        max_width.push(widest);
        index += 1;
    }
    assert(width_view(max_width@) =~= column_widths(g));
    max_width
}

/// Adds `rim_spaces` to every column width and returns an empty string whose
/// capacity is requested for the whole table: the sum of the widened columns
/// plus one newline, times `number_rows`.
pub fn prepare_empty_table_enough_capacity(
    column_width_vec: &mut Vec<usize>,
    rim_spaces: usize,
    number_rows: usize,
) -> (r: String)
    requires
        sum_widths(widened(old(column_width_vec)@, rim_spaces as nat)) + 1 <= usize::MAX,
        table_size(widened(old(column_width_vec)@, rim_spaces as nat), number_rows as nat)
            <= isize::MAX,
    ensures
        final(column_width_vec)@.len() == old(column_width_vec)@.len(),
        forall|j: int| 0 <= j < old(column_width_vec)@.len()
            ==> #[trigger] final(column_width_vec)@[j] == old(column_width_vec)@[j] + rim_spaces,
        r@ == Seq::<char>::empty(),
{
    let ghost start = column_width_vec@;
    let capacity = table_capacity_for(column_width_vec, rim_spaces, number_rows);
    assert(width_view(column_width_vec@) =~= widened(start, rim_spaces as nat));
    empty_string_with_capacity(capacity)
}

/// Widens every column by `rim` and returns the characters needed for
/// `number_rows` rows of the widened columns: the capacity that
/// `prepare_empty_table_enough_capacity` requests.
pub fn table_capacity_for(column_width_vec: &mut Vec<usize>, rim: usize, number_rows: usize) -> (r: usize)
    requires
        sum_widths(widened(old(column_width_vec)@, rim as nat)) + 1 <= usize::MAX,
        table_size(widened(old(column_width_vec)@, rim as nat), number_rows as nat) <= isize::MAX,
    ensures
        final(column_width_vec)@.len() == old(column_width_vec)@.len(),
        forall|j: int| 0 <= j < old(column_width_vec)@.len()
            ==> #[trigger] final(column_width_vec)@[j] == old(column_width_vec)@[j] + rim,
        r == table_size(width_view(final(column_width_vec)@), number_rows as nat),
{
    let ghost start = column_width_vec@;
    let ghost w = widened(start, rim as nat);
    let mut size_of_one_row: usize = 0;
    let mut column: usize = 0;
    proof {
        lemma_sum_upto_monotone(w, 0, w.len() as int);
    }
    while column < column_width_vec.len()
        invariant
            column <= column_width_vec@.len() == start.len() == w.len(),
            w == widened(start, rim as nat),
            sum_widths(w) + 1 <= usize::MAX,
            forall|j: int| 0 <= j < column ==> #[trigger] column_width_vec@[j] == start[j] + rim,
            forall|j: int| column <= j < start.len() ==> #[trigger] column_width_vec@[j] == start[j],
            size_of_one_row as nat == sum_upto(w, column as int),
        decreases start.len() - column,
    {
        proof {
            lemma_sum_upto_monotone(w, column + 1, w.len() as int);
        }
        let widened = column_width_vec[column] + rim;
        column_width_vec.set(column, widened);
        size_of_one_row = size_of_one_row + widened;
        column += 1;
    }
    assert(width_view(column_width_vec@) =~= w);
    let size_with_newlines = size_of_one_row + 1;
    size_with_newlines * number_rows
}

/// Appends every row of the grid, each cell padded with spaces to its column's
/// width in `column_width_vec`, each row ended by a newline.
fn create_table_with_padding(table: &mut String, to_format: &[Vec<String>], column_width_vec: &Vec<usize>)
    requires
        is_rectangular(grid_view(to_format@)),
        column_width_vec@.len() == column_count(grid_view(to_format@)),
        forall|i: int, j: int|
            0 <= i < to_format@.len() && 0 <= j < column_width_vec@.len()
                ==> #[trigger] grid_view(to_format@)[i][j].len() <= column_width_vec@[j],
    ensures
        final(table)@ == old(table)@ + table_text_upto(
            grid_view(to_format@),
            width_view(column_width_vec@),
            to_format@.len() as int,
        ),
{
    let ghost g = grid_view(to_format@);
    let ghost w = width_view(column_width_vec@);
    let ghost start = table@;
    let number_rows = to_format.len();
    let number_columns = column_width_vec.len();
    let mut row: usize = 0;
    while row < number_rows
        invariant
            g == grid_view(to_format@),
            w == width_view(column_width_vec@),
            is_rectangular(g),
            number_rows == g.len(),
            number_columns == column_width_vec@.len() == column_count(g),
            forall|i: int, j: int|
                0 <= i < number_rows && 0 <= j < number_columns
                    ==> #[trigger] g[i][j].len() <= column_width_vec@[j],
            row <= number_rows,
            table@ == start + table_text_upto(g, w, row as int),
        decreases number_rows - row,
    {
        assert(g[row as int].len() == g[0].len());
        let ghost line_start = table@;
        let mut column: usize = 0;
        while column < number_columns
            invariant
                g == grid_view(to_format@),
                w == width_view(column_width_vec@),
                is_rectangular(g),
                number_rows == g.len(),
                row < number_rows,
                g[row as int].len() == number_columns,
                number_columns == column_width_vec@.len(),
                forall|i: int, j: int|
                    0 <= i < number_rows && 0 <= j < number_columns
                        ==> #[trigger] g[i][j].len() <= column_width_vec@[j],
                column <= number_columns,
                table@ == line_start + row_text_upto(g[row as int], w, column as int),
            decreases number_columns - column,
        {
            let content = to_format[row][column].as_str();
            let current_column_len = content.unicode_len();
            assert(content@ == g[row as int][column as int]);
            let width_pad_to = column_width_vec[column];
            assert(g[row as int][column as int].len() <= column_width_vec@[column as int]);
            table.append(content);
            push_repeated(table, ' ', width_pad_to - current_column_len);
            column += 1;
            assert(table@ =~= line_start + row_text_upto(g[row as int], w, column as int));
        }
        push_char(table, '\n');
        row += 1;
        assert(table@ =~= start + table_text_upto(g, w, row as int));
    }
}

/// Renders a rectangular grid of cells as a text table: every column is as
/// wide as its widest cell (in characters) plus `rim_spaces`, cells are
/// left-aligned and padded with spaces, and every row ends with a newline.
pub fn format_to_text_table(to_format: &[Vec<String>], rim_spaces: usize) -> (r: String)
    requires
        is_rectangular(grid_view(to_format@)),
        sum_widths(padded_widths(grid_view(to_format@), rim_spaces as nat)) + 1 <= usize::MAX,
        table_size(padded_widths(grid_view(to_format@), rim_spaces as nat), to_format@.len() as nat)
            <= isize::MAX,
    ensures
        r@ == text_table(grid_view(to_format@), rim_spaces as nat),
{
    let ghost g = grid_view(to_format@);
    let mut column_width_vec = calc_max_column_width_for(to_format);
    let ghost natural = column_width_vec@;
    assert forall|j: int| 0 <= j < natural.len() implies natural[j] as nat == #[trigger] column_widths(g)[j] by {
        assert(width_view(natural)[j] == column_widths(g)[j]);
    }
    assert(width_view(natural).len() == column_widths(g).len());
    assert forall|j: int| 0 <= j < natural.len() implies #[trigger] widened(natural, rim_spaces as nat)[j]
        == padded_widths(g, rim_spaces as nat)[j] by {
        assert(width_view(natural)[j] == column_widths(g)[j]);
    }
    assert(widened(natural, rim_spaces as nat) =~= padded_widths(g, rim_spaces as nat));
    let mut table = prepare_empty_table_enough_capacity(&mut column_width_vec, rim_spaces, to_format.len());
    assert(width_view(column_width_vec@) =~= padded_widths(g, rim_spaces as nat));
    assert forall|i: int, j: int|
        0 <= i < to_format@.len() && 0 <= j < column_width_vec@.len()
            implies #[trigger] g[i][j].len() <= column_width_vec@[j] by {
        lemma_cell_within_max(g, i, j, g.len() as int);
        assert(natural[j] as nat == column_widths(g)[j]);
    }
    create_table_with_padding(&mut table, to_format, &column_width_vec);
    assert(table@ =~= text_table(g, rim_spaces as nat));
    table
}

/// The grid is rectangular and its table, with the gutter `rim`, is small
/// enough to be measured and built.
pub open spec fn table_fits(g: Seq<Seq<Seq<char>>>, rim: nat) -> bool {
    &&& is_rectangular(g)
    &&& sum_widths(padded_widths(g, rim)) + 1 <= usize::MAX
    &&& table_size(padded_widths(g, rim), g.len()) <= isize::MAX
}

/// Tells whether every row has as many cells as the first one.
pub fn is_rectangular_grid(to_format: &[Vec<String>]) -> (r: bool)
    ensures
        r == is_rectangular(grid_view(to_format@)),
{
    let ghost g = grid_view(to_format@);
    if to_format.len() == 0 {
        return true;
    }
    let number_columns = to_format[0].len();
    let mut row: usize = 0;
    while row < to_format.len()
        invariant
            g == grid_view(to_format@),
            g.len() > 0,
            number_columns == g[0].len(),
            row <= g.len(),
            forall|i: int| 0 <= i < row ==> #[trigger] g[i].len() == g[0].len(),
        decreases g.len() - row,
    {
        if to_format[row].len() != number_columns {
            assert(g[row as int].len() != g[0].len());
            return false;
        }
        row += 1;
    }
    true
}

/// Tells whether the table of the grid, with the gutter `rim`, fits the
/// machine's sizes: the grid is rectangular, a row's length plus its newline
/// stays within `usize` and the whole table's length within `isize`.
pub fn table_fits_in_memory(to_format: &[Vec<String>], rim: usize) -> (r: bool)
    ensures
        r == table_fits(grid_view(to_format@), rim as nat),
{
    let ghost g = grid_view(to_format@);
    if !is_rectangular_grid(to_format) {
        return false;
    }
    let widths = calc_max_column_width_for(to_format);
    let ghost w = padded_widths(g, rim as nat);
    assert(width_view(widths@).len() == column_widths(g).len());
    assert(widths@.len() == w.len());
    assert forall|j: int| 0 <= j < widths@.len() implies #[trigger] w[j] == widths@[j] + rim by {
        assert(width_view(widths@)[j] == column_widths(g)[j]);
    }
    let mut size_of_one_row: usize = 0;
    let mut column: usize = 0;
    while column < widths.len()
        invariant
            g == grid_view(to_format@),
            w == padded_widths(g, rim as nat),
            widths@.len() == w.len(),
            forall|j: int| 0 <= j < widths@.len() ==> #[trigger] w[j] == widths@[j] + rim,
            column <= widths@.len(),
            size_of_one_row as nat == sum_upto(w, column as int),
        decreases widths@.len() - column,
    {
        if widths[column] > usize::MAX - rim || widths[column] + rim > usize::MAX - size_of_one_row {
            proof {
                lemma_sum_upto_monotone(w, column + 1, w.len() as int);
                assert(w[column as int] == widths@[column as int] + rim);
                assert(sum_upto(w, column + 1) == sum_upto(w, column as int) + w[column as int]);
                assert(sum_upto(w, column + 1) > usize::MAX);
            }
            return false;
        }
        size_of_one_row = size_of_one_row + widths[column] + rim;
        column += 1;
    }
    if size_of_one_row == usize::MAX {
        return false;
    }
    let size_with_newlines = size_of_one_row + 1;
    match size_with_newlines.checked_mul(to_format.len()) {
        Some(size) => size <= isize::MAX as usize,
        None => false,
    }
}

/// Like `format_to_text_table`, for any grid: `None` where the grid is not
/// rectangular or its table would not fit the machine's sizes.
pub fn try_format_to_text_table(to_format: &[Vec<String>], rim_spaces: usize) -> (r: Option<String>)
    ensures
        r is Some <==> table_fits(grid_view(to_format@), rim_spaces as nat),
        r matches Some(text) ==> text@ == text_table(grid_view(to_format@), rim_spaces as nat),
{
    if table_fits_in_memory(to_format, rim_spaces) {
        Some(format_to_text_table(to_format, rim_spaces))
    } else {
        None
    }
}

} // verus!
