//! The text that the client shows for a connect-four board: the turn information, then the
//! grid row by row, a rule, and the column numbers.
use vstd::prelude::*;
use vstd::string::StringExecFns;

verus! {

/// The character of a decimal digit.
pub open spec fn digit_char(d: nat) -> char {
    if d == 0 {
        '0'
    } else if d == 1 {
        '1'
    } else if d == 2 {
        '2'
    } else if d == 3 {
        '3'
    } else if d == 4 {
        '4'
    } else if d == 5 {
        '5'
    } else if d == 6 {
        '6'
    } else if d == 7 {
        '7'
    } else if d == 8 {
        '8'
    } else {
        '9'
    }
}

/// The decimal representation of `n`, without leading zeros.
pub open spec fn decimal(n: nat) -> Seq<char>
    decreases n,
{
    if n < 10 {
        seq![digit_char(n)]
    } else {
        decimal(n / 10).push(digit_char(n % 10))
    }
}

/// The number that a string of decimal digits stands for, most significant digit first.
pub open spec fn decimal_value(digits: Seq<char>) -> int
    decreases digits.len(),
{
    if digits.len() == 0 {
        0
    } else {
        decimal_value(digits.drop_last()) * 10 + (digits.last() as int - '0' as int)
    }
}

/// Whether every character is one of `0` to `9`.
pub open spec fn all_decimal_digits(digits: Seq<char>) -> bool {
    forall|i: int| 0 <= i < digits.len() ==> '0' <= #[trigger] digits[i] <= '9'
}

/// Each digit is the character whose code is that of `0` plus the digit.
pub proof fn lemma_digit_char_code(d: nat)
    requires
        d < 10,
    ensures
        digit_char(d) as int == '0' as int + d,
{
    assert('0' as int == 48 && '1' as int == 49 && '2' as int == 50 && '3' as int == 51
        && '4' as int == 52 && '5' as int == 53 && '6' as int == 54 && '7' as int == 55
        && '8' as int == 56 && '9' as int == 57);
}

/// The text of a number is its standard decimal representation: digits only, without a
/// leading zero unless the number is zero, and read back in base ten it gives the number.
pub proof fn lemma_decimal_reads_back(n: nat)
    ensures
        decimal(n).len() > 0,
        all_decimal_digits(decimal(n)),
        decimal_value(decimal(n)) == n,
        n > 0 ==> decimal(n)[0] != '0',
    decreases n,
{
    lemma_digit_char_code(n % 10);
    if n >= 10 {
        lemma_decimal_reads_back(n / 10);
        let prefix = decimal(n / 10);
        assert(decimal(n) == prefix.push(digit_char(n % 10)));
        assert(decimal(n).drop_last() == prefix);
        assert(decimal(n)[0] == prefix[0]);
        assert forall|i: int| 0 <= i < decimal(n).len() implies '0' <= #[trigger] decimal(n)[i] <= '9' by {
            if i < prefix.len() {
                assert(decimal(n)[i] == prefix[i]);
            }
        }
        assert(decimal_value(decimal(n)) == decimal_value(prefix) * 10 + (digit_char(n % 10) as int - '0' as int));
        assert(decimal_value(decimal(n)) == (n / 10) as int * 10 + (n % 10) as int);
    } else {
        assert(n % 10 == n);
        assert(decimal(n) == seq![digit_char(n)]);
        assert(decimal(n).drop_last() =~= Seq::<char>::empty());
        assert(decimal_value(Seq::<char>::empty()) == 0);
        assert(decimal_value(decimal(n)) == decimal_value(decimal(n).drop_last()) * 10 + (digit_char(n) as int - '0' as int));
    }
}

/// One cell of the grid: its value between two spaces.
pub open spec fn cell_text(v: nat) -> Seq<char> {
    seq![' '] + decimal(v) + seq![' ']
}

/// The cells of row `row` in the first `columns` columns.
pub open spec fn row_text(board: [[u8; 6]; 7], row: int, columns: int) -> Seq<char>
    decreases columns,
{
    if columns <= 0 {
        Seq::empty()
    } else {
        row_text(board, row, columns - 1) + cell_text(board@[columns - 1]@[row] as nat)
    }
}

/// The first `rows` rows of the grid, each ended by a newline.
pub open spec fn rows_text(board: [[u8; 6]; 7], rows: int) -> Seq<char>
    decreases rows,
{
    if rows <= 0 {
        Seq::empty()
    } else {
        rows_text(board, rows - 1) + row_text(board, rows - 1, 7) + seq!['\n']
    }
}

/// The numbers of the first `columns` columns, each as a cell.
pub open spec fn column_labels(columns: int) -> Seq<char>
    decreases columns,
{
    if columns <= 0 {
        Seq::empty()
    } else {
        column_labels(columns - 1) + cell_text((columns - 1) as nat)
    }
}

/// The whole grid: a title, the six rows, a rule, and the seven column numbers.
pub open spec fn board_text(board: [[u8; 6]; 7]) -> Seq<char> {
    "Board:"@ + seq!['\n'] + rows_text(board, 6) + "====================="@ + seq!['\n'] + column_labels(7) + seq!['\n']
}

/// Whether every cell of the board holds a single digit, as the cells of a game do (0 for
/// empty, 1 and 2 for the players).
pub open spec fn single_digit_cells(board: [[u8; 6]; 7]) -> bool {
    forall|c: int, r: int| 0 <= c < 7 && 0 <= r < 6 ==> board@[c]@[r] < 10
}

proof fn lemma_row_text_len(board: [[u8; 6]; 7], row: int, columns: int)
    requires
        single_digit_cells(board),
        0 <= row < 6,
        0 <= columns <= 7,
    ensures
        row_text(board, row, columns).len() == 3 * columns,
    decreases columns,
{
    if columns > 0 {
        lemma_row_text_len(board, row, columns - 1);
        assert(board@[columns - 1]@[row] < 10);
    }
}

proof fn lemma_rows_text_len(board: [[u8; 6]; 7], rows: int)
    requires
        single_digit_cells(board),
        0 <= rows <= 6,
    ensures
        rows_text(board, rows).len() == 22 * rows,
    decreases rows,
{
    if rows > 0 {
        lemma_rows_text_len(board, rows - 1);
        lemma_row_text_len(board, rows - 1, 7);
    }
}

proof fn lemma_column_labels_len(columns: int)
    requires
        0 <= columns <= 10,
    ensures
        column_labels(columns).len() == 3 * columns,
    decreases columns,
{
    if columns > 0 {
        lemma_column_labels_len(columns - 1);
    }
}

/// A board of a game is always drawn in the same shape: a six-character title, six rows of
/// seven three-character cells, a rule of 21 characters and the seven column numbers, each
/// line ended by a newline, 183 characters in all.
pub proof fn lemma_board_text_shape(board: [[u8; 6]; 7])
    requires
        single_digit_cells(board),
    ensures
        board_text(board).len() == 183,
        forall|r: int| 0 <= r < 6 ==> #[trigger] row_text(board, r, 7).len() == 21,
{
    reveal_strlit("Board:");
    reveal_strlit("=====================");
    lemma_rows_text_len(board, 6);
    lemma_column_labels_len(7);
    assert forall|r: int| 0 <= r < 6 implies #[trigger] row_text(board, r, 7).len() == 21 by {
        lemma_row_text_len(board, r, 7);
    }
}

/// The lines on the last turn and the next player.
pub open spec fn turn_info_text(last_turn: u32, next_player: u8) -> Seq<char> {
    "Last turn in block number: "@ + decimal(last_turn as nat) + seq!['\n'] + "Next player: "@
        + decimal(next_player as nat) + seq!['\n']
}

/// Calls `String::push`, which appends one character to the end of the string.
#[verifier::external_body]
fn push_char(s: &mut String, c: char)
    ensures
        final(s)@ == old(s)@.push(c),
{
    s.push(c)
}

fn digit_str(d: u32) -> (s: &'static str)
    requires
        d < 10,
    ensures
        s@ == seq![digit_char(d as nat)],
{
    proof {
        reveal_strlit("0");
        reveal_strlit("1");
        reveal_strlit("2");
        reveal_strlit("3");
        reveal_strlit("4");
        reveal_strlit("5");
        reveal_strlit("6");
        reveal_strlit("7");
        reveal_strlit("8");
        reveal_strlit("9");
    }
    if d == 0 {
        "0"
    } else if d == 1 {
        "1"
    } else if d == 2 {
        "2"
    } else if d == 3 {
        "3"
    } else if d == 4 {
        "4"
    } else if d == 5 {
        "5"
    } else if d == 6 {
        "6"
    } else if d == 7 {
        "7"
    } else if d == 8 {
        "8"
    } else {
        "9"
    }
}

/// Appends the decimal representation of `n` to `out`.
pub fn append_decimal(out: &mut String, n: u32)
    ensures
        final(out)@ == old(out)@ + decimal(n as nat),
    decreases n,
{
    if n >= 10 {
        append_decimal(out, n / 10);
    }
    out.append(digit_str(n % 10));
    proof {
        if n >= 10 {
            assert(decimal(n as nat) == decimal((n / 10) as nat).push(digit_char((n % 10) as nat)));
        }
    }
}

fn append_cell(out: &mut String, v: u32)
    ensures
        final(out)@ == old(out)@ + cell_text(v as nat),
{
    proof {
        reveal_strlit(" ");
    }
    out.append(" ");
    append_decimal(out, v);
    out.append(" ");
}

/// The lines that tell in which block the last turn was played and whose turn is next.
pub fn render_turn_info(last_turn: u32, next_player: u8) -> (text: String)
    ensures
        text@ == turn_info_text(last_turn, next_player),
{
    let mut out = String::from_str("Last turn in block number: ");
    append_decimal(&mut out, last_turn);
    push_char(&mut out, '\n');
    out.append("Next player: ");
    append_decimal(&mut out, next_player as u32);
    push_char(&mut out, '\n');
    out
}

/// The grid of a board: a title, each of the six rows with its seven cells, a rule, and the
/// column numbers.
pub fn render_board(board: &[[u8; 6]; 7]) -> (text: String)
    ensures
        text@ == board_text(*board),
{
    let mut out = String::from_str("Board:");
    push_char(&mut out, '\n');
    let ghost title = out@;
    let mut row: usize = 0;
    while row < 6
        invariant
            row <= 6,
            out@ == title + rows_text(*board, row as int),
        decreases 6 - row,
    {
        let ghost before_row = out@;
        let mut column: usize = 0;
        while column < 7
            invariant
                row < 6,
                column <= 7,
                out@ == before_row + row_text(*board, row as int, column as int),
                before_row == title + rows_text(*board, row as int),
            decreases 7 - column,
        {
            append_cell(&mut out, board[column][row] as u32);
            column = column + 1;
        }
        push_char(&mut out, '\n');
        assert(rows_text(*board, row + 1) == rows_text(*board, row as int) + row_text(*board, row as int, 7) + seq!['\n']);
        assert(out@ =~= title + rows_text(*board, row + 1));
        row = row + 1;
    }
    out.append("=====================");
    push_char(&mut out, '\n');
    let ghost before_labels = out@;
    let mut column: usize = 0;
    while column < 7
        invariant
            column <= 7,
            out@ == before_labels + column_labels(column as int),
        decreases 7 - column,
    {
        append_cell(&mut out, column as u32);
        column = column + 1;
    }
    push_char(&mut out, '\n');
    out
}

} // verus!
