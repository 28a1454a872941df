//! The text form of a level: lines of numbers separated by blanks.
//!
//! Each line that holds at least one token is one row of the grid, and each
//! token is one tile code: decimal digits, with an optional `+` in front,
//! that name a number no larger than `u32::MAX`.
use vstd::prelude::*;
use vstd::slice::slice_subrange;
use crate::game_level::LevelError;

verus! {

/// The line feed that ends a line.
pub const LINE_FEED: u8 = 0x0a;

/// The sign that may stand in front of a number.
pub const PLUS: u8 = 0x2b;

/// The digit zero.
pub const ZERO: u8 = 0x30;

/// Whether a byte separates tokens: a space, a tab, a line feed, a form
/// feed or a carriage return.
pub open spec fn is_blank(b: u8) -> bool {
    b == 0x20 || b == 0x09 || b == 0x0a || b == 0x0c || b == 0x0d
}

/// Whether a byte is a decimal digit.
pub open spec fn is_digit(b: u8) -> bool {
    0x30 <= b <= 0x39
}

/// The number that a digit stands for.
pub open spec fn digit_value(b: u8) -> nat {
    if is_digit(b) {
        (b - 0x30) as nat
    } else {
        0
    }
}

/// The number that a run of digits stands for, read in base ten.
pub open spec fn digits_value(s: Seq<u8>) -> nat
    decreases s.len(),
{
    if s.len() == 0 {
        0
    } else {
        10 * digits_value(s.drop_last()) + digit_value(s.last())
    }
}

/// Whether every byte is a decimal digit.
pub open spec fn all_digits(s: Seq<u8>) -> bool {
    forall|i: int| 0 <= i < s.len() ==> is_digit(#[trigger] s[i])
}

/// The number that an unsigned numeral stands for: at least one digit,
/// nothing but digits, and a value that a `u32` can hold.
pub open spec fn numeral(s: Seq<u8>) -> Option<u32> {
    if s.len() > 0 && all_digits(s) && digits_value(s) <= u32::MAX {
        Some(digits_value(s) as u32)
    } else {
        None
    }
}

/// The tile code that a token stands for, if it is a number.
pub open spec fn number(token: Seq<u8>) -> Option<u32> {
    if token.len() > 0 && token[0] == PLUS {
        numeral(token.skip(1))
    } else {
        numeral(token)
    }
}

/// The length of the longest prefix without a blank.
pub open spec fn word_len(s: Seq<u8>) -> nat
    decreases s.len(),
{
    if s.len() == 0 || is_blank(s[0]) {
        0
    } else {
        1 + word_len(s.skip(1))
    }
}

/// The length of the longest prefix without a line feed.
pub open spec fn line_len(s: Seq<u8>) -> nat
    decreases s.len(),
{
    if s.len() == 0 || s[0] == LINE_FEED {
        0
    } else {
        1 + line_len(s.skip(1))
    }
}

/// A word is no longer than the text it begins.
pub proof fn word_len_bound(s: Seq<u8>)
    ensures
        word_len(s) <= s.len(),
    decreases s.len(),
{
    if s.len() > 0 && !is_blank(s[0]) {
        word_len_bound(s.skip(1));
    }
}

/// The tokens of a text in order: its maximal runs of bytes that are not
/// blanks.
pub open spec fn tokens(s: Seq<u8>) -> Seq<Seq<u8>>
    decreases s.len(),
{
    if s.len() == 0 {
        Seq::empty()
    } else if is_blank(s[0]) {
        tokens(s.skip(1))
    } else {
        let n = word_len(s);
        proof {
            word_len_bound(s);
        }
        seq![s.take(n as int)] + tokens(s.skip(n as int))
    }
}

/// The rows of a level text: for each line that holds a token, in order,
/// the tokens of that line.
pub open spec fn token_rows(s: Seq<u8>) -> Seq<Seq<Seq<u8>>>
    decreases s.len(),
{
    if s.len() == 0 {
        Seq::empty()
    } else {
        let n = line_len(s);
        let row = tokens(s.take(n as int));
        let rest = if n < s.len() {
            token_rows(s.skip(n as int + 1))
        } else {
            Seq::empty()
        };
        if row.len() > 0 {
            seq![row] + rest
        } else {
            rest
        }
    }
}

/// No byte of the word that begins a text is a blank.
pub proof fn word_has_no_blank(s: Seq<u8>, k: int)
    requires
        0 <= k < word_len(s),
    ensures
        k < s.len(),
        !is_blank(s[k]),
    decreases s.len(),
{
    if k > 0 {
        word_has_no_blank(s.skip(1), k - 1);
    }
}

/// Every token holds at least one byte and no blank.
pub proof fn tokens_are_words(s: Seq<u8>, i: int)
    requires
        0 <= i < tokens(s).len(),
    ensures
        tokens(s)[i].len() > 0,
        forall|k: int| 0 <= k < tokens(s)[i].len() ==> !is_blank(#[trigger] tokens(s)[i][k]),
    decreases s.len(),
{
    if is_blank(s[0]) {
        tokens_are_words(s.skip(1), i);
    } else {
        let n = word_len(s);
        word_len_bound(s);
        if i == 0 {
            assert forall|k: int| 0 <= k < tokens(s)[0].len() implies !is_blank(
                #[trigger] tokens(s)[0][k],
            ) by {
                word_has_no_blank(s, k);
            }
        } else {
            tokens_are_words(s.skip(n as int), i - 1);
        }
    }
}

/// Every row of a level text holds at least one token.
pub proof fn rows_hold_tokens(s: Seq<u8>, r: int)
    requires
        0 <= r < token_rows(s).len(),
    ensures
        token_rows(s)[r].len() > 0,
    decreases s.len(),
{
    let n = line_len(s);
    let row = tokens(s.take(n as int));
    if row.len() > 0 {
        if r > 0 {
            rows_hold_tokens(s.skip(n as int + 1), r - 1);
        }
    } else {
        rows_hold_tokens(s.skip(n as int + 1), r);
    }
}

/// Whether every token of every row is a number.
pub open spec fn all_numbers(rows: Seq<Seq<Seq<u8>>>) -> bool {
    forall|r: int, c: int|
        0 <= r < rows.len() && 0 <= c < rows[r].len() ==> number(#[trigger] rows[r][c]).is_some()
}

/// The tile codes of one row of tokens.
pub open spec fn row_numbers(row: Seq<Seq<u8>>) -> Seq<u32> {
    Seq::new(row.len(), |c: int| number(row[c]).unwrap())
}

/// The tile codes of rows of tokens.
pub open spec fn numbers(rows: Seq<Seq<Seq<u8>>>) -> Seq<Seq<u32>> {
    Seq::new(rows.len(), |r: int| row_numbers(rows[r]))
}

/// The grid that a vector of rows holds.
pub open spec fn tiles_of(grid: Seq<Vec<u32>>) -> Seq<Seq<u32>> {
    Seq::new(grid.len(), |r: int| grid[r]@)
}

/// Whether a byte separates tokens.
pub fn blank(b: u8) -> (r: bool)
    ensures
        r == is_blank(b),
{
    b == 0x20 || b == 0x09 || b == 0x0a || b == 0x0c || b == 0x0d
}

/// A run of digits stands for at least as much as any of its prefixes.
proof fn digits_value_grows(s: Seq<u8>, k: int)
    requires
        0 <= k <= s.len(),
    ensures
        digits_value(s.take(k)) <= digits_value(s),
    decreases s.len() - k,
{
    if k == s.len() {
        assert(s.take(k) =~= s);
    } else {
        assert(s.drop_last().take(k) =~= s.take(k));
        digits_value_grows(s.drop_last(), k);
    }
}

/// Reads one token as a tile code.
pub fn parse_number(token: &[u8]) -> (r: Option<u32>)
    ensures
        r == number(token@),
{
    let start: usize = if token.len() > 0 && token[0] == PLUS {
        1
    } else {
        0
    };
    let ghost digits = token@.skip(start as int);
    proof {
        assert(token@.skip(0) =~= token@);
        assert(number(token@) == numeral(digits));
    }
    if start == token.len() {
        return None;
    }
    let mut value: u32 = 0;
    let mut i: usize = start;
    while i < token.len()
        invariant
            start <= i <= token.len(),
            digits == token@.skip(start as int),
            number(token@) == numeral(digits),
            forall|k: int| start <= k < i ==> is_digit(#[trigger] token@[k]),
            value == digits_value(token@.subrange(start as int, i as int)),
        decreases token.len() - i,
    {
        let b: u8 = token[i];
        if b < ZERO || b > 0x39 {
            assert(!is_digit(digits[i - start]));
            return None;
        }
        let d: u32 = (b - ZERO) as u32;
        proof {
            let next = token@.subrange(start as int, i + 1);
            assert(next.drop_last() =~= token@.subrange(start as int, i as int));
            assert(next.last() == b);
            assert(digits_value(next) == 10 * value + d);
            assert(digits.take(i + 1 - start) =~= next);
            digits_value_grows(digits, i + 1 - start);
        }
        if value > (u32::MAX - d) / 10 {
            return None;
        }
        value = value * 10 + d;
        i = i + 1;
    }
    proof {
        assert(token@.subrange(start as int, i as int) =~= digits);
        assert forall|k: int| 0 <= k < digits.len() implies is_digit(#[trigger] digits[k]) by {
            assert(digits[k] == token@[k + start]);
        }
    }
    Some(value)
}

/// The place where the word that begins at `from` ends.
fn word_end(line: &[u8], from: usize) -> (end: usize)
    requires
        from <= line@.len(),
    ensures
        end == from + word_len(line@.skip(from as int)),
        from <= end <= line@.len(),
{
    let mut j: usize = from;
    while j < line.len() && !blank(line[j])
        invariant
            from <= j <= line@.len(),
            word_len(line@.skip(from as int)) == (j - from) + word_len(line@.skip(j as int)),
        decreases line@.len() - j,
    {
        assert(line@.skip(j as int).skip(1) =~= line@.skip(j + 1));
        j = j + 1;
    }
    j
}

/// The place where the line that begins at `from` ends.
fn line_end(source: &[u8], from: usize) -> (end: usize)
    requires
        from <= source@.len(),
    ensures
        end == from + line_len(source@.skip(from as int)),
        from <= end <= source@.len(),
{
    let mut j: usize = from;
    while j < source.len() && source[j] != LINE_FEED
        invariant
            from <= j <= source@.len(),
            line_len(source@.skip(from as int)) == (j - from) + line_len(source@.skip(j as int)),
        decreases source@.len() - j,
    {
        assert(source@.skip(j as int).skip(1) =~= source@.skip(j + 1));
        j = j + 1;
    }
    j
}

/// Reads one line as a row of tile codes. A line without tokens gives an
/// empty row.
pub fn parse_row(line: &[u8]) -> (r: Result<Vec<u32>, LevelError>)
    ensures
        match r {
            Ok(row) => {
                &&& forall|c: int|
                    0 <= c < tokens(line@).len() ==> number(#[trigger] tokens(line@)[c]).is_some()
                &&& row@ == row_numbers(tokens(line@))
            },
            Err(e) => {
                &&& e == LevelError::InvalidTile
                &&& exists|c: int|
                    0 <= c < tokens(line@).len() && number(#[trigger] tokens(line@)[c]).is_none()
            },
        },
{
    let mut row: Vec<u32> = Vec::new();
    let mut pos: usize = 0;
    let ghost mut done: Seq<Seq<u8>> = Seq::empty();
    proof {
        assert(line@.skip(0) =~= line@);
        assert(done + tokens(line@) =~= tokens(line@));
    }
    while pos < line.len()
        invariant
            pos <= line@.len(),
            tokens(line@) == done + tokens(line@.skip(pos as int)),
            row@.len() == done.len(),
            forall|c: int| 0 <= c < done.len() ==> number(#[trigger] done[c]) == Some(row@[c]),
        decreases line@.len() - pos,
    {
        let ghost rest = line@.skip(pos as int);
        if blank(line[pos]) {
            assert(rest.skip(1) =~= line@.skip(pos + 1));
            pos = pos + 1;
        } else {
            let end: usize = word_end(line, pos);
            let token: &[u8] = slice_subrange(line, pos, end);
            proof {
                let n = word_len(rest);
                assert(rest.take(n as int) =~= token@);
                assert(rest.skip(n as int) =~= line@.skip(end as int));
                assert(done + (seq![token@] + tokens(line@.skip(end as int))) =~= done.push(token@)
                    + tokens(line@.skip(end as int)));
                assert(tokens(line@)[done.len() as int] == token@);
            }
            match parse_number(token) {
                Some(value) => {
                    row.push(value);
                },
                None => {
                    return Err(LevelError::InvalidTile);
                },
            }
            proof {
                done = done.push(token@);
            }
            pos = end;
        }
    }
    proof {
        assert(tokens(line@) =~= done);
        assert(row@ =~= row_numbers(tokens(line@)));
    }
    Ok(row)
}

/// Reads a level text as rows of tile codes. Lines without tokens are
/// skipped. The rows come back as they stand in the text, whether or not
/// they are equally long; the one thing refused here is a token that is
/// not a number.
pub fn parse_tiles(source: &[u8]) -> (r: Result<Vec<Vec<u32>>, LevelError>)
    ensures
        match r {
            Ok(grid) => all_numbers(token_rows(source@)) && tiles_of(grid@) == numbers(
                token_rows(source@),
            ),
            Err(e) => e == LevelError::InvalidTile && !all_numbers(token_rows(source@)),
        },
{
    let mut grid: Vec<Vec<u32>> = Vec::new();
    let mut pos: usize = 0;
    let ghost mut done: Seq<Seq<Seq<u8>>> = Seq::empty();
    proof {
        assert(source@.skip(0) =~= source@);
        assert(done + token_rows(source@) =~= token_rows(source@));
    }
    while pos < source.len()
        invariant
            pos <= source@.len(),
            token_rows(source@) == done + token_rows(source@.skip(pos as int)),
            grid@.len() == done.len(),
            all_numbers(done),
            forall|r: int| 0 <= r < done.len() ==> (#[trigger] grid@[r])@ == row_numbers(done[r]),
        decreases source@.len() - pos,
    {
        let ghost rest = source@.skip(pos as int);
        let end: usize = line_end(source, pos);
        let line: &[u8] = slice_subrange(source, pos, end);
        let next: usize = if end < source.len() {
            end + 1
        } else {
            end
        };
        proof {
            let n = line_len(rest);
            assert(rest.take(n as int) =~= line@);
            if n < rest.len() {
                assert(rest.skip(n as int + 1) =~= source@.skip(next as int));
            } else {
                assert(token_rows(source@.skip(next as int)) =~= Seq::empty());
            }
        }
        let ghost row_tokens = tokens(line@);
        match parse_row(line) {
            Ok(row) => {
                if row.len() > 0 {
                    proof {
                        assert(done + (seq![row_tokens] + token_rows(source@.skip(next as int)))
                            =~= done.push(row_tokens) + token_rows(source@.skip(next as int)));
                        assert(all_numbers(done.push(row_tokens))) by {
                            assert forall|r: int, c: int|
                                0 <= r < done.push(row_tokens).len() && 0 <= c < done.push(
                                    row_tokens,
                                )[r].len() implies number(
                                #[trigger] done.push(row_tokens)[r][c],
                            ).is_some() by {
                                if r < done.len() {
                                    assert(done.push(row_tokens)[r] == done[r]);
                                    assert(number(done[r][c]).is_some());
                                } else {
                                    assert(number(row_tokens[c]).is_some());
                                }
                            }
                        }
                        done = done.push(row_tokens);
                    }
                    grid.push(row);
                }
            },
            Err(e) => {
                proof {
                    let c = choose|c: int|
                        0 <= c < row_tokens.len() && number(#[trigger] row_tokens[c]).is_none();
                    let rows = token_rows(source@);
                    assert(rows[done.len() as int] == row_tokens);
                    assert(number(rows[done.len() as int][c]).is_none());
                }
                return Err(e);
            },
        }
        pos = next;
    }
    proof {
        assert(token_rows(source@) =~= done);
        assert(tiles_of(grid@) =~= numbers(done));
    }
    Ok(grid)
}

} // verus!
