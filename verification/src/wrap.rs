use vstd::prelude::*;
use vstd::string::StrSliceExecFns;
use crate::inputs::Input;

verus! {

/// The lines that greedy first-fit word-wrapping of `text` into `width`
/// columns produces, trailing spaces trimmed from each line. The exact value
/// is the wrapping routine's business; callers reason through this name.
pub uninterp spec fn wrap_lines(text: Seq<char>, width: nat) -> Seq<Seq<char>>;

/// Relies on `textwrap::wrap` with the first-fit algorithm: the wrapping is
/// a pure function of the text and the width alone, and for a positive width
/// it yields at least one (possibly empty) line.
#[verifier::external_body]
fn wrap_text(text: &Vec<char>, width: usize) -> (lines: Vec<String>)
    requires
        width >= 1,
    ensures
        lines@.map_values(|l: String| l@) == wrap_lines(text@, width as nat),
        lines@.len() >= 1,
{
    let s: String = text.iter().collect();
    let options = textwrap::Options::new(width).wrap_algorithm(textwrap::WrapAlgorithm::FirstFit);
    textwrap::wrap(&s, options).into_iter().map(|line| line.into_owned()).collect()
}

/// The character length of each wrapped line.
pub open spec fn line_lengths(lines: Seq<Seq<char>>) -> Seq<int> {
    lines.map_values(|l: Seq<char>| l.len() as int)
}

/// The caret cell `(column, row)` for a caret `pos` characters into wrapped
/// text. The walk charges each non-final line its length, plus the one
/// separating space the wrap consumed when the line was not exactly full;
/// the first line whose charge would pass the caret is its row, and the
/// column is whatever of `pos` that line's start leaves over.
pub open spec fn cursor_cell(lens: Seq<int>, width: int, pos: int) -> (int, int)
    decreases lens.len(),
{
    if lens.len() <= 1 {
        (pos, 0)
    } else {
        let consumed = if lens[0] < width {
            lens[0] + 1
        } else {
            lens[0]
        };
        if consumed > pos {
            (pos, 0)
        } else {
            let rest = cursor_cell(lens.drop_first(), width, pos - consumed);
            (rest.0, rest.1 + 1)
        }
    }
}

fn cursor_rec(lines: &Vec<String>, width: usize, pos: usize, i: usize) -> (cell: (usize, usize))
    requires
        width >= 1,
        i < lines@.len(),
    ensures
        ({
            let c = cursor_cell(
                line_lengths(lines@.map_values(|l: String| l@)).skip(i as int),
                width as int,
                pos as int,
            );
            cell.0 == c.0 && cell.1 == i + c.1
        }),
    decreases lines@.len() - i,
{
    let ghost lens = line_lengths(lines@.map_values(|l: String| l@));
    if i >= lines.len() - 1 {
        proof {
            assert(lens.skip(i as int).len() <= 1);
        }
        return (pos, i);
    }
    let l = lines[i].as_str().unicode_len();
    proof {
        assert(lens.skip(i as int)[0] == lens[i as int]);
        assert(lens[i as int] == lines@.map_values(|l: String| l@)[i as int].len() as int);
    }
    let exceeds = if l < width {
        l >= pos
    } else {
        l > pos
    };
    if exceeds {
        (pos, i)
    } else {
        let consumed = if l < width {
            l + 1
        } else {
            l
        };
        let cell = cursor_rec(lines, width, pos - consumed, i + 1);
        proof {
            assert(lens.skip(i as int).drop_first() =~= lens.skip(i + 1));
        }
        cell
    }
}

/// The on-screen caret cell `(column, row)` of the field's caret once its
/// text is word-wrapped into `width` columns. One wrapping routine serves
/// both the visible text and this caret walk, so the computed row always
/// names a line that the renderer actually produced.
pub fn get_wrapped_cursor_pos(input: &Input, width: usize) -> (cell: (usize, usize))
    requires
        width >= 1,
    ensures
        ({
            let c = cursor_cell(
                line_lengths(wrap_lines(input.text@, width as nat)),
                width as int,
                input.pos as int,
            );
            cell.0 == c.0 && cell.1 == c.1
        }),
{
    let lines = wrap_text(&input.text, width);
    let cell = cursor_rec(&lines, width, input.pos, 0);
    proof {
        let views = lines@.map_values(|l: String| l@);
        assert(line_lengths(views).skip(0) =~= line_lengths(views));
    }
    cell
}

} // verus!
