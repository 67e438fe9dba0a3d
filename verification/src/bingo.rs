//! Bingo boards: choosing a board mode, drawing a seed, rendering a generated
//! board as a chat message, and wrapping a board template into the script the
//! race board page loads.

use vstd::prelude::*;

use crate::text::{dec_digits, decimal, push_str, str_eq};

verus! {

/// The size of a generated bingo board's mode.
#[derive(Clone, Copy, PartialEq, Eq, Structural, Debug)]
pub enum BingoMode {
    Short,
    Normal,
    Long,
}

/// Pick the board mode from the command's first parameter: "short" and "long"
/// select those modes, anything else means normal. The returned text names the
/// chosen mode.
pub fn bingo_mode(param: Option<&str>) -> (r: (BingoMode, &'static str))
    ensures
        match param {
            Some(p) => if p@ == "short"@ {
                r.0 == BingoMode::Short && r.1@ == "short"@
            } else if p@ == "long"@ {
                r.0 == BingoMode::Long && r.1@ == "long"@
            } else {
                r.0 == BingoMode::Normal && r.1@ == "normal"@
            },
            None => r.0 == BingoMode::Normal && r.1@ == "normal"@,
        },
{
    match param {
        Some(p) => {
            if str_eq(p, "short") {
                (BingoMode::Short, "short")
            } else if str_eq(p, "long") {
                (BingoMode::Long, "long")
            } else {
                (BingoMode::Normal, "normal")
            }
        },
        None => (BingoMode::Normal, "normal"),
    }
}

/// Relies on `rand::random_range`: a value drawn from the given range, here
/// the seeds below one million.
#[verifier::external_body]
pub fn random_seed() -> (r: u64)
    ensures
        r < 1000000,
{
    rand::random_range(0..1_000_000u64)
}

/// The goals of one board row, separated by ` | `.
pub open spec fn row_text(row: Seq<Seq<char>>, j: int) -> Seq<char>
    decreases j,
{
    if j <= 0 {
        Seq::empty()
    } else {
        row_text(row, j - 1) + (if j == 1 {
            Seq::empty()
        } else {
            " | "@
        }) + row[j - 1]
    }
}

/// The board's rows, one line each.
pub open spec fn rows_text(cells: Seq<Seq<Seq<char>>>, i: int) -> Seq<char>
    decreases i,
{
    if i <= 0 {
        Seq::empty()
    } else {
        rows_text(cells, i - 1) + row_text(cells[i - 1], cells[i - 1].len() as int) + "\n"@
    }
}

/// The goal texts of a generated board.
pub open spec fn cells_view(cells: Seq<Vec<String>>) -> Seq<Seq<Seq<char>>> {
    cells.map_values(|row: Vec<String>| row@.map_values(|goal: String| goal@))
}

/// The whole board message: the board page's address with the seed and mode,
/// a blank line, then the rows.
pub open spec fn board_message_text(seed: u64, mode: Seq<char>, cells: Seq<Seq<Seq<char>>>) -> Seq<
    char,
> {
    "https://livesplit.herokuapp.com/botw/bingo/index.html?seed="@ + dec_digits(seed as nat)
        + "&mode="@ + mode + "\n\n"@ + rows_text(cells, cells.len() as int)
}

/// Render a generated board, with the address of its page, into one chat
/// message, as [`board_message_text`] says.
pub fn board_message(seed: u64, mode_text: &str, cells: &Vec<Vec<String>>) -> (r: String)
    ensures
        r@ == board_message_text(seed, mode_text@, cells_view(cells@)),
{
    let ghost cv = cells_view(cells@);
    let mut msg = String::new();
    push_str(&mut msg, "https://livesplit.herokuapp.com/botw/bingo/index.html?seed=");
    let seed_text = decimal(seed);
    push_str(&mut msg, seed_text.as_str());
    push_str(&mut msg, "&mode=");
    push_str(&mut msg, mode_text);
    push_str(&mut msg, "\n\n");
    let ghost header = msg@;
    let n = cells.len();
    let mut i: usize = 0;
    while i < n
        invariant
            n == cells@.len(),
            i <= n,
            cv == cells_view(cells@),
            msg@ == header + rows_text(cv, i as int),
        decreases n - i,
    {
        let row = &cells[i];
        let m = row.len();
        let ghost row_start = msg@;
        let mut j: usize = 0;
        while j < m
            invariant
                m == row@.len(),
                j <= m,
                i < n,
                n == cells@.len(),
                cv == cells_view(cells@),
                row@ == cells@[i as int]@,
                msg@ == row_start + row_text(cv[i as int], j as int),
            decreases m - j,
        {
            if j != 0 {
                push_str(&mut msg, " | ");
            }
            push_str(&mut msg, row[j].as_str());
            proof {
                assert(cv[i as int][j as int] == row@[j as int]@);
                assert(msg@ =~= row_start + row_text(cv[i as int], j as int + 1));
            }
            j = j + 1;
        }
        push_str(&mut msg, "\n");
        proof {
            assert(cv[i as int].len() == row@.len());
            assert(msg@ =~= header + rows_text(cv, i as int + 1));
        }
        i = i + 1;
    }
    proof {
        assert(msg@ =~= board_message_text(seed, mode_text@, cv));
    }
    msg
}

/// The script a board page loads: the template text bound to a variable, then
/// the call that draws the board.
pub open spec fn board_script(template: Seq<char>) -> Seq<char> {
    "var bingoList = "@ + template + "; $(function () { srl.bingo(bingoList, 5); });"@
}

/// The four board templates the race board pages serve.
pub struct BoardTemplates {
    pub normal: String,
    pub korok: String,
    pub shrine: String,
    pub plateau: String,
}

/// Serve the board script for a named board: each of the four known names
/// wraps its template as [`board_script`] says, and any other name is refused
/// with a fixed reply.
pub fn botw_bingo_board(board: &str, templates: &BoardTemplates) -> (r: String)
    ensures
        r@ == (if board@ == "normal"@ {
            board_script(templates.normal@)
        } else if board@ == "korok"@ {
            board_script(templates.korok@)
        } else if board@ == "shrine"@ {
            board_script(templates.shrine@)
        } else if board@ == "plateau"@ {
            board_script(templates.plateau@)
        } else {
            "Nope"@
        }),
{
    let template: &String = if str_eq(board, "normal") {
        &templates.normal
    } else if str_eq(board, "korok") {
        &templates.korok
    } else if str_eq(board, "shrine") {
        &templates.shrine
    } else if str_eq(board, "plateau") {
        &templates.plateau
    } else {
        return "Nope".to_owned();
    };
    let mut script = String::new();
    push_str(&mut script, "var bingoList = ");
    push_str(&mut script, template.as_str());
    push_str(&mut script, "; $(function () { srl.bingo(bingoList, 5); });");
    proof {
        assert(script@ =~= board_script(template@));
    }
    script
}

} // verus!
