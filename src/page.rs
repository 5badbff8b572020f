use vstd::prelude::*;

use crate::dispatch::{always_accepts, next_problem, produced_under, Config, ConfigError};
use crate::problem::Problem;
use crate::random::RandomSource;
use crate::render::{problem_cell, shows};

verus! {

/// `cell` shows some problem the dispatcher may produce under `config`.
pub open spec fn cell_under(config: Config, cell: Seq<char>) -> bool {
    exists|p: Problem| produced_under(config, p) && #[trigger] shows(p, cell)
}

/// Fills a `rows` by `columns` grid, row by row, with one freshly drawn
/// problem per cell. The configuration is checked before anything is drawn.
pub fn page_cells(config: &Config, rng: &mut RandomSource, rows: usize, columns: usize) -> (r:
    Result<Vec<Vec<String>>, ConfigError>)
    ensures
        r == Err::<Vec<Vec<String>>, ConfigError>(ConfigError::NoKinds)
            <==> config.enabled_kinds.len() == 0,
        r == Err::<Vec<Vec<String>>, ConfigError>(ConfigError::EmptyRange)
            <==> config.enabled_kinds.len() > 0 && config.operand_max == 0,
        r matches Ok(g) ==> {
            &&& g.len() == rows
            &&& forall|i: int| 0 <= i < rows ==> (#[trigger] g@[i]).len() == columns
            &&& forall|i: int, k: int|
                0 <= i < rows && 0 <= k < columns ==> cell_under(*config, #[trigger] g@[i]@[k]@)
        },
        config.enabled_kinds.len() > 0 && config.operand_max > 0 && always_accepts(*config)
            ==> r is Ok,
{
    if config.enabled_kinds.len() == 0 {
        return Err(ConfigError::NoKinds);
    }
    if config.operand_max == 0 {
        return Err(ConfigError::EmptyRange);
    }
    let mut grid: Vec<Vec<String>> = Vec::new();
    let mut i: usize = 0;
    while i < rows
        invariant
            config.enabled_kinds.len() > 0,
            config.operand_max > 0,
            i <= rows,
            grid.len() == i,
            forall|a: int| 0 <= a < i ==> (#[trigger] grid@[a]).len() == columns,
            forall|a: int, k: int|
                0 <= a < i && 0 <= k < columns ==> cell_under(*config, #[trigger] grid@[a]@[k]@),
        decreases rows - i,
    {
        let mut row: Vec<String> = Vec::new();
        let mut k: usize = 0;
        while k < columns
            invariant
                config.enabled_kinds.len() > 0,
                config.operand_max > 0,
                k <= columns,
                row.len() == k,
                forall|b: int| 0 <= b < k ==> cell_under(*config, #[trigger] row@[b]@),
            decreases columns - k,
        {
            let p = match next_problem(config, rng) {
                Ok(p) => p,
                Err(e) => {
                    return Err(e);
                },
            };
            let cell = problem_cell(&p, rng);
            proof {
                assert(produced_under(*config, p) && shows(p, cell@));
            }
            row.push(cell);
            k = k + 1;
        }
        grid.push(row);
        i = i + 1;
    }
    Ok(grid)
}

/// `cells` separated by `&`.
pub open spec fn joined(cells: Seq<Seq<char>>) -> Seq<char>
    decreases cells.len(),
{
    if cells.len() == 0 {
        Seq::empty()
    } else if cells.len() == 1 {
        cells[0]
    } else {
        joined(cells.drop_last()) + "&"@ + cells.last()
    }
}

/// The column layout of a table with `columns` problem columns: each problem
/// takes a right- and a left-aligned column, with a gap between problems.
pub open spec fn column_spec(columns: nat) -> Seq<char>
    decreases columns,
{
    if columns == 0 {
        Seq::empty()
    } else if columns == 1 {
        "rl"@
    } else {
        column_spec((columns - 1) as nat) + "@{\\qquad\\quad}rl"@
    }
}

/// One table row: the cells separated by `&`, closed by a line break.
pub fn row_markup(cells: &Vec<String>) -> (r: String)
    ensures
        r@ == joined(cells@.map_values(|c: String| c@)) + "\\\\"@,
{
    let ghost v = cells@.map_values(|c: String| c@);
    let mut s = String::new();
    let mut i: usize = 0;
    while i < cells.len()
        invariant
            i <= cells.len(),
            v == cells@.map_values(|c: String| c@),
            s@ == joined(v.subrange(0, i as int)),
        decreases cells.len() - i,
    {
        if i > 0 {
            s.append("&");
        }
        s.append(cells[i].as_str());
        proof {
            let pre = v.subrange(0, i as int);
            let cur = v.subrange(0, i + 1);
            assert(cur.drop_last() =~= pre);
            if i == 0 {
                assert(pre.len() == 0);
            }
        }
        i = i + 1;
    }
    s.append("\\\\");
    assert(v.subrange(0, cells.len() as int) =~= v);
    s
}

/// The opening line of a table with `columns` problem columns.
pub fn table_header(columns: usize) -> (r: String)
    ensures
        r@ == "\\begin{tabular}{"@ + column_spec(columns as nat) + "}"@,
{
    let mut spec_text = String::new();
    let mut i: usize = 0;
    while i < columns
        invariant
            i <= columns,
            spec_text@ == column_spec(i as nat),
        decreases columns - i,
    {
        if i == 0 {
            spec_text.append("rl");
        } else {
            spec_text.append("@{\\qquad\\quad}rl");
        }
        i = i + 1;
    }
    let mut s = String::from_str("\\begin{tabular}{");
    s.append(spec_text.as_str());
    s.append("}");
    s
}

/// The lines of one page: the table header, one line per row, the table end
/// and a page break.
pub fn page_lines(grid: &Vec<Vec<String>>, columns: usize) -> (r: Vec<String>)
    ensures
        r.len() == grid.len() + 3,
        r@[0]@ == "\\begin{tabular}{"@ + column_spec(columns as nat) + "}"@,
        forall|i: int|
            0 <= i < grid.len() ==> #[trigger] r@[i + 1]@ == joined(
                grid@[i]@.map_values(|c: String| c@),
            ) + "\\\\"@,
        r@[grid.len() + 1]@ == "\\end{tabular}"@,
        r@[grid.len() + 2]@ == "\\clearpage"@,
{
    let mut out: Vec<String> = Vec::new();
    out.push(table_header(columns));
    let mut i: usize = 0;
    while i < grid.len()
        invariant
            i <= grid.len(),
            out.len() == i + 1,
            out@[0]@ == "\\begin{tabular}{"@ + column_spec(columns as nat) + "}"@,
            forall|a: int|
                0 <= a < i ==> #[trigger] out@[a + 1]@ == joined(
                    grid@[a]@.map_values(|c: String| c@),
                ) + "\\\\"@,
        decreases grid.len() - i,
    {
        out.push(row_markup(&grid[i]));
        i = i + 1;
    }
    out.push(String::from_str("\\end{tabular}"));
    out.push(String::from_str("\\clearpage"));
    out
}

} // verus!
