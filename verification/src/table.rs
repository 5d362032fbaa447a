//! Assembly of the Markdown result table: one column per worker count, one
//! row per block size, each cell a pre-formatted throughput text. The cell
//! and label texts are handed in ready-made; this module fixes the table's
//! exact character layout.

use vstd::prelude::*;

verus! {

/// Decimal digit `d` as a one-character string.
pub open spec fn spec_digit(d: nat) -> Seq<char> {
    if d == 0 {
        "0"@
    } else if d == 1 {
        "1"@
    } else if d == 2 {
        "2"@
    } else if d == 3 {
        "3"@
    } else if d == 4 {
        "4"@
    } else if d == 5 {
        "5"@
    } else if d == 6 {
        "6"@
    } else if d == 7 {
        "7"@
    } else if d == 8 {
        "8"@
    } else {
        "9"@
    }
}

/// Decimal text of `n`: most significant digit first, no leading zeros,
/// a single `0` for zero.
pub open spec fn spec_decimal(n: nat) -> Seq<char>
    decreases n,
{
    if n < 10 {
        spec_digit(n)
    } else {
        spec_decimal(n / 10) + spec_digit(n % 10)
    }
}

/// Decimal digit `d` as a one-character string.
fn digit_str(d: u64) -> (s: &'static str)
    requires
        d < 10,
    ensures
        s@ == spec_digit(d as nat),
{
    match d {
        0 => "0",
        1 => "1",
        2 => "2",
        3 => "3",
        4 => "4",
        5 => "5",
        6 => "6",
        7 => "7",
        8 => "8",
        _ => "9",
    }
}

/// Decimal text of `n`.
pub fn decimal_string(n: u64) -> (s: String)
    ensures
        s@ == spec_decimal(n as nat),
    decreases n,
{
    if n < 10 {
        String::from_str(digit_str(n))
    } else {
        let mut s = decimal_string(n / 10);
        s.append(digit_str(n % 10));
        s
    }
}

/// Header line of the table: the block-size column, then one `w Cores`
/// column per worker count `w` from 1 through `max`.
pub open spec fn spec_header(max: nat) -> Seq<char>
    decreases max,
{
    if max == 0 {
        "| Block Size |"@
    } else {
        spec_header((max - 1) as nat) + " "@ + spec_decimal(max) + " Cores |"@
    }
}

/// Separator line of the table: `---|` once per worker column after the
/// leading newline and block-size column.
pub open spec fn spec_separator(max: nat) -> Seq<char>
    decreases max,
{
    if max == 0 {
        "\n|---|"@
    } else {
        spec_separator((max - 1) as nat) + "---|"@
    }
}

/// The first `j` rate cells of one row, each wrapped in ` ... |`.
pub open spec fn spec_row_cells(row: Seq<Seq<char>>, j: nat) -> Seq<char>
    decreases j,
{
    if j == 0 {
        Seq::empty()
    } else {
        spec_row_cells(row, (j - 1) as nat) + " "@ + row[j - 1] + " |"@
    }
}

/// One row of the table: newline, the block-size label, then the row's
/// rate cells.
pub open spec fn spec_row(label: Seq<char>, row: Seq<Seq<char>>) -> Seq<char> {
    "\n| "@ + label + " |"@ + spec_row_cells(row, row.len())
}

/// The first `i` rows of the table, reading `max` cells per row out of the
/// row-major cell sequence.
pub open spec fn spec_rows(labels: Seq<Seq<char>>, cells: Seq<Seq<char>>, max: nat, i: nat) -> Seq<
    char,
>
    decreases i,
{
    if i == 0 {
        Seq::empty()
    } else {
        spec_rows(labels, cells, max, (i - 1) as nat) + spec_row(
            labels[i - 1],
            cells.subrange((i - 1) * max, (i * max) as int),
        )
    }
}

/// The whole table: header, separator, then one row per label.
pub open spec fn spec_table(labels: Seq<Seq<char>>, cells: Seq<Seq<char>>, max: nat) -> Seq<char> {
    spec_header(max) + spec_separator(max) + spec_rows(labels, cells, max, labels.len())
}

/// Assembles the Markdown table from one label text per block size and one
/// rate text per grid cell, row-major with `max_workers` cells per row.
/// The result is exactly the table's character sequence: header columns
/// `1 Cores` through `max_workers Cores`, the separator line, and one line
/// per block size holding its label and its rate cells in order.
pub fn markdown_table(size_labels: &Vec<String>, rate_cells: &Vec<String>, max_workers: usize) -> (s:
    String)
    requires
        max_workers >= 1,
        rate_cells@.len() == size_labels@.len() * max_workers,
    ensures
        s@ == spec_table(size_labels.deep_view(), rate_cells.deep_view(), max_workers as nat),
{
    let ghost labels = size_labels.deep_view();
    let ghost cells = rate_cells.deep_view();
    let ghost max = max_workers as nat;
    proof {
        assert(labels.len() == size_labels@.len());
        assert(cells.len() == rate_cells@.len());
    }
    let n_rows = size_labels.len();
    let n_cells = rate_cells.len();

    let mut s = String::from_str("| Block Size |");
    proof {
        assert(s@ =~= spec_header(0));
    }
    let mut w: usize = 0;
    while w < max_workers
        invariant
            w <= max_workers,
            s@ == spec_header(w as nat),
        decreases max_workers - w,
    {
        s.append(" ");
        let num = decimal_string((w + 1) as u64);
        s.append(num.as_str());
        s.append(" Cores |");
        proof {
            assert(s@ =~= spec_header((w + 1) as nat));
        }
        w = w + 1;
    }

    s.append("\n|---|");
    proof {
        assert(s@ =~= spec_header(max) + spec_separator(0));
    }
    let mut t: usize = 0;
    while t < max_workers
        invariant
            t <= max_workers,
            s@ == spec_header(max) + spec_separator(t as nat),
        decreases max_workers - t,
    {
        s.append("---|");
        proof {
            assert(s@ =~= spec_header(max) + spec_separator((t + 1) as nat));
        }
        t = t + 1;
    }

    let mut k: usize = 0;
    let mut i: usize = 0;
    while i < n_rows
        invariant
            i <= n_rows,
            n_rows == labels.len(),
            n_cells == cells.len(),
            cells.len() == labels.len() * max,
            max == max_workers as nat,
            max_workers >= 1,
            labels == size_labels.deep_view(),
            cells == rate_cells.deep_view(),
            k == i * max,
            s@ == spec_header(max) + spec_separator(max) + spec_rows(labels, cells, max, i as nat),
        decreases n_rows - i,
    {
        proof {
            vstd::arithmetic::mul::lemma_mul_inequality(
                i + 1,
                labels.len() as int,
                max as int,
            );
            assert((i + 1) * max == i * max + max) by (nonlinear_arith);
        }
        let ghost row = cells.subrange((i * max) as int, (i * max + max) as int);
        s.append("\n| ");
        s.append(size_labels[i].as_str());
        s.append(" |");
        proof {
            assert(size_labels.deep_view()[i as int] == size_labels@[i as int]@);
            assert(s@ =~= spec_header(max) + spec_separator(max) + spec_rows(
                labels,
                cells,
                max,
                i as nat,
            ) + "\n| "@ + labels[i as int] + " |"@ + spec_row_cells(row, 0));
        }
        let mut j: usize = 0;
        while j < max_workers
            invariant
                j <= max_workers,
                i < n_rows,
                n_rows == labels.len(),
                n_cells == cells.len(),
                cells.len() == labels.len() * max,
                max == max_workers as nat,
                max_workers >= 1,
                labels == size_labels.deep_view(),
                cells == rate_cells.deep_view(),
                (i + 1) * max == i * max + max,
                (i + 1) * max <= cells.len(),
                k == i * max + j,
                row == cells.subrange((i * max) as int, (i * max + max) as int),
                s@ == spec_header(max) + spec_separator(max) + spec_rows(labels, cells, max, i as nat)
                    + "\n| "@ + labels[i as int] + " |"@ + spec_row_cells(row, j as nat),
            decreases max_workers - j,
        {
            s.append(" ");
            s.append(rate_cells[k].as_str());
            s.append(" |");
            proof {
                assert(rate_cells.deep_view()[k as int] == rate_cells@[k as int]@);
                assert(row[j as int] == cells[(i * max + j) as int]);
                assert(s@ =~= spec_header(max) + spec_separator(max) + spec_rows(
                    labels,
                    cells,
                    max,
                    i as nat,
                ) + "\n| "@ + labels[i as int] + " |"@ + spec_row_cells(row, (j + 1) as nat));
            }
            k = k + 1;
            j = j + 1;
        }
        proof {
            assert(row.len() == max);
            assert(spec_row(labels[i as int], row) =~= "\n| "@ + labels[i as int] + " |"@
                + spec_row_cells(row, row.len()));
            assert(s@ =~= spec_header(max) + spec_separator(max) + spec_rows(
                labels,
                cells,
                max,
                (i + 1) as nat,
            ));
        }
        i = i + 1;
    }
    proof {
        assert(s@ =~= spec_table(labels, cells, max));
    }
    s
}

} // verus!
