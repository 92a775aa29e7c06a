//! Markdown snippets that the editor inserts: tables and image links.
use vstd::prelude::*;
use vstd::string::StringExecFns;
use crate::node::display_name;

verus! {

/// The decimal digit `d`, for `d < 10`.
pub open spec fn digit_char(d: nat) -> char {
    if d == 0 { '0' } else if d == 1 { '1' } else if d == 2 { '2' } else if d == 3 { '3' }
    else if d == 4 { '4' } else if d == 5 { '5' } else if d == 6 { '6' } else if d == 7 { '7' }
    else if d == 8 { '8' } else { '9' }
}

/// `n` written in decimal, without leading zeros.
pub open spec fn decimal(n: nat) -> Seq<char>
    decreases n,
{
    if n < 10 {
        seq![digit_char(n)]
    } else {
        decimal(n / 10).push(digit_char(n % 10))
    }
}

/// `s` repeated `k` times.
pub open spec fn repeat(s: Seq<char>, k: nat) -> Seq<char>
    decreases k,
{
    if k == 0 {
        Seq::empty()
    } else {
        repeat(s, (k - 1) as nat) + s
    }
}

/// The header cells of a table with `k` columns, numbered from 1.
pub open spec fn header_cells(k: nat) -> Seq<char>
    decreases k,
{
    if k == 0 {
        Seq::empty()
    } else {
        header_cells((k - 1) as nat) + "| Column"@ + decimal(k) + " "@
    }
}

/// The markdown source of an empty table with `rows` data rows and
/// `cols` columns: a numbered header, a separator row and the data rows.
pub open spec fn table_code(rows: nat, cols: nat) -> Seq<char> {
    header_cells(cols) + "|\n"@ + repeat("|---------"@, cols) + "|\n"@ + repeat(
        repeat("| Cell   "@, cols) + "|\n"@,
        rows,
    )
}

/// The markdown link to an image copied next to a document, in the
/// folder `fugu-images`.
pub open spec fn image_link(img_path: Seq<char>) -> Seq<char> {
    "![](fugu-images/"@ + display_name(img_path) + ")\n\n"@
}

fn digit_str(d: u64) -> (r: &'static str)
    requires
        d < 10,
    ensures
        r@ == seq![digit_char(d as nat)],
{
    proof {
        reveal_strlit("0");
        reveal_strlit("1");
        reveal_strlit("2");
        reveal_strlit("3");
        reveal_strlit("4");
        reveal_strlit("5");
        reveal_strlit("6");
        reveal_strlit("7");
        reveal_strlit("8");
        reveal_strlit("9");
    }
    if d == 0 { "0" } else if d == 1 { "1" } else if d == 2 { "2" } else if d == 3 { "3" }
    else if d == 4 { "4" } else if d == 5 { "5" } else if d == 6 { "6" } else if d == 7 { "7" }
    else if d == 8 { "8" } else { "9" }
}

/// Appends `n` in decimal to `s`.
pub fn push_decimal(s: &mut String, n: u64)
    ensures
        final(s)@ == old(s)@ + decimal(n as nat),
    decreases n,
{
    if n >= 10 {
        push_decimal(s, n / 10);
    }
    s.append(digit_str(n % 10));
    assert(decimal(n as nat) == if n < 10 { seq![digit_char(n as nat)] } else { decimal((n / 10) as nat).push(digit_char((n % 10) as nat)) });
}

/// Appends `piece` to `s` `k` times.
fn push_repeated(s: &mut String, piece: &str, k: usize)
    ensures
        final(s)@ == old(s)@ + repeat(piece@, k as nat),
{
    let mut i: usize = 0;
    while i < k
        invariant
            i <= k,
            s@ == old(s)@ + repeat(piece@, i as nat),
        decreases k - i,
    {
        s.append(piece);
        i = i + 1;
        assert(repeat(piece@, i as nat) == repeat(piece@, (i - 1) as nat) + piece@);
    }
}

/// The markdown source of an empty table with `rows` data rows and
/// `cols` columns.
pub fn generate_table_code(rows: usize, cols: usize) -> (r: String)
    ensures
        r@ == table_code(rows as nat, cols as nat),
{
    let mut table = String::new();
    let mut i: usize = 0;
    while i < cols
        invariant
            i <= cols,
            table@ == header_cells(i as nat),
        decreases cols - i,
    {
        table.append("| Column");
        push_decimal(&mut table, (i + 1) as u64);
        table.append(" ");
        i = i + 1;
        assert(header_cells(i as nat) == header_cells((i - 1) as nat) + "| Column"@ + decimal(i as nat) + " "@);
    }
    table.append("|\n");
    push_repeated(&mut table, "|---------", cols);
    table.append("|\n");
    let mut row_text = String::new();
    push_repeated(&mut row_text, "| Cell   ", cols);
    row_text.append("|\n");
    push_repeated(&mut table, row_text.as_str(), rows);
    assert(table@ =~= table_code(rows as nat, cols as nat));
    table
}

/// The markdown that links the image at `img_path` once it is copied
/// into the document's image folder.
pub fn image_link_code(img_path: &str) -> (r: String)
    ensures
        r@ == image_link(img_path@),
{
    let mut code = "![](fugu-images/".to_owned();
    let name = crate::node::get_file_name(img_path);
    code.append(name.as_str());
    code.append(")\n\n");
    code
}

} // verus!
