//! What the selector draws: the list of branches and the list of commands.

use vstd::prelude::*;
use vstd::string::StringExecFns;
use crate::branch::{
    checkout_invocation, command_text, delete_invocation, lemma_max_name_len_is_greatest,
    max_name_len, Branch, BranchView, DeleteMode,
};
use crate::screen::{clear_line_end, clear_line_end_seq};
use crate::text::{blanks, byte_len, spaces, str_byte_len};

verus! {

/// The end of every row: carriage return and line feed.
pub open spec fn row_end() -> Seq<char> {
    "\r\n"@
}

/// The gap between the column of names and the column beside it.
pub open spec fn margin() -> Seq<char> {
    "   "@
}

/// The three characters before a name: an arrow on the selected row,
/// spaces on the others.
pub open spec fn cursor_mark(selected: bool) -> Seq<char> {
    if selected {
        "-> "@
    } else {
        "   "@
    }
}

/// The number of spaces that fill a text of `len` bytes up to `width`;
/// none where the text is already as wide or wider.
pub open spec fn fill(width: nat, len: nat) -> nat {
    if width >= len {
        (width - len) as nat
    } else {
        0
    }
}

/// The row of one branch: cursor mark, name, spaces up to the width of the
/// name column, the margin, the status, and the sequence that erases the
/// rest of the line, where an earlier, longer status may still stand.
pub open spec fn branch_row(branch: BranchView, selected: bool, max_name_len: nat) -> Seq<char> {
    cursor_mark(selected) + branch.name + blanks(fill(max_name_len, byte_len(branch.name)))
        + margin() + branch.status + clear_line_end_seq() + row_end()
}

/// The rows of the first `n` branches, one after the other.
pub open spec fn branch_rows(
    branches: Seq<BranchView>,
    selected: int,
    max_name_len: nat,
    n: int,
) -> Seq<char>
    decreases n,
{
    if n <= 0 {
        Seq::empty()
    } else {
        branch_rows(branches, selected, max_name_len, n - 1) + branch_row(
            branches[n - 1],
            selected == n - 1,
            max_name_len,
        )
    }
}

/// The list of branches: a heading, an empty row, and a row for each
/// branch, with the cursor on row `selected`.
pub open spec fn branches_text(
    branches: Seq<BranchView>,
    selected: int,
    max_name_len: nat,
) -> Seq<char> {
    "BRANCHES\r\n"@ + row_end() + branch_rows(
        branches,
        selected,
        max_name_len,
        branches.len() as int,
    )
}

/// The width of the widest key label of the command list.
pub open spec fn key_label_len() -> nat {
    9
}

/// A row of the command list and the empty row below it: the key, spaces
/// that bring the command under the status column, the margin, and the
/// command that the key stands for.
pub open spec fn help_row(label: Seq<char>, indentation: nat, command: Seq<char>) -> Seq<char> {
    label + blanks(fill(indentation, key_label_len())) + margin() + command + row_end()
        + row_end()
}

/// The list of commands for the branch `name`: two empty rows, a heading,
/// an empty row, and a row for each key. The rows of the keys that run a
/// command show that command word for word.
pub open spec fn help_text(indentation: nat, name: Seq<char>) -> Seq<char> {
    row_end() + row_end() + "COMMANDS\r\n"@ + row_end() + help_row(
        "   d        "@,
        indentation,
        command_text(delete_invocation(name, DeleteMode::Soft)),
    ) + help_row(
        "   D        "@,
        indentation,
        command_text(delete_invocation(name, DeleteMode::Forced)),
    ) + help_row("   c / Enter"@, indentation, command_text(checkout_invocation(name)))
        + help_row("   q / Esc  "@, indentation, "quit"@)
}

/// Appends to `out` the row of the command list for one key.
fn push_help_row(out: &mut String, label: &str, pad: &str, command: &str)
    ensures
        final(out)@ == old(out)@ + (label@ + pad@ + margin() + command@ + row_end() + row_end()),
{
    out.append(label);
    out.append(pad);
    out.append("   ");
    out.append(command);
    out.append("\r\n");
    out.append("\r\n");
}

/// The text of the command list, each command written out for `branch`.
/// `indentation` is the width of the name column of the branch list; the
/// commands start in the column where the statuses start there.
pub fn render_help(indentation: usize, branch: &Branch) -> (text: String)
    ensures
        text@ == help_text(indentation as nat, branch.name@),
{
    let command_len: usize = 9;
    let pad = spaces(indentation.saturating_sub(command_len));
    let soft = branch.delete_command(DeleteMode::Soft).command_line();
    let forced = branch.delete_command(DeleteMode::Forced).command_line();
    let checkout = branch.checkout_command().command_line();

    let mut text = String::new();
    text.append("\r\n");
    text.append("\r\n");
    text.append("COMMANDS\r\n");
    text.append("\r\n");
    push_help_row(&mut text, "   d        ", pad.as_str(), soft.as_str());
    push_help_row(&mut text, "   D        ", pad.as_str(), forced.as_str());
    push_help_row(&mut text, "   c / Enter", pad.as_str(), checkout.as_str());
    push_help_row(&mut text, "   q / Esc  ", pad.as_str(), "quit");
    text
}

/// Appends to `out` the row of one branch. `clear` is the sequence that
/// erases the rest of the line.
fn push_branch_row(
    out: &mut String,
    branch: &Branch,
    selected: bool,
    max_branch_name_len: usize,
    clear: &str,
)
    requires
        clear@ == clear_line_end_seq(),
    ensures
        final(out)@ == old(out)@ + branch_row(branch@, selected, max_branch_name_len as nat),
{
    let name_len = str_byte_len(branch.name.as_str());
    let pad = spaces(max_branch_name_len.saturating_sub(name_len));
    let mut row = String::from_str(if selected { "-> " } else { "   " });
    row.append(branch.name.as_str());
    row.append(pad.as_str());
    row.append("   ");
    row.append(branch.status.as_str());
    row.append(clear);
    row.append("\r\n");
    out.append(row.as_str());
}

/// The text of the branch list. The row of `branches[selected]` carries the
/// cursor; with `selected` beyond the list no row does. Names are filled
/// with spaces up to `max_branch_name_len` bytes.
pub fn render_branches(
    branches: &Vec<Branch>,
    selected: usize,
    max_branch_name_len: usize,
) -> (text: String)
    ensures
        text@ == branches_text(branches.deep_view(), selected as int, max_branch_name_len as nat),
{
    let clear = clear_line_end();
    let mut text = String::from_str("BRANCHES\r\n");
    text.append("\r\n");
    let ghost head = text@;
    let ghost views = branches.deep_view();
    let mut index: usize = 0;
    while index < branches.len()
        invariant
            index <= branches.len(),
            views == branches.deep_view(),
            clear@ == clear_line_end_seq(),
            text@ == head + branch_rows(
                views,
                selected as int,
                max_branch_name_len as nat,
                index as int,
            ),
        decreases branches.len() - index,
    {
        push_branch_row(
            &mut text,
            &branches[index],
            selected == index,
            max_branch_name_len,
            clear.as_str(),
        );
        assert(views[index as int] == branches[index as int]@);
        index += 1;
    }
    text
}

/// The statuses stand in one column: with the width of the widest name as
/// the width of the name column, every name and the spaces after it take
/// that many bytes. Where that width is no less than the width of the
/// widest key label, the commands of the command list stand in the same
/// column.
pub proof fn lemma_columns_align(branches: Seq<BranchView>, i: int)
    requires
        0 <= i < branches.len(),
    ensures
        byte_len(branches[i].name) + fill(max_name_len(branches), byte_len(branches[i].name))
            == max_name_len(branches),
        max_name_len(branches) >= key_label_len() ==> key_label_len() + fill(
            max_name_len(branches),
            key_label_len(),
        ) == max_name_len(branches),
{
    lemma_max_name_len_is_greatest(branches);
}

} // verus!
