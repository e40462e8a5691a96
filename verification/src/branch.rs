//! Branches, the listing they are read from, and the commands that act on
//! them.

use vstd::prelude::*;
use vstd::string::{StrSliceExecFns, StringExecFns};
use crate::text::{
    byte_len, decode_lossy, flatten, flatten_newlines, lemma_flatten_has_no_line_feed, lines,
    split_lines, str_byte_len, utf8_lossy,
};

verus! {

/// A local branch and the latest word about it.
#[derive(Debug, Clone, PartialEq, Eq)]
pub struct Branch {
    /// The name of the branch.
    pub name: String,
    /// One line of text shown beside the name: empty, the mark of the
    /// checked-out branch, or what the last command on the branch printed.
    pub status: String,
}

/// A branch as two texts.
pub struct BranchView {
    pub name: Seq<char>,
    pub status: Seq<char>,
}

impl View for Branch {
    type V = BranchView;

    open spec fn view(&self) -> BranchView {
        BranchView { name: self.name@, status: self.status@ }
    }
}

impl DeepView for Branch {
    type V = BranchView;

    open spec fn deep_view(&self) -> BranchView {
        self@
    }
}

/// How a branch is deleted.
#[derive(Debug, Clone, Copy, PartialEq, Eq, Structural)]
pub enum DeleteMode {
    /// Only if the branch is fully merged.
    Soft,
    /// Whether it is merged or not.
    Forced,
}

/// A command for the program that drives the session to run.
#[derive(Debug, Clone, PartialEq, Eq)]
pub struct Invocation {
    /// The executable.
    pub program: String,
    /// Its arguments, in order.
    pub args: Vec<String>,
}

/// A command as texts.
pub struct InvocationView {
    pub program: Seq<char>,
    pub args: Seq<Seq<char>>,
}

impl View for Invocation {
    type V = InvocationView;

    open spec fn view(&self) -> InvocationView {
        InvocationView { program: self.program@, args: self.args.deep_view() }
    }
}

/// `words`, each with a space before it.
pub open spec fn words_text(words: Seq<Seq<char>>) -> Seq<char>
    decreases words.len(),
{
    if words.len() == 0 {
        Seq::empty()
    } else {
        words_text(words.drop_last()) + " "@ + words.last()
    }
}

/// A command as one would type it: the program, then the arguments, with
/// single spaces between them.
pub open spec fn command_text(command: InvocationView) -> Seq<char> {
    command.program + words_text(command.args)
}

/// The status of the branch that is checked out.
pub open spec fn current_mark() -> Seq<char> {
    "(current branch)"@
}

/// The number of characters before the name in a line of the listing.
pub open spec fn prefix_len() -> nat {
    2
}

/// The branch that a line of the listing stands for. The two characters of
/// the prefix are left out of the name; a star in the first place marks the
/// checked-out branch.
pub open spec fn branch_of_line(line: Seq<char>) -> BranchView {
    BranchView {
        name: line.skip(2),
        status: if line.len() > 0 && line[0] == '*' {
            current_mark()
        } else {
            Seq::empty()
        },
    }
}

/// Every line of `text` is long enough to hold a prefix.
pub open spec fn listing_ok(text: Seq<char>) -> bool {
    forall|i: int| 0 <= i < lines(text).len() ==> (#[trigger] lines(text)[i]).len() >= prefix_len()
}

/// The branches that the listing `text` names, line by line.
pub open spec fn branches_of(text: Seq<char>) -> Seq<BranchView> {
    Seq::new(lines(text).len(), |i: int| branch_of_line(lines(text)[i]))
}

/// The greatest byte length among the names of `branches`; 0 for no branch.
pub open spec fn max_name_len(branches: Seq<BranchView>) -> nat
    decreases branches.len(),
{
    if branches.len() == 0 {
        0
    } else {
        let rest = max_name_len(branches.drop_last());
        let last = byte_len(branches.last().name);
        if last > rest {
            last
        } else {
            rest
        }
    }
}

/// The status that a command leaves on a branch: what it wrote to its error
/// stream, then what it wrote to its output, on one line.
pub open spec fn status_of_output(stderr: Seq<char>, stdout: Seq<char>) -> Seq<char> {
    flatten(stderr + stdout)
}

/// The command that lists the local branches, without colours.
pub open spec fn listing_invocation() -> InvocationView {
    InvocationView { program: "git"@, args: seq!["branch"@, "--list"@, "--color=never"@] }
}

/// The command that deletes the branch `name`.
pub open spec fn delete_invocation(name: Seq<char>, mode: DeleteMode) -> InvocationView {
    InvocationView { program: "git"@, args: seq!["branch"@, mode.flag_text(), name] }
}

/// The command that checks the branch `name` out, reporting its progress.
pub open spec fn checkout_invocation(name: Seq<char>) -> InvocationView {
    InvocationView { program: "git"@, args: seq!["checkout"@, "--progress"@, name] }
}

impl Invocation {
    /// The command as one would type it.
    pub fn command_line(&self) -> (text: String)
        ensures
            text@ == command_text(self@),
    {
        let mut text = self.program.clone();
        let ghost words = self.args.deep_view();
        let mut i: usize = 0;
        while i < self.args.len()
            invariant
                i <= self.args.len(),
                words == self.args.deep_view(),
                text@ == self.program@ + words_text(words.take(i as int)),
            decreases self.args.len() - i,
        {
            proof {
                let next = words.take(i + 1);
                assert(next.drop_last() =~= words.take(i as int));
                assert(next.last() == self.args[i as int]@);
            }
            text.append(" ");
            text.append(self.args[i].as_str());
            i += 1;
        }
        assert(words.take(self.args.len() as int) =~= words);
        text
    }
}

impl DeleteMode {
    /// The option of the branch tool that asks for this mode.
    pub open spec fn flag_text(self) -> Seq<char> {
        match self {
            DeleteMode::Soft => "-d"@,
            DeleteMode::Forced => "-D"@,
        }
    }

    /// The option of the branch tool that asks for this mode.
    pub fn flag(self) -> (flag: &'static str)
        ensures
            flag@ == self.flag_text(),
    {
        match self {
            DeleteMode::Soft => "-d",
            DeleteMode::Forced => "-D",
        }
    }
}

impl Branch {
    /// Reads a branch from a line of the listing: two characters of prefix,
    /// then the name. The branch whose line starts with a star is the one
    /// checked out, and says so in its status; the others start with an
    /// empty status.
    pub fn from_line(line: &str) -> (branch: Branch)
        requires
            line@.len() >= prefix_len(),
        ensures
            branch@ == branch_of_line(line@),
    {
        let len = line.unicode_len();
        let status = if line.get_char(0) == '*' {
            String::from_str("(current branch)")
        } else {
            String::new()
        };
        let name = String::from_str(line.substring_char(2, len));
        Branch { name, status }
    }

    /// Reads a branch from a line of the listing, if the line is long
    /// enough to hold the prefix.
    pub fn parse_line(line: &str) -> (parsed: Option<Branch>)
        ensures
            line@.len() >= prefix_len() ==> parsed is Some && parsed->0@ == branch_of_line(line@),
            line@.len() < prefix_len() ==> parsed is None,
    {
        if line.unicode_len() >= 2 {
            Some(Branch::from_line(line))
        } else {
            None
        }
    }

    /// The command that deletes this branch.
    pub fn delete_command(&self, mode: DeleteMode) -> (command: Invocation)
        ensures
            command@ == delete_invocation(self.name@, mode),
    {
        let mut args: Vec<String> = Vec::new();
        args.push(String::from_str("branch"));
        args.push(String::from_str(mode.flag()));
        args.push(self.name.clone());
        let command = Invocation { program: String::from_str("git"), args };
        assert(command@.args =~= delete_invocation(self.name@, mode).args);
        command
    }

    /// The command that checks this branch out.
    pub fn checkout_command(&self) -> (command: Invocation)
        ensures
            command@ == checkout_invocation(self.name@),
    {
        let mut args: Vec<String> = Vec::new();
        args.push(String::from_str("checkout"));
        args.push(String::from_str("--progress"));
        args.push(self.name.clone());
        let command = Invocation { program: String::from_str("git"), args };
        assert(command@.args =~= checkout_invocation(self.name@).args);
        command
    }

    /// Takes what a command on this branch printed as the new status: the
    /// error text, then the output, with every line feed turned into a
    /// space. The name stays.
    pub fn set_status(&mut self, stderr: &str, stdout: &str)
        ensures
            final(self).name == old(self).name,
            final(self).status@ == status_of_output(stderr@, stdout@),
            !final(self).status@.contains('\n'),
    {
        self.status = status_line(stderr, stdout);
    }

    /// Takes what a command on this branch wrote to its two streams as the
    /// new status. The bytes are read as UTF-8, with a replacement character
    /// for what is not; then as in [`Branch::set_status`].
    pub fn record_output(&mut self, stderr: &[u8], stdout: &[u8])
        ensures
            final(self).name == old(self).name,
            final(self).status@ == status_of_output(utf8_lossy(stderr@), utf8_lossy(stdout@)),
            !final(self).status@.contains('\n'),
    {
        let stderr_text = decode_lossy(stderr);
        let stdout_text = decode_lossy(stdout);
        self.set_status(stderr_text.as_str(), stdout_text.as_str());
    }
}

/// The status that a command leaves behind: what it wrote to its error
/// stream, then what it wrote to its output, with every line feed turned
/// into a space.
pub fn status_line(stderr: &str, stdout: &str) -> (status: String)
    ensures
        status@ == status_of_output(stderr@, stdout@),
        !status@.contains('\n'),
{
    let printed = String::from_str(stderr).concat(stdout);
    flatten_newlines(printed.as_str())
}

/// The command that lists the local branches. It is meant to run in the
/// user's own environment, so that the branches come in the order the user
/// is used to.
pub fn listing_command() -> (command: Invocation)
    ensures
        command@ == listing_invocation(),
{
    let mut args: Vec<String> = Vec::new();
    args.push(String::from_str("branch"));
    args.push(String::from_str("--list"));
    args.push(String::from_str("--color=never"));
    let command = Invocation { program: String::from_str("git"), args };
    assert(command@.args =~= listing_invocation().args);
    command
}

/// Reads the branches from the text of a listing, one from each line. The
/// result is `None` if and only if some line is too short to hold a prefix.
pub fn parse_listing(text: &str) -> (parsed: Option<Vec<Branch>>)
    ensures
        listing_ok(text@) ==> parsed is Some && parsed->0.deep_view() == branches_of(text@),
        !listing_ok(text@) ==> parsed is None,
{
    let found = split_lines(text);
    let mut branches: Vec<Branch> = Vec::new();
    let mut i: usize = 0;
    while i < found.len()
        invariant
            i <= found.len(),
            found.deep_view() == lines(text@),
            branches.len() == i,
            forall|j: int| 0 <= j < i ==> (#[trigger] lines(text@)[j]).len() >= prefix_len(),
            forall|j: int|
                0 <= j < i ==> (#[trigger] branches[j])@ == branch_of_line(lines(text@)[j]),
        decreases found.len() - i,
    {
        match Branch::parse_line(found[i].as_str()) {
            Some(branch) => {
                branches.push(branch);
            },
            None => {
                assert(lines(text@)[i as int].len() < prefix_len());
                return None;
            },
        }
        i += 1;
    }
    Some(branches)
}

/// The greatest byte length among the names of `branches`, by which the
/// column of names is aligned; 0 for an empty list.
pub fn widest_name(branches: &Vec<Branch>) -> (width: usize)
    ensures
        width == max_name_len(branches.deep_view()),
{
    let mut width: usize = 0;
    let mut i: usize = 0;
    let ghost views = branches.deep_view();
    while i < branches.len()
        invariant
            i <= branches.len(),
            views == branches.deep_view(),
            width == max_name_len(views.take(i as int)),
        decreases branches.len() - i,
    {
        let len = str_byte_len(branches[i].name.as_str());
        proof {
            let next = views.take(i + 1);
            assert(next.drop_last() =~= views.take(i as int));
        }
        if len > width {
            width = len;
        }
        i += 1;
    }
    assert(views.take(branches.len() as int) =~= views);
    width
}

/// Reads what the listing command wrote: the branches, and the width of the
/// column of their names. The bytes are read as UTF-8, with a replacement
/// character for what is not. The result is `None` if and only if some line
/// is too short to hold a prefix.
pub fn load_listing(output: &[u8]) -> (loaded: Option<(Vec<Branch>, usize)>)
    ensures
        listing_ok(utf8_lossy(output@)) ==> (loaded matches Some((branches, width))
            && branches.deep_view() == branches_of(utf8_lossy(output@)) && width == max_name_len(
            branches_of(utf8_lossy(output@)),
        )),
        !listing_ok(utf8_lossy(output@)) ==> loaded is None,
{
    let text = decode_lossy(output);
    match parse_listing(text.as_str()) {
        Some(branches) => {
            let width = widest_name(&branches);
            Some((branches, width))
        },
        None => None,
    }
}

/// The width of the column of names is the byte length of a widest name:
/// no name is longer, some name is as long, and without a branch it is 0.
pub proof fn lemma_max_name_len_is_greatest(branches: Seq<BranchView>)
    ensures
        forall|i: int|
            0 <= i < branches.len() ==> byte_len(#[trigger] branches[i].name) <= max_name_len(
                branches,
            ),
        branches.len() == 0 ==> max_name_len(branches) == 0,
        branches.len() > 0 ==> exists|i: int|
            0 <= i < branches.len() && byte_len(#[trigger] branches[i].name) == max_name_len(
                branches,
            ),
    decreases branches.len(),
{
    if branches.len() > 0 {
        let rest = branches.drop_last();
        lemma_max_name_len_is_greatest(rest);
        assert forall|i: int| 0 <= i < branches.len() implies byte_len(
            #[trigger] branches[i].name,
        ) <= max_name_len(branches) by {
            if i < rest.len() {
                assert(rest[i] == branches[i]);
            }
        }
        if byte_len(branches.last().name) > max_name_len(rest) || rest.len() == 0 {
            let last: int = branches.len() - 1;
            assert(byte_len(branches[last].name) == max_name_len(branches));
        } else {
            let i: int = choose|i: int|
                0 <= i < rest.len() && byte_len(#[trigger] rest[i].name) == max_name_len(rest);
            assert(rest[i] == branches[i]);
        }
    }
}

/// The width of the column of names depends on the names alone: a status
/// may change without moving the column.
pub proof fn lemma_max_name_len_by_names(a: Seq<BranchView>, b: Seq<BranchView>)
    requires
        a.len() == b.len(),
        forall|i: int| 0 <= i < a.len() ==> a[i].name == b[i].name,
    ensures
        max_name_len(a) == max_name_len(b),
    decreases a.len(),
{
    if a.len() > 0 {
        lemma_max_name_len_by_names(a.drop_last(), b.drop_last());
    }
}

/// Whatever a command printed, the status it leaves is one line.
pub proof fn lemma_status_is_one_line(stderr: Seq<char>, stdout: Seq<char>)
    ensures
        !status_of_output(stderr, stdout).contains('\n'),
        status_of_output(stderr, stdout).len() == stderr.len() + stdout.len(),
{
    lemma_flatten_has_no_line_feed(stderr + stdout);
}

} // verus!
