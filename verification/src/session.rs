//! The session: the branches, the cursor, and what each action does to them.
//!
//! A session decides and the program around it acts: [`Session::handle`]
//! takes an action, moves to the next state and says what there is to do
//! outside, and the program reports back what a command printed with
//! [`Session::record_output`].

use vstd::prelude::*;
use vstd::string::StringExecFns;
use crate::branch::{
    branches_of, checkout_invocation, delete_invocation, lemma_max_name_len_by_names,
    lemma_status_is_one_line, listing_ok, load_listing, max_name_len, parse_listing, status_line,
    status_of_output, widest_name, Branch, BranchView, DeleteMode, Invocation, InvocationView,
};
use crate::keys::{action_of, key_to_action, Action, Key};
use crate::render::{branches_text, help_text, render_branches, render_help};
use crate::screen::{cursor_home, cursor_home_seq};
use crate::selection::Selection;
use crate::text::{decode_lossy, utf8_lossy};

verus! {

/// Whether the selector still runs.
#[derive(Debug, Clone, Copy, PartialEq, Eq, Structural)]
pub enum Phase {
    /// The selector draws frames and takes keys.
    Running,
    /// The selector has been left, by quitting or by a checkout.
    Terminated,
}

/// What the program has to do after an action.
#[derive(Debug, Clone, PartialEq, Eq)]
pub enum Effect {
    /// Nothing outside the session.
    Nothing,
    /// Run the command, wait for it, and report what it wrote to its error
    /// stream and to its output with [`Session::record_output`].
    Capture(Invocation),
    /// Give the terminal up, then run the command on it and wait. The
    /// session is over.
    HandOver(Invocation),
}

/// An effect with its command as texts.
pub enum EffectView {
    Nothing,
    Capture(InvocationView),
    HandOver(InvocationView),
}

impl View for Effect {
    type V = EffectView;

    open spec fn view(&self) -> EffectView {
        match self {
            Effect::Nothing => EffectView::Nothing,
            Effect::Capture(command) => EffectView::Capture(command@),
            Effect::HandOver(command) => EffectView::HandOver(command@),
        }
    }
}

/// The state of a session.
pub struct SessionView {
    /// The branches, in the order of the listing.
    pub branches: Seq<BranchView>,
    /// The cursor over them.
    pub selection: Selection,
    /// The width of the column of names.
    pub max_name_len: nat,
    /// Whether the selector still runs.
    pub phase: Phase,
}

impl SessionView {
    /// There is a branch, the cursor lies on one and may reach each of
    /// them, and the column of names is as wide as the widest name.
    pub open spec fn wf(self) -> bool {
        &&& self.branches.len() >= 1
        &&& self.selection.max == self.branches.len() - 1
        &&& self.selection.wf()
        &&& self.max_name_len == max_name_len(self.branches)
    }

    /// The state at the start: the cursor on the first of `branches`.
    pub open spec fn start(branches: Seq<BranchView>) -> SessionView {
        SessionView {
            branches,
            selection: Selection { index: 0, max: (branches.len() - 1) as usize },
            max_name_len: max_name_len(branches),
            phase: Phase::Running,
        }
    }

    /// The branch under the cursor.
    pub open spec fn selected(self) -> BranchView {
        self.branches[self.selection.index as int]
    }

    /// The state after `action`. Moving changes the cursor alone; quitting
    /// and checking out end the session; deleting changes nothing until the
    /// command has reported back. A session that is over stays as it is.
    pub open spec fn next(self, action: Action) -> SessionView {
        if self.phase == Phase::Terminated {
            self
        } else {
            match action {
                Action::MoveUp => SessionView { selection: self.selection.up(), ..self },
                Action::MoveDown => SessionView { selection: self.selection.down(), ..self },
                Action::Quit => SessionView { phase: Phase::Terminated, ..self },
                Action::Checkout => SessionView { phase: Phase::Terminated, ..self },
                Action::Delete => self,
                Action::ForceDelete => self,
                Action::NoOp => self,
            }
        }
    }

    /// What `action` asks the program to do: deleting runs the deletion of
    /// the selected branch, checking out runs its checkout on the terminal,
    /// and nothing else runs any command.
    pub open spec fn effect(self, action: Action) -> EffectView {
        if self.phase == Phase::Terminated {
            EffectView::Nothing
        } else {
            match action {
                Action::Delete => EffectView::Capture(
                    delete_invocation(self.selected().name, DeleteMode::Soft),
                ),
                Action::ForceDelete => EffectView::Capture(
                    delete_invocation(self.selected().name, DeleteMode::Forced),
                ),
                Action::Checkout => EffectView::HandOver(checkout_invocation(self.selected().name)),
                Action::MoveUp => EffectView::Nothing,
                Action::MoveDown => EffectView::Nothing,
                Action::Quit => EffectView::Nothing,
                Action::NoOp => EffectView::Nothing,
            }
        }
    }

    /// The state with `status` as the status of the selected branch.
    pub open spec fn with_status(self, status: Seq<char>) -> SessionView {
        SessionView {
            branches: self.branches.update(
                self.selection.index as int,
                BranchView { name: self.selected().name, status },
            ),
            ..self
        }
    }

    /// The state after each of `actions` in turn.
    pub open spec fn run(self, actions: Seq<Action>) -> SessionView
        decreases actions.len(),
    {
        if actions.len() == 0 {
            self
        } else {
            self.run(actions.drop_last()).next(actions.last())
        }
    }

    /// One frame of the screen: the cursor goes to the top left corner,
    /// then come the list of branches and the list of commands for the
    /// selected branch.
    pub open spec fn frame(self) -> Seq<char> {
        cursor_home_seq() + branches_text(
            self.branches,
            self.selection.index as int,
            self.max_name_len,
        ) + help_text(self.max_name_len, self.selected().name)
    }
}

/// A running selector.
#[derive(Debug)]
pub struct Session {
    branches: Vec<Branch>,
    selection: Selection,
    max_name_len: usize,
    phase: Phase,
}

impl View for Session {
    type V = SessionView;

    closed spec fn view(&self) -> SessionView {
        SessionView {
            branches: self.branches.deep_view(),
            selection: self.selection,
            max_name_len: self.max_name_len as nat,
            phase: self.phase,
        }
    }
}

impl Session {
    #[verifier::type_invariant]
    spec fn inv(self) -> bool {
        self@.wf()
    }

    /// A session over `branches`, with the cursor on the first. There is no
    /// session over no branches.
    pub fn new(branches: Vec<Branch>) -> (session: Option<Session>)
        ensures
            branches.len() == 0 ==> session is None,
            branches.len() > 0 ==> session is Some && session->0@ == SessionView::start(
                branches.deep_view(),
            ) && session->0@.wf(),
    {
        if branches.len() == 0 {
            None
        } else {
            let max_name_len = widest_name(&branches);
            let selection = Selection::new(branches.len() - 1);
            Some(Session { branches, selection, max_name_len, phase: Phase::Running })
        }
    }

    /// A session over the branches that the text of a listing names. There
    /// is none if a line is too short to hold a prefix, or if the listing
    /// names no branch.
    pub fn from_listing(text: &str) -> (session: Option<Session>)
        ensures
            listing_ok(text@) && branches_of(text@).len() > 0 ==> session is Some && session->0@
                == SessionView::start(branches_of(text@)) && session->0@.wf(),
            !(listing_ok(text@) && branches_of(text@).len() > 0) ==> session is None,
    {
        match parse_listing(text) {
            Some(branches) => Session::new(branches),
            None => None,
        }
    }

    /// A session over the branches that the listing command wrote. The
    /// bytes are read as UTF-8, with a replacement character for what is
    /// not; then as in [`Session::from_listing`].
    pub fn load(output: &[u8]) -> (session: Option<Session>)
        ensures
            listing_ok(utf8_lossy(output@)) && branches_of(utf8_lossy(output@)).len() > 0
                ==> session is Some && session->0@ == SessionView::start(
                branches_of(utf8_lossy(output@)),
            ) && session->0@.wf(),
            !(listing_ok(utf8_lossy(output@)) && branches_of(utf8_lossy(output@)).len() > 0)
                ==> session is None,
    {
        match load_listing(output) {
            Some((branches, _)) => Session::new(branches),
            None => None,
        }
    }

    /// The branches, in the order of the listing.
    pub fn branches(&self) -> (branches: &Vec<Branch>)
        ensures
            branches.deep_view() == self@.branches,
            forall|i: int|
                0 <= i < branches.len() ==> (#[trigger] branches[i])@ == self@.branches[i],
            self@.wf(),
    {
        proof {
            use_type_invariant(self);
        }
        &self.branches
    }

    /// The cursor.
    pub fn selection(&self) -> (selection: Selection)
        ensures
            selection == self@.selection,
            self@.wf(),
    {
        proof {
            use_type_invariant(self);
        }
        self.selection
    }

    /// The branch under the cursor.
    pub fn selected(&self) -> (branch: &Branch)
        ensures
            branch@ == self@.selected(),
            self@.wf(),
    {
        proof {
            use_type_invariant(self);
        }
        &self.branches[self.selection.index]
    }

    /// The width of the column of names: the byte length of the widest.
    pub fn max_name_len(&self) -> (width: usize)
        ensures
            width == self@.max_name_len,
            self@.wf(),
    {
        proof {
            use_type_invariant(self);
        }
        self.max_name_len
    }

    /// Whether the selector still runs.
    pub fn is_running(&self) -> (running: bool)
        ensures
            running == (self@.phase == Phase::Running),
    {
        match self.phase {
            Phase::Running => true,
            Phase::Terminated => false,
        }
    }

    /// Takes an action: moves to the next state and says what the program
    /// has to do.
    pub fn handle(&mut self, action: Action) -> (effect: Effect)
        ensures
            old(self)@.wf(),
            final(self)@ == old(self)@.next(action),
            final(self)@.wf(),
            final(self)@.branches == old(self)@.branches,
            effect@ == old(self)@.effect(action),
    {
        proof {
            use_type_invariant(&*self);
        }
        match self.phase {
            Phase::Terminated => Effect::Nothing,
            Phase::Running => match action {
                Action::MoveUp => {
                    let mut selection = self.selection;
                    selection.move_up();
                    self.selection = selection;
                    Effect::Nothing
                },
                Action::MoveDown => {
                    let mut selection = self.selection;
                    selection.move_down();
                    self.selection = selection;
                    Effect::Nothing
                },
                Action::Delete => Effect::Capture(
                    self.branches[self.selection.index].delete_command(DeleteMode::Soft),
                ),
                Action::ForceDelete => Effect::Capture(
                    self.branches[self.selection.index].delete_command(DeleteMode::Forced),
                ),
                Action::Checkout => {
                    let command = self.branches[self.selection.index].checkout_command();
                    self.phase = Phase::Terminated;
                    Effect::HandOver(command)
                },
                Action::Quit => {
                    self.phase = Phase::Terminated;
                    Effect::Nothing
                },
                Action::NoOp => Effect::Nothing,
            },
        }
    }

    /// Takes a key press: the action bound to the key, handled as in
    /// [`Session::handle`].
    pub fn handle_key(&mut self, key: Key) -> (effect: Effect)
        ensures
            old(self)@.wf(),
            final(self)@ == old(self)@.next(action_of(key)),
            final(self)@.wf(),
            effect@ == old(self)@.effect(action_of(key)),
    {
        self.handle(key_to_action(key))
    }

    /// Takes what a command on the selected branch printed as the status of
    /// that branch: the error text, then the output, on one line. No branch
    /// comes or goes, and the cursor stays.
    pub fn set_status(&mut self, stderr: &str, stdout: &str)
        ensures
            old(self)@.wf(),
            final(self)@ == old(self)@.with_status(status_of_output(stderr@, stdout@)),
            final(self)@.wf(),
            final(self)@.branches.len() == old(self)@.branches.len(),
            !final(self)@.selected().status.contains('\n'),
    {
        proof {
            use_type_invariant(&*self);
            lemma_status_is_one_line(stderr@, stdout@);
        }
        let index = self.selection.index;
        let status = status_line(stderr, stdout);
        let ghost before = self.branches.deep_view();
        proof {
            let after = before.update(
                index as int,
                BranchView { name: before[index as int].name, status: status@ },
            );
            lemma_max_name_len_by_names(before, after);
        }
        put_status(&mut self.branches, index, status);
    }

    /// Takes what a command on the selected branch wrote to its two streams
    /// as the status of that branch. The bytes are read as UTF-8, with a
    /// replacement character for what is not; then as in
    /// [`Session::set_status`].
    pub fn record_output(&mut self, stderr: &[u8], stdout: &[u8])
        ensures
            old(self)@.wf(),
            final(self)@ == old(self)@.with_status(
                status_of_output(utf8_lossy(stderr@), utf8_lossy(stdout@)),
            ),
            final(self)@.wf(),
            final(self)@.branches.len() == old(self)@.branches.len(),
            !final(self)@.selected().status.contains('\n'),
    {
        let stderr_text = decode_lossy(stderr);
        let stdout_text = decode_lossy(stdout);
        self.set_status(stderr_text.as_str(), stdout_text.as_str());
    }

    /// The text of one frame of the screen.
    pub fn frame(&self) -> (text: String)
        ensures
            text@ == self@.frame(),
    {
        proof {
            use_type_invariant(self);
        }
        let mut text = cursor_home();
        let list = render_branches(&self.branches, self.selection.index, self.max_name_len);
        let help = render_help(self.max_name_len, &self.branches[self.selection.index]);
        text.append(list.as_str());
        text.append(help.as_str());
        text
    }
}

/// Puts `status` on the branch at `index` and leaves the rest as it is.
fn put_status(branches: &mut Vec<Branch>, index: usize, status: String)
    requires
        index < old(branches).len(),
    ensures
        final(branches).deep_view() == old(branches).deep_view().update(
            index as int,
            BranchView { name: old(branches)[index as int].name@, status: status@ },
        ),
    no_unwind
{
    branches[index].status = status;
}

/// No action adds, removes or renames a branch, changes a status or moves
/// the column of names. After each of `actions` the state is well formed,
/// so the cursor lies on a branch; and as long as the session runs, the
/// cursor is where the moves among the actions have put it.
pub proof fn lemma_run_keeps_branches(state: SessionView, actions: Seq<Action>)
    requires
        state.wf(),
    ensures
        forall|n: int|
            0 <= n <= actions.len() ==> {
                let at = #[trigger] state.run(actions.take(n));
                &&& at.wf()
                &&& at.branches == state.branches
                &&& at.max_name_len == state.max_name_len
                &&& 0 <= at.selection.index <= at.selection.max
                &&& at.selection.max == state.selection.max
                &&& at.phase == Phase::Running ==> at.selection == state.selection.after_all(
                    actions.take(n),
                )
            },
{
    assert forall|n: int| 0 <= n <= actions.len() implies {
        let at = #[trigger] state.run(actions.take(n));
        &&& at.wf()
        &&& at.branches == state.branches
        &&& at.max_name_len == state.max_name_len
        &&& 0 <= at.selection.index <= at.selection.max
        &&& at.selection.max == state.selection.max
        &&& at.phase == Phase::Running ==> at.selection == state.selection.after_all(
            actions.take(n),
        )
    } by {
        lemma_run_end(state, actions.take(n));
    }
}

/// The state after `actions`, held against the state before them.
proof fn lemma_run_end(state: SessionView, actions: Seq<Action>)
    requires
        state.wf(),
    ensures
        state.run(actions).wf(),
        state.run(actions).branches == state.branches,
        state.run(actions).max_name_len == state.max_name_len,
        state.run(actions).phase == Phase::Running ==> state.run(actions).selection
            == state.selection.after_all(actions),
        state.run(actions).phase == Phase::Running ==> state.phase == Phase::Running,
    decreases actions.len(),
{
    if actions.len() > 0 {
        lemma_run_end(state, actions.drop_last());
    }
}

/// Recording what a command printed changes the status of the selected
/// branch and nothing else: the list is as long as before, every name and
/// the cursor stay, and the state is still well formed.
pub proof fn lemma_with_status_keeps_list(state: SessionView, status: Seq<char>)
    requires
        state.wf(),
    ensures
        state.with_status(status).wf(),
        state.with_status(status).branches.len() == state.branches.len(),
        state.with_status(status).selection == state.selection,
        state.with_status(status).selected().status == status,
        forall|i: int|
            0 <= i < state.branches.len() ==> (#[trigger] state.with_status(
                status,
            ).branches[i]).name == state.branches[i].name,
        forall|i: int|
            0 <= i < state.branches.len() && i != state.selection.index ==> (
            #[trigger] state.with_status(status).branches[i]) == state.branches[i],
{
    lemma_max_name_len_by_names(state.branches, state.with_status(status).branches);
}

/// Deleting, softly or by force, and recording what the command printed
/// leaves the list as long as it was, with every name in its place, and the
/// status it leaves on the selected branch holds no line feed.
pub proof fn lemma_delete_keeps_list(
    state: SessionView,
    action: Action,
    stderr: Seq<char>,
    stdout: Seq<char>,
)
    requires
        state.wf(),
        action == Action::Delete || action == Action::ForceDelete,
    ensures
        ({
            let after = state.next(action).with_status(status_of_output(stderr, stdout));
            &&& after.wf()
            &&& after.branches.len() == state.branches.len()
            &&& after.selection == state.selection
            &&& after.phase == state.phase
            &&& !after.selected().status.contains('\n')
            &&& forall|i: int|
                0 <= i < state.branches.len() ==> (#[trigger] after.branches[i]).name
                    == state.branches[i].name
        }),
{
    lemma_status_is_one_line(stderr, stdout);
    lemma_with_status_keeps_list(state.next(action), status_of_output(stderr, stdout));
}

/// Quitting ends the session from every state and asks for no command.
pub proof fn lemma_quit_terminates(state: SessionView)
    ensures
        state.next(Action::Quit).phase == Phase::Terminated,
        state.effect(Action::Quit) == EffectView::Nothing,
        state.next(Action::Quit).branches == state.branches,
        state.next(Action::Quit).selection == state.selection,
{
}

/// A session that is over stays over: no action changes its state or asks
/// for a command.
pub proof fn lemma_terminated_is_final(state: SessionView, action: Action)
    requires
        state.phase == Phase::Terminated,
    ensures
        state.next(action) == state,
        state.effect(action) == EffectView::Nothing,
{
}

} // verus!
