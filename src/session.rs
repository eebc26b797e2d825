//! The decisions of a running tray: what a menu selection does, whether a
//! timer tick polls the client, and how quitting ends both.
use vstd::prelude::*;
use crate::actions::{MenuAction, action_id, action_with_id, lemma_action_ids_distinct, warp_invocation};
use crate::commands::{
    MenuEntry, UserCommand, UserCommandView, commands_view, lemma_user_ids_distinct,
    shell_invocation, user_command_index, user_item_id, user_menu_entries,
};
use crate::invocation::{Invocation, InvocationView};

verus! {

/// What the tray does in answer to a menu selection.
pub enum MenuReaction {
    /// Run this program and print what it writes.
    Run(Invocation),
    /// The entry exists but does nothing yet.
    NotImplemented,
    /// End the event loop.
    Quit,
    /// Nothing to do: an unknown entry, or the tray has already quit.
    Ignore,
}

/// The abstract value of a [`MenuReaction`].
pub ghost enum ReactionView {
    Run(InvocationView),
    NotImplemented,
    Quit,
    Ignore,
}

impl View for MenuReaction {
    type V = ReactionView;

    open spec fn view(&self) -> ReactionView {
        match self {
            MenuReaction::Run(inv) => ReactionView::Run(inv@),
            MenuReaction::NotImplemented => ReactionView::NotImplemented,
            MenuReaction::Quit => ReactionView::Quit,
            MenuReaction::Ignore => ReactionView::Ignore,
        }
    }
}

/// The state of a running tray: whether its event loop still runs, and
/// the user's commands that were added to its menu.
pub struct TraySession {
    running: bool,
    commands: Vec<UserCommand>,
}

/// The abstract value of a [`TraySession`].
pub ghost struct SessionView {
    pub running: bool,
    pub commands: Seq<UserCommandView>,
}

impl View for TraySession {
    type V = SessionView;

    closed spec fn view(&self) -> SessionView {
        SessionView { running: self.running, commands: commands_view(self.commands@) }
    }
}

/// The reaction to a fixed action of the menu.
pub open spec fn action_reaction(a: MenuAction) -> ReactionView {
    if a == MenuAction::Quit {
        ReactionView::Quit
    } else {
        match warp_invocation(a) {
            Some(inv) => ReactionView::Run(inv),
            None => ReactionView::NotImplemented,
        }
    }
}

/// The reaction to selecting the entry `id` in state `s`.
pub open spec fn reaction_for(s: SessionView, id: Seq<char>) -> ReactionView {
    if !s.running {
        ReactionView::Ignore
    } else {
        match action_with_id(id) {
            Some(a) => action_reaction(a),
            None => if exists|i: nat| i < s.commands.len() && user_item_id(i) == id {
                let i = choose|i: nat| i < s.commands.len() && user_item_id(i) == id;
                ReactionView::Run(shell_invocation(s.commands[i as int].command))
            } else {
                ReactionView::Ignore
            },
        }
    }
}

/// The state after selecting the entry `id` in state `s`.
pub open spec fn after_selection(s: SessionView, id: Seq<char>) -> SessionView {
    SessionView { running: s.running && reaction_for(s, id) != ReactionView::Quit, ..s }
}

/// Selecting a fixed action while the tray runs yields that action's own
/// reaction; in particular an action that runs the client runs exactly its
/// fixed command and arguments, whatever the user's own commands are.
pub proof fn lemma_action_selection(s: SessionView, a: MenuAction)
    requires
        s.running,
    ensures
        reaction_for(s, action_id(a)) == action_reaction(a),
        warp_invocation(a) is Some ==> reaction_for(s, action_id(a)) == ReactionView::Run(warp_invocation(a)->0),
{
    assert forall|b: MenuAction| action_id(b) == action_id(a) implies b == a by {
        lemma_action_ids_distinct(a, b);
    }
}

/// Each of the user's commands has its own menu entry while the tray runs:
/// no two positions share an identifier, none clashes with a fixed action,
/// and selecting the entry at `i` runs the command at `i` through the shell.
pub proof fn lemma_user_entry_selection(s: SessionView, i: nat, j: nat, a: MenuAction)
    requires
        s.running,
        i < s.commands.len(),
    ensures
        user_item_id(i) == user_item_id(j) ==> i == j,
        user_item_id(i) != action_id(a),
        reaction_for(s, user_item_id(i)) == ReactionView::Run(shell_invocation(s.commands[i as int].command)),
{
    lemma_user_ids_distinct(i, j);
    assert forall|b: MenuAction| action_id(b) != user_item_id(i) by {
        lemma_action_ids_distinct(b, b);
    }
    assert forall|k: nat| k < s.commands.len() && user_item_id(k) == user_item_id(i) implies k == i by {
        lemma_user_ids_distinct(k, i);
    }
}

/// Something that happens to a running tray.
pub ghost enum SessionEvent {
    /// The polling timer fired.
    Tick,
    /// The menu entry with this identifier was selected.
    Select(Seq<char>),
}

/// What the tray did in answer to one event.
pub ghost enum Outcome {
    /// It polled the client and theme.
    Polled,
    /// A tick that did not poll.
    Idle,
    /// It reacted to a menu selection.
    Reacted(ReactionView),
}

/// What the tray in state `s` does on event `e`.
pub open spec fn outcome(s: SessionView, e: SessionEvent) -> Outcome {
    match e {
        SessionEvent::Tick => if s.running {
            Outcome::Polled
        } else {
            Outcome::Idle
        },
        SessionEvent::Select(id) => Outcome::Reacted(reaction_for(s, id)),
    }
}

/// The state of the tray after event `e` in state `s`.
pub open spec fn next_state(s: SessionView, e: SessionEvent) -> SessionView {
    match e {
        SessionEvent::Tick => s,
        SessionEvent::Select(id) => after_selection(s, id),
    }
}

/// What the tray does, event by event, from state `s`.
pub open spec fn outcomes(s: SessionView, events: Seq<SessionEvent>) -> Seq<Outcome>
    decreases events.len(),
{
    if events.len() == 0 {
        seq![]
    } else {
        seq![outcome(s, events[0])] + outcomes(next_state(s, events[0]), events.drop_first())
    }
}

proof fn lemma_stopped_stays_quiet(s: SessionView, events: Seq<SessionEvent>)
    requires
        !s.running,
    ensures
        outcomes(s, events).len() == events.len(),
        forall|j: int| 0 <= j < events.len() ==> #[trigger] outcomes(s, events)[j] != Outcome::Polled
            && outcomes(s, events)[j] != Outcome::Reacted(ReactionView::Quit),
    decreases events.len(),
{
    if events.len() > 0 {
        lemma_stopped_stays_quiet(next_state(s, events[0]), events.drop_first());
        let rest = outcomes(next_state(s, events[0]), events.drop_first());
        assert forall|j: int| 0 < j < events.len() implies #[trigger] outcomes(s, events)[j] == rest[j - 1] by {}
    }
}

/// Quitting happens at most once: after the tray has quit, no event makes
/// it quit again and no tick polls.
pub proof fn lemma_quit_once(s: SessionView, events: Seq<SessionEvent>)
    ensures
        outcomes(s, events).len() == events.len(),
        forall|i: int, j: int|
            0 <= i < j < events.len() && #[trigger] outcomes(s, events)[i] == Outcome::Reacted(ReactionView::Quit)
                ==> #[trigger] outcomes(s, events)[j] != Outcome::Polled
                && outcomes(s, events)[j] != Outcome::Reacted(ReactionView::Quit),
    decreases events.len(),
{
    if events.len() > 0 {
        let t = next_state(s, events[0]);
        let rest = events.drop_first();
        lemma_quit_once(t, rest);
        let out = outcomes(s, events);
        assert forall|j: int| 0 < j < events.len() implies #[trigger] out[j] == outcomes(t, rest)[j - 1] by {}
        if out[0] == Outcome::Reacted(ReactionView::Quit) {
            lemma_stopped_stays_quiet(t, rest);
        }
        assert forall|i: int, j: int|
            0 <= i < j < events.len() && #[trigger] out[i] == Outcome::Reacted(ReactionView::Quit)
                implies #[trigger] out[j] != Outcome::Polled && out[j] != Outcome::Reacted(ReactionView::Quit) by {
            if i > 0 {
                assert(outcomes(t, rest)[i - 1] == Outcome::Reacted(ReactionView::Quit));
            }
        }
    }
}

impl TraySession {
    /// A running tray whose menu holds the fixed actions and `commands`.
    pub fn new(commands: Vec<UserCommand>) -> (r: TraySession)
        ensures
            r@.running,
            r@.commands == commands_view(commands@),
    {
        TraySession { running: true, commands }
    }

    /// Whether the event loop still runs.
    pub fn is_running(&self) -> (r: bool)
        ensures
            r == self@.running,
    {
        self.running
    }

    /// The menu entries of the user's commands.
    pub fn user_entries(&self) -> (r: Vec<MenuEntry>)
        ensures
            r@.len() == self@.commands.len(),
            forall|i: int| 0 <= i < r@.len() ==> #[trigger] r@[i].id@ == user_item_id(i as nat)
                && r@[i].label@ == self@.commands[i].title,
    {
        let r = user_menu_entries(self.commands.as_slice());
        assert forall|i: int| 0 <= i < r@.len() implies self@.commands[i] == self.commands@[i]@ by {}
        r
    }

    /// Whether a timer tick should poll the client: only while running.
    pub fn on_tick(&self) -> (r: bool)
        ensures
            r == self@.running,
    {
        self.running
    }

    /// Handles the selection of the menu entry `id`.
    pub fn on_menu(&mut self, id: &String) -> (r: MenuReaction)
        ensures
            r@ == reaction_for(old(self)@, id@),
            final(self)@ == after_selection(old(self)@, id@),
    {
        if !self.running {
            return MenuReaction::Ignore;
        }
        match MenuAction::from_id(id) {
            Some(a) => {
                if a == MenuAction::Quit {
                    self.running = false;
                    MenuReaction::Quit
                } else {
                    match a.warp_invocation() {
                        Some(inv) => MenuReaction::Run(inv),
                        None => MenuReaction::NotImplemented,
                    }
                }
            },
            None => {
                match user_command_index(id, self.commands.len()) {
                    Some(i) => {
                        proof {
                            assert forall|j: nat| j < self@.commands.len() && user_item_id(j) == id@ implies j == i by {
                                lemma_user_ids_distinct(i as nat, j);
                            }
                        }
                        MenuReaction::Run(self.commands[i].invocation())
                    },
                    None => MenuReaction::Ignore,
                }
            },
        }
    }
}

} // verus!
