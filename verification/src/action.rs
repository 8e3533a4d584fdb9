//! What the dashboard reacts to.

use vstd::prelude::*;
use vstd::string::*;

verus! {

/// The key of a key press, as far as the views tell keys apart.
#[derive(Clone, Copy, Debug, PartialEq, Eq, Structural)]
pub enum Key {
    Char(char),
    Enter,
    Esc,
    Backspace,
    Up,
    Down,
    Left,
    Right,
    Home,
    End,
    /// Any other key.
    Other,
}

/// A key press.
#[derive(Clone, Copy, Debug, PartialEq, Eq, Structural)]
pub struct KeyEvent {
    pub code: Key,
    /// Whether the control key was held.
    pub control: bool,
}

/// The screen that the operator looks at: the list of all torrents, or the detail of the
/// torrent with the given number.
#[derive(Clone, Copy, Debug, PartialEq, Eq, Structural)]
pub enum Mode {
    List,
    Detail(i64),
}

/// The screen that a switch leads to.
#[derive(Clone, Copy, Debug, PartialEq, Eq, Structural)]
pub enum Target {
    List,
    Detail,
}

/// One thing for the dashboard to react to. An action is handled once and not kept.
#[derive(Debug)]
pub enum Action {
    /// Time to ask the server again.
    Tick,
    /// Time to draw.
    Render,
    /// Leave the loop.
    Quit,
    /// Go to another screen; the number is the torrent to show there or to select there.
    SwitchMode(Target, Option<i64>),
    ClearScreen,
    /// Something went wrong that the operator should read.
    Error(String),
    Key(KeyEvent),
}

/// What an [`Action`] holds.
pub enum ActionView {
    Tick,
    Render,
    Quit,
    SwitchMode(Target, Option<i64>),
    ClearScreen,
    Error(Seq<char>),
    Key(KeyEvent),
}

impl View for Action {
    type V = ActionView;

    open spec fn view(&self) -> ActionView {
        match self {
            Action::Tick => ActionView::Tick,
            Action::Render => ActionView::Render,
            Action::Quit => ActionView::Quit,
            Action::SwitchMode(target, focus) => ActionView::SwitchMode(*target, *focus),
            Action::ClearScreen => ActionView::ClearScreen,
            Action::Error(message) => ActionView::Error(message@),
            Action::Key(key) => ActionView::Key(*key),
        }
    }
}

/// The views of a sequence of actions.
pub open spec fn actions_view(actions: Seq<Action>) -> Seq<ActionView> {
    actions.map_values(|a: Action| a@)
}

/// The view of an optional action.
pub open spec fn option_action_view(action: Option<Action>) -> Option<ActionView> {
    match action {
        Some(action) => Some(action@),
        None => None,
    }
}

/// The actions that wait to be handled, merged from three sources.
///
/// What a handler asks for while it handles an action comes first. Key presses come next,
/// and the two timers last. Within one source the order of arrival is kept.
#[derive(Debug)]
pub struct ActionQueue {
    follow_ups: Vec<Action>,
    inputs: Vec<Action>,
    timers: Vec<Action>,
}

impl ActionQueue {
    /// The follow-up actions that wait, oldest first.
    pub closed spec fn follow_ups(&self) -> Seq<ActionView> {
        actions_view(self.follow_ups@)
    }

    /// The key presses that wait, oldest first.
    pub closed spec fn inputs(&self) -> Seq<ActionView> {
        actions_view(self.inputs@)
    }

    /// The timer actions that wait, oldest first.
    pub closed spec fn timers(&self) -> Seq<ActionView> {
        actions_view(self.timers@)
    }

    /// All that waits, in the order in which it will be handled.
    pub open spec fn pending(&self) -> Seq<ActionView> {
        self.follow_ups() + self.inputs() + self.timers()
    }

    /// A queue in which nothing waits.
    pub fn new() -> (queue: Self)
        ensures
            queue.follow_ups() == Seq::<ActionView>::empty(),
            queue.inputs() == Seq::<ActionView>::empty(),
            queue.timers() == Seq::<ActionView>::empty(),
    {
        let queue = ActionQueue { follow_ups: Vec::new(), inputs: Vec::new(), timers: Vec::new() };
        assert(queue.follow_ups() =~= Seq::<ActionView>::empty());
        assert(queue.inputs() =~= Seq::<ActionView>::empty());
        assert(queue.timers() =~= Seq::<ActionView>::empty());
        queue
    }

    /// Adds an action that a handler asked for.
    pub fn push_follow_up(&mut self, action: Action)
        ensures
            final(self).follow_ups() == old(self).follow_ups().push(action@),
            final(self).inputs() == old(self).inputs(),
            final(self).timers() == old(self).timers(),
    {
        self.follow_ups.push(action);
        assert(self.follow_ups() =~= old(self).follow_ups().push(action@));
    }

    /// Adds a key press.
    pub fn push_input(&mut self, key: KeyEvent)
        ensures
            final(self).inputs() == old(self).inputs().push(ActionView::Key(key)),
            final(self).follow_ups() == old(self).follow_ups(),
            final(self).timers() == old(self).timers(),
    {
        self.inputs.push(Action::Key(key));
        assert(self.inputs() =~= old(self).inputs().push(ActionView::Key(key)));
    }

    /// Adds a tick of the refresh timer.
    pub fn push_tick(&mut self)
        ensures
            final(self).timers() == old(self).timers().push(ActionView::Tick),
            final(self).follow_ups() == old(self).follow_ups(),
            final(self).inputs() == old(self).inputs(),
    {
        self.timers.push(Action::Tick);
        assert(self.timers() =~= old(self).timers().push(ActionView::Tick));
    }

    /// Adds a tick of the frame timer.
    pub fn push_render(&mut self)
        ensures
            final(self).timers() == old(self).timers().push(ActionView::Render),
            final(self).follow_ups() == old(self).follow_ups(),
            final(self).inputs() == old(self).inputs(),
    {
        self.timers.push(Action::Render);
        assert(self.timers() =~= old(self).timers().push(ActionView::Render));
    }

    /// Whether nothing waits.
    pub fn is_empty(&self) -> (empty: bool)
        ensures
            empty == (self.pending().len() == 0),
    {
        self.follow_ups.len() == 0 && self.inputs.len() == 0 && self.timers.len() == 0
    }

    /// Takes the action that is to be handled next: the first of all that waits.
    pub fn pop(&mut self) -> (next: Option<Action>)
        ensures
            option_action_view(next) == if old(self).pending().len() > 0 {
                Some(old(self).pending()[0])
            } else {
                None
            },
            final(self).follow_ups() == if old(self).follow_ups().len() > 0 {
                old(self).follow_ups().drop_first()
            } else {
                old(self).follow_ups()
            },
            final(self).inputs() == if old(self).follow_ups().len() == 0 && old(self).inputs().len()
                > 0 {
                old(self).inputs().drop_first()
            } else {
                old(self).inputs()
            },
            final(self).timers() == if old(self).follow_ups().len() == 0 && old(self).inputs().len()
                == 0 && old(self).timers().len() > 0 {
                old(self).timers().drop_first()
            } else {
                old(self).timers()
            },
    {
        if self.follow_ups.len() > 0 {
            let action = self.follow_ups.remove(0);
            assert(self.follow_ups() =~= old(self).follow_ups().drop_first());
            Some(action)
        } else if self.inputs.len() > 0 {
            let action = self.inputs.remove(0);
            assert(self.inputs() =~= old(self).inputs().drop_first());
            Some(action)
        } else if self.timers.len() > 0 {
            let action = self.timers.remove(0);
            assert(self.timers() =~= old(self).timers().drop_first());
            Some(action)
        } else {
            None
        }
    }
}

} // verus!
