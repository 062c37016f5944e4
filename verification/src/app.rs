//! The screen stack of the application: the current screen, the paused
//! screens under it, the open dialogs, and the events screens send; and
//! what the status line shows.
use std::collections::VecDeque;
use vstd::prelude::*;
use crate::config::{badge_of, role_badge, AppHooks, Config, VReaderRole};

verus! {

/// Background work shown in the status line.
pub enum AppWorkStatus {
    /// No work in progress.
    Idle,
    /// Work in progress: `completed` of `total` steps done (the gauge shows
    /// their ratio, at most one), and a description of the latest step.
    Working(u16, usize, String),
}

impl AppWorkStatus {
    /// Whether no work is in progress.
    pub fn is_none(&self) -> (r: bool)
        ensures
            r == (*self is Idle),
    {
        matches!(self, AppWorkStatus::Idle)
    }
}

/// The first status of `statuses` that reports work, `Idle` when none does.
pub open spec fn first_working(statuses: Seq<AppWorkStatus>) -> AppWorkStatus
    decreases statuses.len(),
{
    if statuses.len() == 0 {
        AppWorkStatus::Idle
    } else if !(statuses[0] is Idle) {
        statuses[0]
    } else {
        first_working(statuses.drop_first())
    }
}

/// The status of the first of `statuses` that reports work, `Idle` when
/// none does.
pub fn first_work_status(statuses: Vec<AppWorkStatus>) -> (r: AppWorkStatus)
    ensures
        r == first_working(statuses@),
{
    let n = statuses.len();
    let mut i: usize = 0;
    assert(statuses@.skip(0) =~= statuses@);
    while i < n
        invariant
            n == statuses@.len(),
            i <= n,
            first_working(statuses@) == first_working(statuses@.skip(i as int)),
        decreases n - i,
    {
        assert(statuses@.skip(i as int).drop_first() =~= statuses@.skip(i + 1));
        if !statuses[i].is_none() {
            assert(statuses@.skip(i as int)[0] == statuses@[i as int]);
            let mut statuses = statuses;
            return statuses.swap_remove(i);
        }
        i = i + 1;
    }
    AppWorkStatus::Idle
}

/// The lifecycle of a screen or dialog: started when shown, paused when
/// covered, unpaused when uncovered, quit when closed; and the background
/// work it reports.
pub trait AppScreen: Sized {
    /// The screen as `start` leaves it.
    spec fn started(self) -> Self;

    /// The screen as `pause` leaves it.
    spec fn paused(self) -> Self;

    /// The screen as `unpause` leaves it.
    spec fn unpaused(self) -> Self;

    fn start(&mut self)
        ensures
            *final(self) == old(self).started(),
    ;

    fn pause(&mut self)
        ensures
            *final(self) == old(self).paused(),
    ;

    fn unpause(&mut self)
        ensures
            *final(self) == old(self).unpaused(),
    ;

    fn quit(&mut self);

    /// The background work the screen reports.
    spec fn work_status_spec(&self) -> AppWorkStatus;

    fn get_work_status(&self) -> (r: AppWorkStatus)
        ensures
            r == self.work_status_spec(),
    ;
}

/// The work statuses of the screens, the current one first, then the
/// paused ones in the order they were put away.
pub open spec fn screen_statuses<S: AppScreen>(current: Option<S>, paused: Seq<S>) -> Seq<AppWorkStatus> {
    let rest = paused.map_values(|s: S| s.work_status_spec());
    match current {
        Some(c) => seq![c.work_status_spec()] + rest,
        None => rest,
    }
}

/// What a screen asks of the application after an input event.
pub enum AppScreenEvent<S, D, N> {
    NoAction,
    /// Show a new screen over the current one.
    ChangeState(S),
    /// Close the current screen and go back to the one under it.
    ExitState,
    OpenDialog(D),
    CloseDialog,
    /// Show a notification.
    Notify(N),
    ExitApp,
}

/// The application: whether it runs, the user's role, the library handle
/// the screens share, the hooks, and the stacks of screens and dialogs.
pub struct App<S, D, L> {
    pub running: bool,
    pub role: VReaderRole,
    pub library: L,
    pub hooks: AppHooks,
    pub current_state: Option<S>,
    pub states_queue: VecDeque<S>,
    pub dialog_queue: VecDeque<D>,
}

/// `change_state` from `a` to show `new_state` gave `b`: the current
/// screen, paused, went on top of the paused screens, and `new_state`,
/// started, is current.
pub open spec fn changed_state<S: AppScreen, D, L>(a: App<S, D, L>, b: App<S, D, L>, new_state: S) -> bool {
    &&& b.current_state == Some(new_state.started())
    &&& b.states_queue@ == match a.current_state {
        Some(c) => a.states_queue@.push(c.paused()),
        None => a.states_queue@,
    }
    &&& b.dialog_queue@ == a.dialog_queue@
    &&& b.running == a.running
    &&& b.role == a.role
    &&& b.library == a.library
    &&& b.hooks == a.hooks
}

/// `exit_state` from `a` gave `b`: the current screen was quit; the top
/// paused screen, unpaused, became current, or, when there was none, the
/// application stopped.
pub open spec fn exited_state<S: AppScreen, D, L>(a: App<S, D, L>, b: App<S, D, L>) -> bool {
    &&& a.states_queue@.len() > 0 ==> {
        &&& b.current_state == Some(a.states_queue@.last().unpaused())
        &&& b.states_queue@ == a.states_queue@.drop_last()
        &&& b.running == a.running
    }
    &&& a.states_queue@.len() == 0 ==> {
        &&& b.current_state is None
        &&& b.states_queue@ == a.states_queue@
        &&& !b.running
    }
    &&& b.dialog_queue@ == a.dialog_queue@
    &&& b.role == a.role
    &&& b.library == a.library
    &&& b.hooks == a.hooks
}

/// `open_dialog` from `a` to show `dialog` gave `b`: the current screen was
/// paused and the dialog, started, went to the end of the dialogs.
pub open spec fn opened_dialog<S: AppScreen, D: AppScreen, L>(a: App<S, D, L>, b: App<S, D, L>, dialog: D) -> bool {
    &&& b.dialog_queue@ == a.dialog_queue@.push(dialog.started())
    &&& b.current_state == match a.current_state {
        Some(c) => Some(c.paused()),
        None => None,
    }
    &&& b.states_queue@ == a.states_queue@
    &&& b.running == a.running
    &&& b.role == a.role
    &&& b.library == a.library
    &&& b.hooks == a.hooks
}

/// `close_current_dialog` from `a` gave `b`: the last dialog was quit and
/// removed; nothing else changed.
pub open spec fn closed_dialog<S, D, L>(a: App<S, D, L>, b: App<S, D, L>) -> bool {
    &&& a.dialog_queue@.len() > 0 ==> b.dialog_queue@ == a.dialog_queue@.drop_last()
    &&& a.dialog_queue@.len() == 0 ==> b.dialog_queue@ == a.dialog_queue@
    &&& b.current_state == a.current_state
    &&& b.states_queue@ == a.states_queue@
    &&& b.running == a.running
    &&& b.role == a.role
    &&& b.library == a.library
    &&& b.hooks == a.hooks
}

impl<S: AppScreen, D: AppScreen, L> App<S, D, L> {
    /// A running application for the configured role and hooks (none
    /// configured means the default hooks), with no screen yet.
    pub fn new(config: &Config, library: L) -> (r: Self)
        ensures
            r.running,
            r.role == config.role,
            r.library == library,
            r.hooks == match config.hooks {
                Some(h) => h,
                None => AppHooks { open_link: None },
            },
            r.current_state is None,
            r.states_queue@.len() == 0,
            r.dialog_queue@.len() == 0,
    {
        let hooks = match &config.hooks {
            Some(h) => h.clone(),
            None => AppHooks::default(),
        };
        App {
            running: true,
            role: config.role,
            library,
            hooks,
            current_state: None,
            states_queue: VecDeque::new(),
            dialog_queue: VecDeque::new(),
        }
    }

    /// Starts `state` and makes it the current screen.
    pub fn init(&mut self, state: S)
        ensures
            final(self).current_state == Some(state.started()),
            final(self).states_queue@ == old(self).states_queue@,
            final(self).dialog_queue@ == old(self).dialog_queue@,
            final(self).running == old(self).running,
            final(self).role == old(self).role,
            final(self).library == old(self).library,
            final(self).hooks == old(self).hooks,
    {
        let mut state = state;
        state.start();
        self.current_state = Some(state);
    }

    /// Shows the main screen, and the welcome dialog over it when the
    /// library holds no feed.
    pub fn initmain(&mut self, main_screen: S, library_is_empty: bool, welcome: D)
        ensures
            final(self).current_state == Some(
                if library_is_empty {
                    main_screen.started().paused()
                } else {
                    main_screen.started()
                },
            ),
            final(self).states_queue@ == old(self).states_queue@,
            final(self).dialog_queue@ == if library_is_empty {
                old(self).dialog_queue@.push(welcome.started())
            } else {
                old(self).dialog_queue@
            },
            final(self).running == old(self).running,
            final(self).role == old(self).role,
            final(self).library == old(self).library,
            final(self).hooks == old(self).hooks,
    {
        self.init(main_screen);
        if library_is_empty {
            self.open_dialog(welcome);
        }
    }

    /// Pauses the current screen, puts it on the stack, and starts and shows
    /// `new_state`.
    pub fn change_state(&mut self, new_state: S)
        ensures
            changed_state(*old(self), *final(self), new_state),
    {
        match self.current_state.take() {
            Some(state) => {
                let mut state = state;
                state.pause();
                self.states_queue.push_back(state);
            },
            None => {},
        }
        let mut new_state = new_state;
        new_state.start();
        self.current_state = Some(new_state);
    }

    /// Quits the current screen and goes back to the last paused one; with
    /// none left, the application stops.
    pub fn exit_state(&mut self)
        ensures
            exited_state(*old(self), *final(self)),
    {
        match self.current_state.take() {
            Some(state) => {
                let mut state = state;
                state.quit();
            },
            None => {},
        }
        if self.states_queue.len() > 0 {
            match self.states_queue.pop_back() {
                Some(state) => {
                    let mut state = state;
                    state.unpause();
                    self.current_state = Some(state);
                },
                None => {
                    self.running = false;
                },
            }
        } else {
            self.running = false;
        }
    }

    /// Pauses the current screen and starts and queues the dialog.
    pub fn open_dialog(&mut self, dialog_state: D)
        ensures
            opened_dialog(*old(self), *final(self), dialog_state),
    {
        match self.current_state.as_mut() {
            Some(state) => state.pause(),
            None => {},
        }
        let mut dialog_state = dialog_state;
        dialog_state.start();
        self.dialog_queue.push_back(dialog_state);
    }

    /// Quits and removes the last dialog.
    pub fn close_current_dialog(&mut self)
        ensures
            closed_dialog(*old(self), *final(self)),
    {
        match self.dialog_queue.pop_back() {
            Some(state) => {
                let mut state = state;
                state.quit();
            },
            None => {},
        }
    }

    /// The work that the current screen reports, else that of the first
    /// paused screen that reports any, else `Idle`.
    pub fn get_work_status(&self) -> (r: AppWorkStatus)
        ensures
            r == first_working(screen_statuses(self.current_state, self.states_queue@)),
    {
        let mut statuses: Vec<AppWorkStatus> = Vec::new();
        match self.current_state.as_ref() {
            Some(state) => statuses.push(state.get_work_status()),
            None => {},
        }
        let ghost head: Seq<AppWorkStatus> = statuses@;
        let n = self.states_queue.len();
        let mut i: usize = 0;
        while i < n
            invariant
                n == self.states_queue@.len(),
                i <= n,
                head == match self.current_state {
                    Some(c) => seq![c.work_status_spec()],
                    None => Seq::<AppWorkStatus>::empty(),
                },
                statuses@ == head + self.states_queue@.take(i as int).map_values(|s: S| s.work_status_spec()),
            decreases n - i,
        {
            statuses.push(self.states_queue[i].get_work_status());
            proof {
                assert(self.states_queue@.take(i + 1).map_values(|s: S| s.work_status_spec()) =~= self.states_queue@.take(
                    i as int,
                ).map_values(|s: S| s.work_status_spec()).push(self.states_queue@[i as int].work_status_spec()));
            }
            i = i + 1;
        }
        proof {
            assert(self.states_queue@.take(n as int) =~= self.states_queue@);
            assert(statuses@ =~= screen_statuses(self.current_state, self.states_queue@));
        }
        first_work_status(statuses)
    }

    /// Where key presses and the status line's title and key help come
    /// from: the first dialog of the queue when there is one, else the
    /// current screen (`None`).
    pub fn front_dialog(&self) -> (r: Option<&D>)
        ensures
            self.dialog_queue@.len() > 0 ==> r == Some(&self.dialog_queue@[0]),
            self.dialog_queue@.len() == 0 ==> r is None,
    {
        if self.dialog_queue.len() > 0 {
            Some(&self.dialog_queue[0])
        } else {
            None
        }
    }

    /// Carries out what a screen asked; a notification is handed back to be
    /// shown.
    pub fn handle_screen_event<N>(&mut self, event: AppScreenEvent<S, D, N>) -> (r: Option<N>)
        ensures
            match event {
                AppScreenEvent::NoAction => *final(self) == *old(self) && r is None,
                AppScreenEvent::ChangeState(s) => changed_state(*old(self), *final(self), s) && r is None,
                AppScreenEvent::ExitState => exited_state(*old(self), *final(self)) && r is None,
                AppScreenEvent::OpenDialog(d) => opened_dialog(*old(self), *final(self), d) && r is None,
                AppScreenEvent::CloseDialog => closed_dialog(*old(self), *final(self)) && r is None,
                AppScreenEvent::Notify(n) => *final(self) == *old(self) && r == Some(n),
                AppScreenEvent::ExitApp => !final(self).running && r is None && final(self).current_state
                    == old(self).current_state && final(self).states_queue@ == old(self).states_queue@
                    && final(self).dialog_queue@ == old(self).dialog_queue@,
            },
    {
        match event {
            AppScreenEvent::NoAction => None,
            AppScreenEvent::ChangeState(s) => {
                self.change_state(s);
                None
            },
            AppScreenEvent::ExitState => {
                self.exit_state();
                None
            },
            AppScreenEvent::OpenDialog(d) => {
                self.open_dialog(d);
                None
            },
            AppScreenEvent::CloseDialog => {
                self.close_current_dialog();
                None
            },
            AppScreenEvent::Notify(n) => Some(n),
            AppScreenEvent::ExitApp => {
                self.running = false;
                None
            },
        }
    }
}

/// Showing a screen and leaving it again brings back the screen that was
/// current, paused and then unpaused, over the same stack of paused screens,
/// with the application running as before.
pub proof fn lemma_change_then_exit<S: AppScreen, D, L>(a: App<S, D, L>, b: App<S, D, L>, c: App<S, D, L>, new_state: S)
    requires
        a.current_state is Some,
        changed_state(a, b, new_state),
        exited_state(b, c),
    ensures
        c.current_state == Some(a.current_state->0.paused().unpaused()),
        c.states_queue@ == a.states_queue@,
        c.running == a.running,
        c.dialog_queue@ == a.dialog_queue@,
{
    assert(b.states_queue@.drop_last() =~= a.states_queue@);
}

/// Opening a dialog and closing it again brings the dialogs back to what
/// they were.
pub proof fn lemma_open_then_close_dialog<S: AppScreen, D: AppScreen, L>(
    a: App<S, D, L>,
    b: App<S, D, L>,
    c: App<S, D, L>,
    dialog: D,
)
    requires
        opened_dialog(a, b, dialog),
        closed_dialog(b, c),
    ensures
        c.dialog_queue@ == a.dialog_queue@,
        c.states_queue@ == a.states_queue@,
        c.running == a.running,
{
    assert(b.dialog_queue@.drop_last() =~= a.dialog_queue@);
}

/// The text at the left of the status line: the role's badge and the
/// title of the screen or dialog on top.
pub fn status_text(role: &VReaderRole, title: &str) -> (r: String)
    ensures
        r@ == badge_of(*role) + " | "@ + title@,
{
    let mut text = String::from_str(role_badge(role));
    text.append(" | ");
    text.append(title);
    text
}

/// The number of columns given to the key help at the right of the status
/// line: its length in characters (taken modulo 2^16), at most 85, plus 5.
pub open spec fn instruction_columns(instructions: Seq<char>) -> int {
    let n = #[verifier::truncate] (instructions.len() as u16);
    (if n < 85 { n as int } else { 85 }) + 5
}

/// The number of columns given to the key help in the status line.
pub fn instruction_width(instructions: &str) -> (r: u16)
    ensures
        r == instruction_columns(instructions@),
{
    let n = #[verifier::truncate] (instructions.unicode_len() as u16);
    let w = if n < 85 { n } else { 85 };
    w + 5
}

/// The icon of a notification in the status line and the theme slot of its
/// color: an exclamation mark in slot 8 for a high-priority one, a bell in
/// slot 9 otherwise.
pub fn notification_look(high_priority: bool) -> (r: (&'static str, usize))
    ensures
        high_priority ==> r.0@ == "\u{f06a}"@ && r.1 == 8,
        !high_priority ==> r.0@ == "\u{f0f3}"@ && r.1 == 9,
{
    if high_priority {
        ("\u{f06a}", 8)
    } else {
        ("\u{f0f3}", 9)
    }
}

/// Whether a notification shows in the status line: a high-priority one
/// always, a low-priority one only while no work is in progress.
pub open spec fn notification_shown(high_priority: bool, working: bool) -> bool {
    high_priority || !working
}

/// Whether a notification shows in the status line (see
/// `notification_shown`).
pub fn show_notification(high_priority: bool, working: bool) -> (r: bool)
    ensures
        r == notification_shown(high_priority, working),
{
    if high_priority { true } else { !working }
}

} // verus!
