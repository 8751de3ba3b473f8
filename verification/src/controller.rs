//! The page controller: translates key events into actions, applies actions to
//! the session state, and runs the per-tick decisions that drive timer-driven
//! page transitions.
//!
//! Store work is not performed here: applying an action yields the sequence of
//! store commands the caller must perform, and the outcome of a fetch is handed
//! back through [`Controller::records_fetched`]. Rendering, keyboard polling
//! and the once-per-second call of [`Controller::tick_second`] likewise belong
//! to the caller.

use vstd::prelude::*;

use crate::constants::{Action, Page, COUNTDOWN_DURATION, GAME_DURATION};
use crate::record::Record;
use crate::state::State;
use crate::timer::{spec_start, spec_stop, spec_tick, CountdownTimer};
use crate::util::{calculate_char_speed, calculate_word_speed, get_current_datetime,
    per_minute_rate};
use crate::words::build_passage;

verus! {

/// A key event, reduced to what translation distinguishes.
#[derive(Debug, PartialEq, Eq, Structural, Copy, Clone)]
pub enum Key {
    Esc,
    Enter,
    Up,
    Down,
    Char(char),
    Other,
}

/// A store operation the controller asks its caller to perform.
#[derive(Debug, Clone)]
pub enum StoreCmd {
    /// Read all records; the outcome is handed back through
    /// [`Controller::records_fetched`].
    SelectAll,
    /// Insert one record with these values.
    Insert { wpm: i64, cpm: i64, date: String },
    /// Close the store.
    Close,
}

/// A usable corpus: at least one word, and no empty words.
pub open spec fn corpus_ok(corpus: Seq<String>) -> bool {
    &&& corpus.len() >= 1
    &&& forall|k: int| 0 <= k < corpus.len() ==> #[trigger] corpus[k]@.len() >= 1
}

/// What translating a key yields, given the current page and menu selection.
pub open spec fn spec_translate(key: Key, page: Page, menu_index: i32) -> Action {
    match key {
        Key::Esc => if page == Page::Menu {
            Action::Exit
        } else {
            Action::ChangePage(Page::Menu)
        },
        Key::Enter => match page {
            Page::Menu => if menu_index == 0 {
                Action::ChangePage(Page::CountDown)
            } else {
                Action::ChangePage(Page::Records)
            },
            Page::GameResult => Action::ChangePage(Page::Menu),
            _ => Action::Empty,
        },
        Key::Char(c) => if page == Page::Game {
            Action::CharInput(c)
        } else {
            Action::Empty
        },
        Key::Up => if page == Page::Menu {
            Action::MenuAction
        } else {
            Action::Empty
        },
        Key::Down => if page == Page::Menu {
            Action::MenuAction
        } else {
            Action::Empty
        },
        Key::Other => Action::Empty,
    }
}

/// What one character of input does. A match advances the cursor and exactly
/// one of the two counts; a mismatch changes nothing; input past the end of the
/// passage stops the session as a safety backstop.
pub open spec fn char_step(s: State, c: char) -> State {
    if (s.position as int) < s.paragraph@.len() {
        if s.paragraph@[s.position as int] == c {
            State {
                position: (s.position + 1) as i32,
                word_count: if c == ' ' {
                    (s.word_count + 1) as u64
                } else {
                    s.word_count
                },
                char_count: if c == ' ' {
                    s.char_count
                } else {
                    (s.char_count + 1) as u64
                },
                ..s
            }
        } else {
            s
        }
    } else {
        State { is_running: false, ..s }
    }
}

/// The menu toggle between its two entries.
pub open spec fn menu_step(s: State) -> State {
    State { menu_index: if s.menu_index <= 0 { 1i32 } else { 0i32 }, ..s }
}

/// The commands are exactly one insertion carrying these rates.
pub open spec fn is_insert_of(cmds: Seq<StoreCmd>, wpm: i64, cpm: i64) -> bool {
    &&& cmds.len() == 1
    &&& cmds[0] matches StoreCmd::Insert { wpm: w, cpm: c, date: _ } && w == wpm && c == cpm
}

/// The controller: the session state, the countdown timer, and the word corpus
/// passages are sampled from.
pub struct Controller {
    pub state: State,
    pub timer: CountdownTimer,
    pub corpus: Vec<String>,
}

/// What entering `target` does, before the page field itself is set to
/// `target`: the page-specific pre-transition work of the state machine.
pub open spec fn change_page_rel(
    pre: Controller,
    target: Page,
    post: Controller,
    cmds: Seq<StoreCmd>,
) -> bool {
    match target {
        Page::CountDown => {
            &&& post.state == (State {
                page: Page::CountDown,
                next_page: Page::Game,
                position: 0,
                word_count: 0,
                char_count: 0,
                paragraph: post.state.paragraph,
                ..pre.state
            })
            &&& 0 < post.state.paragraph@.len() <= i32::MAX as int
            &&& post.timer == spec_start(pre.timer, COUNTDOWN_DURATION)
            &&& cmds.len() == 0
        },
        Page::Game => {
            &&& post.state == (State {
                page: Page::Game,
                next_page: Page::GameResult,
                ..pre.state
            })
            &&& post.timer == spec_start(pre.timer, GAME_DURATION)
            &&& cmds.len() == 0
        },
        Page::Menu => {
            &&& post.state == (State { page: Page::Menu, next_page: Page::CountDown, ..pre.state })
            &&& post.timer == pre.timer
            &&& cmds.len() == 0
        },
        Page::Records => {
            &&& post.state == (State { page: Page::Records, ..pre.state })
            &&& post.timer == spec_stop(pre.timer)
            &&& cmds.len() == 1 && cmds[0] == StoreCmd::SelectAll
        },
        Page::GameResult => {
            &&& post.state == (State {
                page: Page::GameResult,
                next_page: Page::CountDown,
                ..pre.state
            })
            &&& post.timer == spec_stop(pre.timer)
            &&& is_insert_of(cmds, pre.state.word_speed, pre.state.char_speed)
        },
    }
}

/// What applying `action` does: how the state and timer after the call relate
/// to the ones before, and which store commands the caller owes.
pub open spec fn apply_rel(
    pre: Controller,
    action: Action,
    post: Controller,
    cmds: Seq<StoreCmd>,
) -> bool {
    &&& post.corpus == pre.corpus
    &&& match action {
        Action::Init => {
            &&& post.state == (State { is_running: true, ..pre.state })
            &&& post.timer == pre.timer
            &&& cmds.len() == 0
        },
        Action::Empty => post == pre && cmds.len() == 0,
        Action::Exit => {
            &&& post.state == (State { is_running: false, ..pre.state })
            &&& post.timer == pre.timer
            &&& cmds.len() == 1 && cmds[0] == StoreCmd::Close
        },
        Action::CharInput(c) => {
            &&& post.state == char_step(pre.state, c)
            &&& post.timer == pre.timer
            &&& cmds.len() == 0
        },
        Action::MenuAction => {
            &&& post.state == menu_step(pre.state)
            &&& post.timer == pre.timer
            &&& cmds.len() == 0
        },
        Action::GetRecords => {
            &&& post.state == pre.state
            &&& post.timer == pre.timer
            &&& cmds.len() == 1 && cmds[0] == StoreCmd::SelectAll
        },
        Action::PostRecord => {
            &&& post.state == pre.state
            &&& post.timer == pre.timer
            &&& is_insert_of(cmds, pre.state.word_speed, pre.state.char_speed)
        },
        Action::ChangePage(p) => change_page_rel(pre, p, post, cmds),
    }
}

/// The controller after the display part of one tick: when the displayed
/// remaining value is stale, both rates are recomputed from the elapsed time
/// and the display is refreshed; otherwise nothing changes.
pub open spec fn display_step(c: Controller) -> Controller {
    if c.timer.remaining as int == c.state.timer as int {
        c
    } else {
        Controller {
            state: State {
                timer: c.timer.remaining as i64,
                word_speed: per_minute_rate(
                    c.state.word_count,
                    (c.timer.duration - c.timer.remaining) as u64,
                ) as i64,
                char_speed: per_minute_rate(
                    c.state.char_count,
                    (c.timer.duration - c.timer.remaining) as u64,
                ) as i64,
                ..c.state
            },
            ..c
        }
    }
}

/// What one tick does: nothing while no timer runs; a display refresh while the
/// timer runs; and on expiry, a stop followed by the transition to the armed
/// next page.
pub open spec fn tick_rel(pre: Controller, post: Controller, cmds: Seq<StoreCmd>) -> bool {
    if !pre.timer.running {
        post == pre && cmds.len() == 0
    } else if pre.timer.remaining > 0 {
        post == display_step(pre) && cmds.len() == 0
    } else {
        apply_rel(
            (Controller { timer: spec_stop(pre.timer), ..display_step(pre) }),
            Action::ChangePage(pre.state.next_page),
            post,
            cmds,
        )
    }
}

impl Controller {
    /// Everything the controller maintains across actions and ticks: the state
    /// is well formed, the timer never holds more than it was armed with, the
    /// timer is never armed beyond the game duration, and the corpus stays
    /// usable.
    pub open spec fn inv(self) -> bool {
        &&& self.state.inv()
        &&& self.timer.inv()
        &&& self.timer.duration <= GAME_DURATION
        &&& corpus_ok(self.corpus@)
    }

    /// A fresh controller on the menu, with a stopped timer and the given
    /// corpus.
    pub fn new(corpus: Vec<String>) -> (r: Controller)
        requires
            corpus_ok(corpus@),
        ensures
            r.inv(),
            r.state.is_initial(),
            r.timer == (CountdownTimer { running: false, remaining: 0, duration: 0 }),
            r.corpus == corpus,
    {
        Controller { state: State::new(), timer: CountdownTimer::new(), corpus }
    }

    /// Translates one pressed key into the action to apply. Escape always stops
    /// any active timer first.
    pub fn handle_key_stroke(&mut self, key: Key) -> (action: Action)
        requires
            old(self).inv(),
        ensures
            final(self).inv(),
            final(self).state == old(self).state,
            final(self).corpus == old(self).corpus,
            final(self).timer == (if key == Key::Esc {
                spec_stop(old(self).timer)
            } else {
                old(self).timer
            }),
            action == spec_translate(key, old(self).state.page, old(self).state.menu_index),
    {
        let page = *self.state.get_page();
        match key {
            Key::Esc => {
                self.timer.stop();
                if page == Page::Menu {
                    Action::Exit
                } else {
                    Action::ChangePage(Page::Menu)
                }
            },
            Key::Enter => match page {
                Page::Menu => {
                    if self.state.get_menu_index() == 0 {
                        Action::ChangePage(Page::CountDown)
                    } else {
                        Action::ChangePage(Page::Records)
                    }
                },
                Page::GameResult => Action::ChangePage(Page::Menu),
                _ => Action::Empty,
            },
            Key::Char(c) => {
                if page == Page::Game {
                    Action::CharInput(c)
                } else {
                    Action::Empty
                }
            },
            Key::Up => {
                if page == Page::Menu {
                    Action::MenuAction
                } else {
                    Action::Empty
                }
            },
            Key::Down => {
                if page == Page::Menu {
                    Action::MenuAction
                } else {
                    Action::Empty
                }
            },
            Key::Other => Action::Empty,
        }
    }

    /// Applies one action to the session state, fully, before the next event is
    /// read. The returned commands are the store work the caller owes, in
    /// order.
    pub fn handle_action(&mut self, action: Action) -> (cmds: Vec<StoreCmd>)
        requires
            old(self).inv(),
        ensures
            final(self).inv(),
            apply_rel(*old(self), action, *final(self), cmds@),
    {
        let mut out: Vec<StoreCmd> = Vec::new();
        match action {
            Action::Init => {
                self.state.set_is_running(true);
            },
            Action::Exit => {
                self.state.set_is_running(false);
                out.push(StoreCmd::Close);
            },
            Action::CharInput(user_input) => {
                let pos = self.state.get_position();
                let para_len = self.state.paragraph.as_str().unicode_len();
                if (pos as usize) < para_len {
                    let current = self.state.paragraph.as_str().get_char(pos as usize);
                    if current == user_input {
                        self.state.set_position(pos + 1);
                        if user_input == ' ' {
                            let word_count = self.state.get_word_count();
                            self.state.set_word_count(word_count + 1);
                        } else {
                            let char_count = self.state.get_char_count();
                            self.state.set_char_count(char_count + 1);
                        }
                    }
                } else {
                    self.state.set_is_running(false);
                }
            },
            Action::ChangePage(page) => {
                match page {
                    Page::CountDown => {
                        let passage = build_passage(&self.corpus);
                        self.state.set_paragraph(passage);
                        self.state.reset_stats();
                        self.timer.start(COUNTDOWN_DURATION);
                        self.state.set_next_page(Page::Game);
                    },
                    Page::Game => {
                        self.timer.start(GAME_DURATION);
                        self.state.set_next_page(Page::GameResult);
                    },
                    Page::Menu => {
                        self.state.set_next_page(Page::CountDown);
                    },
                    Page::Records => {
                        out.push(StoreCmd::SelectAll);
                        self.timer.stop();
                    },
                    Page::GameResult => {
                        self.timer.stop();
                        let wpm = self.state.get_word_speed();
                        let cpm = self.state.get_char_speed();
                        let date = get_current_datetime();
                        out.push(StoreCmd::Insert { wpm, cpm, date });
                        self.state.set_next_page(Page::CountDown);
                    },
                }
                self.state.set_page(page);
            },
            Action::GetRecords => {
                out.push(StoreCmd::SelectAll);
            },
            Action::PostRecord => {
                let wpm = self.state.get_word_speed();
                let cpm = self.state.get_char_speed();
                let date = get_current_datetime();
                out.push(StoreCmd::Insert { wpm, cpm, date });
            },
            Action::MenuAction => {
                let menu_index = self.state.get_menu_index();
                let new_index: i32 = if menu_index <= 0 {
                    1
                } else {
                    0
                };
                self.state.set_menu_index(new_index);
            },
            Action::Empty => {},
        }
        out
    }

    /// Applies the outcome of a `SelectAll` command: a successful fetch
    /// replaces the records wholesale; a failure is surfaced as the error
    /// message and leaves the records alone.
    pub fn records_fetched(&mut self, outcome: Result<Vec<Record>, String>)
        requires
            old(self).inv(),
        ensures
            final(self).inv(),
            (match outcome {
                Ok(records) => *final(self) == (Controller {
                    state: (State { records, ..old(self).state }),
                    ..*old(self)
                }),
                Err(message) => *final(self) == (Controller {
                    state: (State { error: message, ..old(self).state }),
                    ..*old(self)
                }),
            }),
    {
        match outcome {
            Ok(records) => self.state.set_records(records),
            Err(message) => self.state.set_error(message),
        }
    }

    /// One second of wall-clock time has passed: the countdown loses one unit.
    pub fn tick_second(&mut self)
        requires
            old(self).inv(),
        ensures
            final(self).inv(),
            *final(self) == (Controller { timer: spec_tick(old(self).timer), ..*old(self) }),
    {
        self.timer.tick_second();
    }

    /// The per-tick decisions of the foreground loop: refresh the displayed
    /// remaining value and the rates when the countdown moved, and fire the
    /// transition to the armed next page when it expired.
    pub fn on_tick(&mut self) -> (cmds: Vec<StoreCmd>)
        requires
            old(self).inv(),
        ensures
            final(self).inv(),
            tick_rel(*old(self), *final(self), cmds@),
    {
        if self.timer.is_running() {
            let rem = self.timer.remaining();
            if (rem as i64) != self.state.get_timer() {
                let elapsed = self.timer.duration - rem;
                proof {
                    if elapsed > 0 {
                        let num = 120 * (self.state.word_count as int) + (elapsed as int);
                        let den = 2 * (elapsed as int);
                        assert(num / den <= num) by (nonlinear_arith)
                            requires
                                num >= 0,
                                den >= 1,
                        ;
                        let cnum = 120 * (self.state.char_count as int) + (elapsed as int);
                        assert(cnum / den <= cnum) by (nonlinear_arith)
                            requires
                                cnum >= 0,
                                den >= 1,
                        ;
                    }
                }
                let word_speed = calculate_word_speed(self.state.get_word_count(), elapsed);
                let char_speed = calculate_char_speed(self.state.get_char_count(), elapsed);
                self.state.set_word_speed(word_speed);
                self.state.set_char_speed(char_speed);
                self.state.set_timer(rem as i64);
            }
            if rem == 0 {
                self.timer.stop();
                let next = *self.state.get_next_page();
                return self.handle_action(Action::ChangePage(next));
            }
        }
        Vec::new()
    }
}

/// The state after a whole sequence of character inputs.
pub open spec fn apply_chars(s: State, inputs: Seq<char>) -> State
    decreases inputs.len(),
{
    if inputs.len() == 0 {
        s
    } else {
        apply_chars(char_step(s, inputs[0]), inputs.drop_first())
    }
}

/// Over every sequence of character inputs, the cursor position never
/// decreases and never exceeds the passage length, and the passage itself does
/// not change.
pub proof fn lemma_char_inputs_monotone(s: State, inputs: Seq<char>)
    requires
        s.inv(),
    ensures
        apply_chars(s, inputs).inv(),
        apply_chars(s, inputs).paragraph == s.paragraph,
        s.position <= apply_chars(s, inputs).position,
        apply_chars(s, inputs).position as int <= s.paragraph@.len(),
    decreases inputs.len(),
{
    if inputs.len() > 0 {
        lemma_char_inputs_monotone(char_step(s, inputs[0]), inputs.drop_first());
    }
}

/// A character that does not match the passage at the cursor changes neither
/// the position nor either count: the whole state stays as it was.
pub proof fn lemma_char_mismatch_unchanged(s: State, c: char)
    requires
        s.inv(),
        (s.position as int) < s.paragraph@.len(),
        s.paragraph@[s.position as int] != c,
    ensures
        char_step(s, c) == s,
{
}

/// A matched space advances the word count by exactly one and leaves the
/// character count alone; any other matched character does the opposite.
pub proof fn lemma_char_match_counts(s: State, c: char)
    requires
        s.inv(),
        (s.position as int) < s.paragraph@.len(),
        s.paragraph@[s.position as int] == c,
    ensures
        char_step(s, c).position == s.position + 1,
        c == ' ' ==> char_step(s, c).word_count == s.word_count + 1
            && char_step(s, c).char_count == s.char_count,
        c != ' ' ==> char_step(s, c).char_count == s.char_count + 1
            && char_step(s, c).word_count == s.word_count,
{
}

/// Entering the result page asks the store for exactly one insertion, carrying
/// the rates of the last tick, and the page it leaves behind is transient:
/// pressing Enter there yields the transition back to the menu.
pub proof fn lemma_game_result_records_once(pre: Controller, post: Controller, cmds: Seq<StoreCmd>)
    requires
        change_page_rel(pre, Page::GameResult, post, cmds),
    ensures
        is_insert_of(cmds, pre.state.word_speed, pre.state.char_speed),
        post.state.page == Page::GameResult,
        spec_translate(Key::Enter, post.state.page, post.state.menu_index)
            == Action::ChangePage(Page::Menu),
{
}

/// Toggling the menu twice from selection 0 returns to exactly the starting
/// state.
pub proof fn lemma_menu_toggle_involution(s: State)
    requires
        s.menu_index == 0,
    ensures
        menu_step(menu_step(s)) == s,
{
}

} // verus!
