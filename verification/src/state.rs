//! The session state: everything the foreground loop reads and the actions
//! mutate. One value of this struct lives for the whole process.

use vstd::prelude::*;

use crate::constants::Page;
use crate::record::Record;

verus! {

/// Relies on chrono's `Local::now().timestamp_millis()`: the current time in
/// milliseconds since the Unix epoch. The result depends on the clock, so
/// nothing is promised of its value.
#[verifier::external_body]
fn now_millis() -> i64 {
    chrono::Local::now().timestamp_millis()
}

/// The mutable snapshot of where the user currently is.
///
/// `position` counts the passage characters typed correctly so far; `timer`
/// holds the remaining seconds currently displayed; `next_page` is the page the
/// countdown leads to when it reaches zero; `word_speed` and `char_speed` are
/// the rates computed at the last tick; `error` holds the last surfaced
/// failure message, empty meaning none.
#[derive(Debug)]
pub struct State {
    pub is_running: bool,
    pub page: Page,
    pub next_page: Page,
    pub error: String,
    pub position: i32,
    pub paragraph: String,
    pub timer: i64,
    pub char_count: u64,
    pub word_count: u64,
    pub word_speed: i64,
    pub char_speed: i64,
    pub records: Vec<Record>,
    pub menu_index: i32,
    pub reference_timestamp: i64,
}

impl State {
    /// The state all fields start from: not running, on the menu, with empty
    /// passage, zero counts and rates, no records and no error.
    pub open spec fn is_initial(self) -> bool {
        &&& self.is_running == false
        &&& self.page == Page::Menu
        &&& self.next_page == Page::Menu
        &&& self.error@ == Seq::<char>::empty()
        &&& self.position == 0
        &&& self.paragraph@ == Seq::<char>::empty()
        &&& self.timer == 0
        &&& self.char_count == 0
        &&& self.word_count == 0
        &&& self.word_speed == 0
        &&& self.char_speed == 0
        &&& self.records@ == Seq::<Record>::empty()
        &&& self.menu_index == 0
        &&& self.reference_timestamp == 0
    }

    /// The well-formedness the state machine maintains: the cursor stays inside
    /// the passage, the passage fits the cursor's range, and neither count can
    /// outrun the cursor.
    pub open spec fn inv(self) -> bool {
        &&& 0 <= self.position
        &&& self.position as int <= self.paragraph@.len()
        &&& self.paragraph@.len() <= i32::MAX as int
        &&& self.word_count as int <= self.position as int
        &&& self.char_count as int <= self.position as int
    }

    pub fn new() -> (r: Self)
        ensures
            r.is_initial(),
            r.inv(),
    {
        State {
            is_running: false,
            page: Page::Menu,
            next_page: Page::Menu,
            error: String::new(),
            position: 0,
            paragraph: String::new(),
            timer: 0,
            char_count: 0,
            word_count: 0,
            word_speed: 0,
            char_speed: 0,
            records: Vec::new(),
            menu_index: 0,
            reference_timestamp: 0,
        }
    }

    pub fn get_is_running(&self) -> (r: bool)
        ensures
            r == self.is_running,
    {
        self.is_running
    }

    pub fn set_is_running(&mut self, is_running: bool)
        ensures
            *final(self) == (State { is_running, ..*old(self) }),
    {
        self.is_running = is_running;
    }

    pub fn get_error(&self) -> (r: &String)
        ensures
            r@ == self.error@,
    {
        &self.error
    }

    pub fn set_error(&mut self, error: String)
        ensures
            *final(self) == (State { error, ..*old(self) }),
    {
        self.error = error;
    }

    pub fn get_page(&self) -> (r: &Page)
        ensures
            *r == self.page,
    {
        &self.page
    }

    pub fn set_page(&mut self, page: Page)
        ensures
            *final(self) == (State { page, ..*old(self) }),
    {
        self.page = page;
    }

    pub fn get_next_page(&self) -> (r: &Page)
        ensures
            *r == self.next_page,
    {
        &self.next_page
    }

    pub fn set_next_page(&mut self, next_page: Page)
        ensures
            *final(self) == (State { next_page, ..*old(self) }),
    {
        self.next_page = next_page;
    }

    pub fn get_position(&self) -> (r: i32)
        ensures
            r == self.position,
    {
        self.position
    }

    pub fn set_position(&mut self, position: i32)
        ensures
            *final(self) == (State { position, ..*old(self) }),
    {
        self.position = position;
    }

    pub fn get_paragraph(&self) -> (r: &String)
        ensures
            r@ == self.paragraph@,
    {
        &self.paragraph
    }

    pub fn set_paragraph(&mut self, new_paragraph: String)
        ensures
            *final(self) == (State { paragraph: new_paragraph, ..*old(self) }),
    {
        self.paragraph = new_paragraph;
    }

    pub fn get_timer(&self) -> (r: i64)
        ensures
            r == self.timer,
    {
        self.timer
    }

    pub fn set_timer(&mut self, new_timer: i64)
        ensures
            *final(self) == (State { timer: new_timer, ..*old(self) }),
    {
        self.timer = new_timer;
    }

    pub fn get_word_count(&self) -> (r: u64)
        ensures
            r == self.word_count,
    {
        self.word_count
    }

    pub fn set_word_count(&mut self, word_count: u64)
        ensures
            *final(self) == (State { word_count, ..*old(self) }),
    {
        self.word_count = word_count;
    }

    pub fn get_char_count(&self) -> (r: u64)
        ensures
            r == self.char_count,
    {
        self.char_count
    }

    pub fn set_char_count(&mut self, char_count: u64)
        ensures
            *final(self) == (State { char_count, ..*old(self) }),
    {
        self.char_count = char_count;
    }

    pub fn get_word_speed(&self) -> (r: i64)
        ensures
            r == self.word_speed,
    {
        self.word_speed
    }

    pub fn set_word_speed(&mut self, word_speed: i64)
        ensures
            *final(self) == (State { word_speed, ..*old(self) }),
    {
        self.word_speed = word_speed;
    }

    pub fn get_char_speed(&self) -> (r: i64)
        ensures
            r == self.char_speed,
    {
        self.char_speed
    }

    pub fn set_char_speed(&mut self, char_speed: i64)
        ensures
            *final(self) == (State { char_speed, ..*old(self) }),
    {
        self.char_speed = char_speed;
    }

    pub fn get_records(&self) -> (r: &Vec<Record>)
        ensures
            r@ == self.records@,
    {
        &self.records
    }

    pub fn set_records(&mut self, records: Vec<Record>)
        ensures
            *final(self) == (State { records, ..*old(self) }),
    {
        self.records = records;
    }

    pub fn get_menu_index(&self) -> (r: i32)
        ensures
            r == self.menu_index,
    {
        self.menu_index
    }

    pub fn set_menu_index(&mut self, menu_index: i32)
        ensures
            *final(self) == (State { menu_index, ..*old(self) }),
    {
        self.menu_index = menu_index;
    }

    /// Zeroes the typing progress: cursor position and both counts.
    pub fn reset_stats(&mut self)
        ensures
            *final(self) == (State {
                char_count: 0,
                position: 0,
                word_count: 0,
                ..*old(self)
            }),
    {
        self.set_char_count(0);
        self.set_position(0);
        self.set_word_count(0);
    }

    pub fn get_reference_timestamp(&self) -> (r: i64)
        ensures
            r == self.reference_timestamp,
    {
        self.reference_timestamp
    }

    /// Sets the reference timestamp, taking the clock's current value when none
    /// is given.
    pub fn set_reference_timestamp(&mut self, timestamp: Option<i64>)
        ensures
            (match timestamp {
                Some(t) => final(self).reference_timestamp == t,
                None => true,
            }),
            *final(self) == (State {
                reference_timestamp: final(self).reference_timestamp,
                ..*old(self)
            }),
    {
        match timestamp {
            Some(t) => self.reference_timestamp = t,
            None => self.reference_timestamp = now_millis(),
        }
    }

    /// Whole seconds elapsed since the reference timestamp was set, by the
    /// clock; 0 while no reference timestamp is set.
    pub fn get_elapsed_time(&self) -> (r: i64)
        ensures
            self.reference_timestamp == 0 ==> r == 0,
    {
        if self.reference_timestamp == 0 {
            0
        } else {
            let now: i64 = now_millis();
            let diff: i128 = (now as i128) - (self.reference_timestamp as i128);
            let secs: i128 = diff / 1000;
            assert(i64::MIN as i128 <= secs <= i64::MAX as i128);
            secs as i64
        }
    }
}

impl Default for State {
    fn default() -> (r: Self)
        ensures
            r.is_initial(),
            r.inv(),
    {
        State::new()
    }
}

} // verus!
