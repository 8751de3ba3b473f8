//! The pages of the application, the actions that drive the state machine,
//! and the fixed session parameters.

use vstd::prelude::*;

verus! {

/// How many seconds one game session lasts.
pub const GAME_DURATION: u64 = 60;

/// How many seconds the pre-game countdown lasts.
pub const COUNTDOWN_DURATION: u64 = 3;

/// How many words are sampled from the corpus for one passage.
pub const PASSAGE_WORD_COUNT: usize = 100;

/// Name of the application's configuration directory.
pub const APP_PATH: &'static str = "typefast";

/// File name of the record database.
pub const DB_NAME: &'static str = "typefast.db";

/// Configuration directory used by the test suite.
pub const TEST_APP_PATH: &'static str = "__test__";

/// Database file name used by the test suite.
pub const TEST_DB_NAME: &'static str = "mock.db";

/// The two entries of the main menu, in display order.
pub fn menu_items() -> (r: Vec<&'static str>)
    ensures
        r@.len() == 2,
        r@[0]@ == "Start"@,
        r@[1]@ == "Records"@,
{
    let mut items: Vec<&'static str> = Vec::new();
    items.push("Start");
    items.push("Records");
    items
}

/// A small fixed word list, kept for tests that need a known corpus.
pub fn test_words() -> (r: Vec<&'static str>)
    ensures
        r@.len() == 21,
{
    let mut words: Vec<&'static str> = Vec::new();
    words.push("plant");
    words.push("planta");
    words.push("plantable");
    words.push("plantad");
    words.push("Plantae");
    words.push("some");
    words.push("words");
    words.push("abc");
    words.push("hmmm");
    words.push("why");
    words.push("do");
    words.push("do");
    words.push("do");
    words.push("do");
    words.push("do");
    words.push("do");
    words.push("do");
    words.push("do");
    words.push("even");
    words.push("type");
    words.push("more");
    words
}

/// The page the user is currently on. Exactly one page is current at any time.
#[derive(Debug, PartialEq, Eq, Structural, Copy, Clone)]
pub enum Page {
    Game,
    Menu,
    CountDown,
    Records,
    GameResult,
}

impl Default for Page {
    /// The application starts on the menu.
    fn default() -> (r: Self)
        ensures
            r == Page::Menu,
    {
        Page::Menu
    }
}

impl Page {
    /// The page's display name.
    pub fn name(&self) -> (r: &'static str)
        ensures
            *self == Page::Game ==> r@ == "Game"@,
            *self == Page::Menu ==> r@ == "Menu"@,
            *self == Page::CountDown ==> r@ == "CountDown"@,
            *self == Page::Records ==> r@ == "Records"@,
            *self == Page::GameResult ==> r@ == "GameResult"@,
    {
        match self {
            Page::Game => "Game",
            Page::Menu => "Menu",
            Page::CountDown => "CountDown",
            Page::Records => "Records",
            Page::GameResult => "GameResult",
        }
    }
}

/// A command produced by input translation or synthesized by the tick loop.
/// Actions are the only way the session state is mutated.
#[derive(Debug, PartialEq, Eq, Structural, Copy, Clone)]
pub enum Action {
    Init,
    Empty,
    Exit,
    CharInput(char),
    ChangePage(Page),
    GetRecords,
    PostRecord,
    MenuAction,
}

} // verus!
