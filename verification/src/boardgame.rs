//! The records of the `thing` API answer: board games with their names,
//! polls, links and rating statistics.
//!
//! A decimal number with a fraction (an average, a deviation, a weight) is held
//! by the 64-bit IEEE-754 bit pattern of the number; it is written to the
//! database unchanged.
use vstd::prelude::*;

verus! {
/// The whole answer of a `thing` request.
#[derive(Clone, Debug)]
pub struct ResponseItems {
    pub termsofuse: Option<String>,
    pub text: Option<String>,
    pub item: Vec<Item>,
}

/// One board game.
#[derive(Clone, Debug)]
pub struct Item {
    pub item_type: String,
    pub id: i64,
    pub text: Option<String>,
    pub thumbnail: String,
    pub image: String,
    pub name: Vec<Name>,
    pub description: String,
    pub yearpublished: Yearpublished,
    pub minplayers: Minplayers,
    pub maxplayers: Maxplayers,
    pub poll_summary: PollSummary,
    pub playingtime: Playingtime,
    pub minplaytime: Minplaytime,
    pub maxplaytime: Maxplaytime,
    pub minage: Minage,
    pub poll: Vec<Poll>,
    pub link: Vec<Link>,
    pub statistics: Statistics,
}

/// One name of a game (primary or alternate).
#[derive(Clone, Debug)]
pub struct Name {
    pub name_type: String,
    pub sortindex: String,
    pub value: String,
}

/// The `yearpublished` value of a game.
#[derive(Clone, Debug)]
pub struct Yearpublished {
    pub value: i64,
}

/// The `minplayers` value of a game.
#[derive(Clone, Debug)]
pub struct Minplayers {
    pub value: i64,
}

/// The `maxplayers` value of a game.
#[derive(Clone, Debug)]
pub struct Maxplayers {
    pub value: i64,
}

/// The summary of the polls of a game.
#[derive(Clone, Debug)]
pub struct PollSummary {
    pub name: String,
    pub title: String,
    pub text: Option<String>,
    pub result: Vec<PollSummaryResult>,
}

/// One line of a poll summary.
#[derive(Clone, Debug)]
pub struct PollSummaryResult {
    pub name: String,
    pub value: String,
}

/// The `playingtime` value of a game.
#[derive(Clone, Debug)]
pub struct Playingtime {
    pub value: i64,
}

/// The `minplaytime` value of a game.
#[derive(Clone, Debug)]
pub struct Minplaytime {
    pub value: i64,
}

/// The `maxplaytime` value of a game.
#[derive(Clone, Debug)]
pub struct Maxplaytime {
    pub value: i64,
}

/// The `minage` value of a game.
#[derive(Clone, Debug)]
pub struct Minage {
    pub value: i64,
}

/// One poll of a game.
#[derive(Clone, Debug)]
pub struct Poll {
    pub name: String,
    pub title: String,
    pub totalvotes: i64,
    pub text: Option<String>,
    pub results: Vec<Results>,
}

/// The answers of a poll for one player count.
#[derive(Clone, Debug)]
pub struct Results {
    pub numplayers: Option<String>,
    pub text: Option<String>,
    pub result: Vec<ResultsResult>,
}

/// One answer of a poll with its number of votes.
#[derive(Clone, Debug)]
pub struct ResultsResult {
    pub value: String,
    pub numvotes: i64,
    pub level: Option<String>,
}

/// A link from a game to a category, mechanic, designer, publisher or other entry.
#[derive(Clone, Debug)]
pub struct Link {
    pub link_type: String,
    pub id: i64,
    pub value: String,
    pub inbound: Option<String>,
}

/// The statistics block of a game.
#[derive(Clone, Debug)]
pub struct Statistics {
    pub page: i64,
    pub text: Option<String>,
    pub ratings: Ratings,
}

/// The ratings of a game.
#[derive(Clone, Debug)]
pub struct Ratings {
    pub text: Option<String>,
    pub usersrated: Usersrated,
    pub average: Average,
    pub bayesaverage: Bayesaverage,
    pub ranks: Ranks,
    pub stddev: Stddev,
    pub median: Median,
    pub owned: Owned,
    pub trading: Trading,
    pub wanting: Wanting,
    pub wishing: Wishing,
    pub numcomments: Numcomments,
    pub numweights: Numweights,
    pub averageweight: Averageweight,
}

/// The `usersrated` value of a game.
#[derive(Clone, Debug)]
pub struct Usersrated {
    pub value: i64,
}

/// The `average` value of a game.
#[derive(Clone, Debug)]
pub struct Average {
    /// The IEEE-754 bit pattern of the number.
    pub value_bits: u64,
}

/// The `bayesaverage` value of a game.
#[derive(Clone, Debug)]
pub struct Bayesaverage {
    /// The IEEE-754 bit pattern of the number.
    pub value_bits: u64,
}

/// The ranks of a game.
#[derive(Clone, Debug)]
pub struct Ranks {
    pub text: Option<String>,
    pub rank: Vec<Rank>,
}

/// One rank of a game; its value and bayes average are kept as text ("Not Ranked" or a number).
#[derive(Clone, Debug)]
pub struct Rank {
    pub rank_type: String,
    pub id: i64,
    pub name: String,
    pub friendlyname: String,
    pub value: String,
    pub bayesaverage: String,
}

/// The `stddev` value of a game.
#[derive(Clone, Debug)]
pub struct Stddev {
    /// The IEEE-754 bit pattern of the number.
    pub value_bits: u64,
}

/// The `median` value of a game.
#[derive(Clone, Debug)]
pub struct Median {
    pub value: i64,
}

/// The `owned` value of a game.
#[derive(Clone, Debug)]
pub struct Owned {
    pub value: i64,
}

/// The `trading` value of a game.
#[derive(Clone, Debug)]
pub struct Trading {
    pub value: i64,
}

/// The `wanting` value of a game.
#[derive(Clone, Debug)]
pub struct Wanting {
    pub value: i64,
}

/// The `wishing` value of a game.
#[derive(Clone, Debug)]
pub struct Wishing {
    pub value: i64,
}

/// The `numcomments` value of a game.
#[derive(Clone, Debug)]
pub struct Numcomments {
    pub value: i64,
}

/// The `numweights` value of a game.
#[derive(Clone, Debug)]
pub struct Numweights {
    pub value: i64,
}

/// The `averageweight` value of a game.
#[derive(Clone, Debug)]
pub struct Averageweight {
    /// The IEEE-754 bit pattern of the number.
    pub value_bits: u64,
}

} // verus!
