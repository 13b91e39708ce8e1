//! Reading the answer of the console's `list` command.

use vstd::prelude::*;
use vstd::string::StrSliceExecFns;

use crate::text::{
    characters, complain_of_number, decimal, decimal_reads_back, find, find_from, in_context,
    is_digit, number_complaint, numbers_are_read_as_written, numeral, parse_u32, read_u32,
    split_once, splitting_loses_nothing, stands_at, texts_split_at_separators, with_context,
};

verus! {

/// Why an answer to `list` says nothing about the number of players. What is no number is
/// complained of in the words of [`number_complaint`].
#[derive(Clone, Debug, PartialEq, Eq)]
pub enum PlayerCountError {
    MissingPrefix,
    UnknownFormat,
    InvalidMaximum(String),
    CountOutOfRange(String),
}

/// A [`PlayerCountError`] with its texts as sequences of characters.
pub enum PlayerCountErrorView {
    MissingPrefix,
    UnknownFormat,
    InvalidMaximum(Seq<char>),
    CountOutOfRange(Seq<char>),
}

impl View for PlayerCountError {
    type V = PlayerCountErrorView;

    open spec fn view(&self) -> PlayerCountErrorView {
        match *self {
            PlayerCountError::MissingPrefix => PlayerCountErrorView::MissingPrefix,
            PlayerCountError::UnknownFormat => PlayerCountErrorView::UnknownFormat,
            PlayerCountError::InvalidMaximum(cause) => PlayerCountErrorView::InvalidMaximum(
                cause@,
            ),
            PlayerCountError::CountOutOfRange(cause) => PlayerCountErrorView::CountOutOfRange(
                cause@,
            ),
        }
    }
}

impl PlayerCountError {
    /// The text of the error.
    pub fn message(&self) -> (text: String)
        ensures
            text@ == match self@ {
                PlayerCountErrorView::MissingPrefix => {
                    "RCON response does not start with the player-count prefix"@
                },
                PlayerCountErrorView::UnknownFormat => {
                    "RCON player count has an unknown format"@
                },
                PlayerCountErrorView::InvalidMaximum(cause) => in_context(
                    "RCON maximum player count is invalid"@,
                    cause,
                ),
                PlayerCountErrorView::CountOutOfRange(cause) => in_context(
                    "RCON player count is outside the supported range"@,
                    cause,
                ),
            },
    {
        match self {
            PlayerCountError::MissingPrefix => {
                "RCON response does not start with the player-count prefix".to_owned()
            },
            PlayerCountError::UnknownFormat => {
                "RCON player count has an unknown format".to_owned()
            },
            PlayerCountError::InvalidMaximum(cause) => with_context(
                "RCON maximum player count is invalid",
                cause.as_str(),
            ),
            PlayerCountError::CountOutOfRange(cause) => with_context(
                "RCON player count is outside the supported range",
                cause.as_str(),
            ),
        }
    }
}

/// The two numbers of an answer of the form
/// `There are <players> of a max of <limit> players online:`, still as texts.
pub open spec fn player_fields(response: Seq<char>) -> Result<
    (Seq<char>, Seq<char>),
    PlayerCountErrorView,
> {
    if !stands_at(response, "There are "@, 0) {
        Err(PlayerCountErrorView::MissingPrefix)
    } else {
        match split_once(response.skip("There are "@.len() as int), " of a max of "@) {
            None => Err(PlayerCountErrorView::UnknownFormat),
            Some((players, rest)) => match split_once(rest, " players online:"@) {
                None => Err(PlayerCountErrorView::UnknownFormat),
                Some((limit, _)) => Ok((players, limit)),
            },
        }
    }
}

/// The number of players that an answer to `list` tells.
pub open spec fn player_count(response: Seq<char>) -> Result<u32, PlayerCountErrorView> {
    match player_fields(response) {
        Err(error) => Err(error),
        Ok((players, limit)) => if read_u32(limit) is None {
            Err(PlayerCountErrorView::InvalidMaximum(number_complaint(limit)))
        } else {
            match read_u32(players) {
                Some(count) => Ok(count),
                None => Err(PlayerCountErrorView::CountOutOfRange(number_complaint(players))),
            }
        },
    }
}

/// Searching a text from a position on is searching what stands after it.
proof fn lemma_find_shifted(text: Seq<char>, needle: Seq<char>, shift: int, from: int)
    requires
        0 <= shift <= text.len(),
        0 <= from,
    ensures
        find_from(text, needle, shift + from) == (match find_from(text.skip(shift), needle, from) {
            Some(at) => Some(shift + at),
            None => None,
        }),
    decreases text.len() - shift - from + 1,
{
    let rest = text.skip(shift);
    if from + needle.len() <= rest.len() {
        assert(rest.subrange(from, from + needle.len()) =~= text.subrange(
            shift + from,
            shift + from + needle.len(),
        ));
        if !stands_at(rest, needle, from) {
            lemma_find_shifted(text, needle, shift, from + 1);
        }
    }
}

/// Reads the number of players from an answer to `list`.
pub fn parse_player_count(response: &str) -> (count: Result<u32, PlayerCountError>)
    ensures
        match player_count(response@) {
            Ok(number) => count == Ok::<u32, PlayerCountError>(number),
            Err(error) => count matches Err(found) && found@ == error,
        },
{
    let text = characters(response);
    let prefix = characters("There are ");
    let middle = characters(" of a max of ");
    let suffix = characters(" players online:");
    proof {
        reveal_strlit("There are ");
    }
    match find(&text, &prefix, 0) {
        Some(0) => {},
        _ => {
            return Err(PlayerCountError::MissingPrefix);
        },
    }
    let start: usize = prefix.len();
    proof {
        lemma_find_shifted(text@, middle@, start as int, 0);
    }
    let at = match find(&text, &middle, start) {
        Some(at) => at,
        None => {
            return Err(PlayerCountError::UnknownFormat);
        },
    };
    let limit_start: usize = at + middle.len();
    let ghost rest = text@.skip(start as int);
    proof {
        lemma_find_shifted(text@, suffix@, limit_start as int, 0);
        assert(rest.take(at - start) =~= text@.subrange(start as int, at as int));
        assert(rest.skip(limit_start - start) =~= text@.skip(limit_start as int));
    }
    let end = match find(&text, &suffix, limit_start) {
        Some(end) => end,
        None => {
            return Err(PlayerCountError::UnknownFormat);
        },
    };
    assert(text@.skip(limit_start as int).take(end - limit_start) =~= text@.subrange(
        limit_start as int,
        end as int,
    ));
    match parse_u32(&text, limit_start, end) {
        Some(_) => {},
        None => {
            let limit = response.substring_char(limit_start, end);
            return Err(PlayerCountError::InvalidMaximum(complain_of_number(limit)));
        },
    }
    match parse_u32(&text, start, at) {
        Some(count) => Ok(count),
        None => {
            let players = response.substring_char(start, at);
            Err(PlayerCountError::CountOutOfRange(complain_of_number(players)))
        },
    }
}

/// The number of players, if the answer tells one. An answer that cannot be read is never
/// taken for zero players: stopping a server in use is worse than leaving one running.
pub fn observed_player_count(response: &str) -> (count: Option<u32>)
    ensures
        count == (match player_count(response@) {
            Ok(count) => Some(count),
            Err(_) => None,
        }),
{
    match parse_player_count(response) {
        Ok(count) => Some(count),
        Err(_) => None,
    }
}

/// An answer that tells a number of players is read as telling that number, whatever the limit is
/// and whoever is listed behind.
pub proof fn told_counts_are_read(players: u32, limit: u32, tail: Seq<char>)
    ensures
        player_count(
            "There are "@ + decimal(players as nat) + " of a max of "@ + decimal(limit as nat)
                + " players online:"@ + tail,
        ) == Ok::<u32, PlayerCountErrorView>(players),
{
    reveal_strlit("");
    reveal_strlit("There are ");
    reveal_strlit(" of a max of ");
    reveal_strlit(" players online:");
    let count = decimal(players as nat);
    let most = decimal(limit as nat);
    let behind = most + " players online:"@ + tail;
    let response = "There are "@ + count + " of a max of "@ + most + " players online:"@ + tail;
    decimal_reads_back(players as nat);
    decimal_reads_back(limit as nat);
    assert(response.subrange(0, "There are "@.len() as int) =~= "There are "@);
    assert(response.skip("There are "@.len() as int) =~= count + " of a max of "@ + behind);
    assert forall|i: int| 0 <= i < count.len() implies #[trigger] count[i] != ' ' by {
        assert(is_digit(count[i]));
    }
    assert forall|i: int| 0 <= i < most.len() implies #[trigger] most[i] != ' ' by {
        assert(is_digit(most[i]));
    }
    texts_split_at_separators(count, " of a max of "@, behind);
    texts_split_at_separators(most, " players online:"@, tail);
    let none = Seq::<char>::empty();
    assert((""@ + none) + count =~= count);
    assert((""@ + none) + most =~= most);
    assert(numeral(count, players as nat));
    assert(numeral(most, limit as nat));
    numbers_are_read_as_written(count, players);
    numbers_are_read_as_written(most, limit);
}

/// A number of players is read only from an answer that tells it: between the words of the
/// answer stands a numeral for just that number.
pub proof fn read_counts_were_told(response: Seq<char>)
    ensures
        player_count(response) matches Ok(count) ==> exists|
            players: Seq<char>,
            limit: Seq<char>,
            tail: Seq<char>,
        |
            #![trigger "There are "@ + players + " of a max of "@ + limit + " players online:"@ + tail]
            response == "There are "@ + players + " of a max of "@ + limit + " players online:"@
                + tail && numeral(players, count as nat),
{
    if let Ok(count) = player_count(response) {
        let (players, limit) = player_fields(response)->Ok_0;
        let inner = response.skip("There are "@.len() as int);
        splitting_loses_nothing(inner, " of a max of "@);
        let rest = (split_once(inner, " of a max of "@)->0).1;
        splitting_loses_nothing(rest, " players online:"@);
        let tail = (split_once(rest, " players online:"@)->0).1;
        numbers_are_read_as_written(players, count);
        assert(response.subrange(0, "There are "@.len() as int) == "There are "@);
        assert(response =~= "There are "@ + inner);
        assert(response =~= "There are "@ + players + " of a max of "@ + limit
            + " players online:"@ + tail);
    }
}

/// An answer that tells at least one player is never read as telling none.
pub proof fn told_players_are_not_overlooked(players: u32, limit: u32, tail: Seq<char>)
    requires
        players > 0,
    ensures
        player_count(
            "There are "@ + decimal(players as nat) + " of a max of "@ + decimal(limit as nat)
                + " players online:"@ + tail,
        ) != Ok::<u32, PlayerCountErrorView>(0),
{
    told_counts_are_read(players, limit, tail);
}

/// A response without the words in front tells that they are missing; one without the words behind
/// or between the numbers is of an unknown format.
pub proof fn unknown_responses_are_told_apart(response: Seq<char>)
    ensures
        player_count(response) == Err::<u32, PlayerCountErrorView>(
            PlayerCountErrorView::MissingPrefix,
        ) <==> !"There are "@.is_prefix_of(response),
        "There are "@.is_prefix_of(response) && split_once(
            response.skip("There are "@.len() as int),
            " of a max of "@,
        ) is None ==> player_count(response) == Err::<u32, PlayerCountErrorView>(
            PlayerCountErrorView::UnknownFormat,
        ),
{
    let prefix = "There are "@;
    if prefix.is_prefix_of(response) {
        assert(response.subrange(0, prefix.len() as int) =~= prefix);
    }
    if stands_at(response, prefix, 0) {
        assert(prefix =~= response.subrange(0, prefix.len() as int));
    }
}

} // verus!
