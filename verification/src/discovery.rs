//! Choosing the player to control among the players that answered.

use crate::client::{ClientView, HeosClient};
use crate::text::chars_of;
use crate::types::Player;
use vstd::prelude::*;

verus! {

/// The lowercase form of a text, as Unicode defines it.
pub uninterp spec fn lowercase(text: Seq<char>) -> Seq<char>;

/// `str::to_lowercase` of the standard library gives the lowercase form of
/// the text, which depends on the text alone. Nothing is assumed about what
/// that form is.
pub assume_specification[ str::to_lowercase ](text: &str) -> (lower: String)
    ensures
        lower@ == lowercase(text@),
;

/// Whether `part` stands at position `at` of `whole`.
pub open spec fn occurs_at(part: Seq<char>, whole: Seq<char>, at: int) -> bool {
    0 <= at && at + part.len() <= whole.len() && whole.subrange(at, at + part.len()) == part
}

/// Whether `part` stands somewhere in `whole`, as a run of neighbouring characters.
pub open spec fn occurs_in(part: Seq<char>, whole: Seq<char>) -> bool {
    exists|at: int| occurs_at(part, whole, at)
}

/// Whether a player's name answers to the name asked for: the lowercase
/// form of the one holds the lowercase form of the other.
pub open spec fn answers_to(name: Seq<char>, wanted: Seq<char>) -> bool {
    occurs_in(lowercase(wanted), lowercase(name))
}

/// Whether player `index` is the one to choose: the first of all where no
/// name is asked for, and else the first whose name answers to the name.
pub open spec fn is_choice(players: Seq<Player>, wanted: Option<Seq<char>>, index: int) -> bool {
    match wanted {
        None => index == 0 && players.len() > 0,
        Some(wanted) => {
            &&& 0 <= index < players.len()
            &&& answers_to(players[index].name@, wanted)
            &&& forall|earlier: int|
                0 <= earlier < index ==> !answers_to((#[trigger] players[earlier]).name@, wanted)
        },
    }
}

/// Whether there is a player to choose.
pub open spec fn has_choice(players: Seq<Player>, wanted: Option<Seq<char>>) -> bool {
    match wanted {
        None => players.len() > 0,
        Some(wanted) => exists|index: int|
            0 <= index < players.len() && answers_to((#[trigger] players[index]).name@, wanted),
    }
}

/// What is said when no player answered at all.
pub open spec fn nobody_found() -> Seq<char> {
    "No HEOS players found on the network"@
}

/// What is said when no player answers to `wanted`.
pub open spec fn not_found(wanted: Seq<char>) -> Seq<char> {
    "Player '"@ + wanted + "' not found"@
}

fn stands_at(part: &Vec<char>, whole: &Vec<char>, at: usize) -> (found: bool)
    requires
        at + part@.len() <= whole@.len(),
    ensures
        found == occurs_at(part@, whole@, at as int),
{
    let n: usize = part.len();
    let m: usize = whole.len();
    let mut i: usize = 0;
    while i < n
        invariant
            i <= n,
            n == part@.len(),
            m == whole@.len(),
            at + n <= m,
            forall|j: int| 0 <= j < i ==> whole@[at + j] == part@[j],
        decreases n - i,
    {
        if whole[at + i] != part[i] {
            assert(whole@.subrange(at as int, at + n)[i as int] != part@[i as int]);
            return false;
        }
        i = i + 1;
    }
    assert(whole@.subrange(at as int, at + n) =~= part@);
    true
}

/// Whether `part` stands somewhere in `whole`.
pub fn contains_text(whole: &str, part: &str) -> (found: bool)
    ensures
        found == occurs_in(part@, whole@),
{
    let whole_chars = chars_of(whole);
    let part_chars = chars_of(part);
    if part_chars.len() > whole_chars.len() {
        return false;
    }
    let last: usize = whole_chars.len() - part_chars.len();
    let mut at: usize = 0;
    loop
        invariant
            at <= last,
            last + part_chars@.len() == whole_chars@.len(),
            whole_chars@ == whole@,
            part_chars@ == part@,
            forall|before: int| 0 <= before < at ==> !occurs_at(part@, whole@, before),
        decreases last - at,
    {
        if stands_at(&part_chars, &whole_chars, at) {
            return true;
        }
        if at == last {
            return false;
        }
        at = at + 1;
    }
}

/// Chooses the player to control: the first one, or with a name to go by
/// the first whose name holds it, case aside. It is an error if there is
/// no player, or none of that name.
pub fn select_player(players: Vec<Player>, wanted: Option<&str>) -> (chosen: Result<Player, String>)
    ensures
        match chosen {
            Ok(player) => exists|index: int|
                is_choice(players@, option_text(wanted), index) && player == players@[index],
            Err(message) => !has_choice(players@, option_text(wanted)) && message@ == (
            if players@.len() == 0 {
                nobody_found()
            } else {
                not_found(option_text(wanted)->0)
            }),
        },
{
    let ghost all = players@;
    let mut rest = players;
    if rest.len() == 0 {
        return Err("No HEOS players found on the network".to_owned());
    }
    match wanted {
        None => {
            let player = rest.remove(0);
            assert(is_choice(all, None, 0));
            Ok(player)
        },
        Some(name) => {
            let lower = name.to_lowercase();
            let n: usize = rest.len();
            let mut i: usize = 0;
            while i < n
                invariant
                    i <= n,
                    n == rest@.len(),
                    rest@ == all,
                    all == players@,
                    wanted == Some(name),
                    lower@ == lowercase(name@),
                    forall|earlier: int|
                        0 <= earlier < i ==> !answers_to((#[trigger] all[earlier]).name@, name@),
                decreases n - i,
            {
                let candidate = rest[i].name.as_str().to_lowercase();
                if contains_text(candidate.as_str(), lower.as_str()) {
                    let player = rest.remove(i);
                    assert(is_choice(all, Some(name@), i as int));
                    return Ok(player);
                }
                i = i + 1;
            }
            let mut message = "Player '".to_owned();
            message.append(name);
            message.append("' not found");
            Err(message)
        },
    }
}

/// The text of a name that may be missing.
pub open spec fn option_text(text: Option<&str>) -> Option<Seq<char>> {
    match text {
        Some(text) => Some(text@),
        None => None,
    }
}

impl HeosClient {
    /// Chooses the player to control among `players`, as [`select_player`]
    /// does, and makes it the player that commands go to by default. Where
    /// none can be chosen the client stays as it is.
    pub fn adopt_player(&mut self, players: Vec<Player>, wanted: Option<&str>) -> (chosen: Result<
        Player,
        String,
    >)
        ensures
            match chosen {
                Ok(player) => {
                    &&& exists|index: int|
                        is_choice(players@, option_text(wanted), index) && player == players@[index]
                    &&& final(self)@ == (ClientView { player_id: player.pid, ..old(self)@ })
                },
                Err(message) => {
                    &&& !has_choice(players@, option_text(wanted))
                    &&& message@ == (if players@.len() == 0 {
                        nobody_found()
                    } else {
                        not_found(option_text(wanted)->0)
                    })
                    &&& final(self)@ == old(self)@
                },
            },
    {
        match select_player(players, wanted) {
            Ok(player) => {
                self.set_player_id(player.pid);
                Ok(player)
            },
            Err(message) => Err(message),
        }
    }
}

} // verus!
