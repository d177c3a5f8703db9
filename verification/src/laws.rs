//! Laws of the client: what holds of every exchange, whatever the player,
//! the level asked for, or the response.

use crate::client::ClientView;
use crate::codec::{framed, set_play_state_text, set_volume_text, volume_up_text};
use crate::exchange::{Expect, OutcomeView, ResponseView, StepView};
use crate::message::{
    first_index_of, lemma_first_index_is, message_map, pair_of, split_on, with_pieces,
};
use crate::policy::{capped_level, safe_step, toggled, MAX_VOLUME_LIMIT};
use crate::text::{
    all_digits, decimal, decimal_digits, digit_char, digit_value, digits_value, is_digit,
    is_white_space, leading_white, lemma_digits_value_push, numeral_value, same_folded,
    trailing_white, trimmed,
};
use crate::types::{MuteState, PlayState};
use vstd::prelude::*;

verus! {

// ---------------------------------------------------------------------------
// Numbers
// ---------------------------------------------------------------------------

/// The digits of a number are digits, and read back as the number.
pub proof fn digits_read_back(n: nat)
    ensures
        decimal_digits(n).len() >= 1,
        all_digits(decimal_digits(n)),
        digits_value(decimal_digits(n)) == n,
    decreases n,
{
    let last = digit_char((n % 10) as int);
    assert(is_digit(last) && digit_value(last) == n % 10);
    if n < 10 {
        let empty = Seq::<char>::empty();
        assert(all_digits(empty));
        lemma_digits_value_push(empty, last);
        assert(empty.push(last) =~= decimal_digits(n));
    } else {
        digits_read_back(n / 10);
        lemma_digits_value_push(decimal_digits(n / 10), last);
    }
}

/// The decimal text of a number reads back as the number: as a signed
/// numeral always, and as an unsigned one where the number is not negative.
pub proof fn decimal_reads_back(n: int)
    ensures
        numeral_value(decimal(n), true) == Some(n),
        n >= 0 ==> numeral_value(decimal(n), false) == Some(n),
{
    if n < 0 {
        let digits = decimal_digits((-n) as nat);
        digits_read_back((-n) as nat);
        assert(decimal(n).skip(1) =~= digits);
        assert(decimal(n)[0] == '-');
    } else {
        digits_read_back(n as nat);
        assert(is_digit(decimal(n)[0]));
    }
}

/// Two numbers with the same decimal text are the same number.
pub proof fn decimal_is_injective(a: int, b: int)
    requires
        decimal(a) == decimal(b),
    ensures
        a == b,
{
    decimal_reads_back(a);
    decimal_reads_back(b);
}

// ---------------------------------------------------------------------------
// White space
// ---------------------------------------------------------------------------

proof fn lemma_leading_white(s: Seq<char>)
    ensures
        leading_white(s) <= s.len(),
        forall|i: int| 0 <= i < leading_white(s) ==> is_white_space(#[trigger] s[i]),
        leading_white(s) < s.len() ==> !is_white_space(s[leading_white(s) as int]),
    decreases s.len(),
{
    if s.len() > 0 && is_white_space(s[0]) {
        let rest = s.drop_first();
        lemma_leading_white(rest);
        assert forall|i: int| 0 <= i < leading_white(s) implies is_white_space(
            #[trigger] s[i],
        ) by {
            if i > 0 {
                assert(s[i] == rest[i - 1]);
            }
        }
        if leading_white(s) < s.len() {
            assert(s[leading_white(s) as int] == rest[leading_white(rest) as int]);
        }
    }
}

proof fn lemma_trailing_white(s: Seq<char>)
    ensures
        trailing_white(s) <= s.len(),
        forall|i: int|
            s.len() - trailing_white(s) <= i < s.len() ==> is_white_space(#[trigger] s[i]),
        trailing_white(s) < s.len() ==> !is_white_space(s[s.len() - trailing_white(s) - 1]),
    decreases s.len(),
{
    if s.len() > 0 && is_white_space(s.last()) {
        let rest = s.drop_last();
        lemma_trailing_white(rest);
        assert forall|i: int| s.len() - trailing_white(s) <= i < s.len() implies is_white_space(
            #[trigger] s[i],
        ) by {
            if i < s.len() - 1 {
                assert(s[i] == rest[i]);
            }
        }
        if trailing_white(s) < s.len() {
            assert(s[s.len() - trailing_white(s) - 1] == rest[rest.len() - trailing_white(rest)
                - 1]);
        }
    }
}

/// Trimming takes away white space and nothing else, and all of it at both
/// ends: what is left is a stretch of the text with only white space
/// before it and after it, and it neither begins nor ends with white space.
pub proof fn trimmed_is_the_text_between_the_white_ends(s: Seq<char>)
    ensures
        leading_white(s) + trimmed(s).len() <= s.len(),
        trimmed(s) == s.subrange(
            leading_white(s) as int,
            (leading_white(s) + trimmed(s).len()) as int,
        ),
        forall|i: int| 0 <= i < leading_white(s) ==> is_white_space(#[trigger] s[i]),
        forall|i: int|
            leading_white(s) + trimmed(s).len() <= i < s.len() ==> is_white_space(#[trigger] s[i]),
        trimmed(s).len() > 0 ==> !is_white_space(trimmed(s)[0]) && !is_white_space(
            trimmed(s).last(),
        ),
{
    let a = leading_white(s) as int;
    lemma_leading_white(s);
    let rest = s.skip(a);
    lemma_trailing_white(rest);
    let b = rest.len() - trailing_white(rest);
    assert(trimmed(s) =~= s.subrange(a, a + b));
    assert forall|i: int| a + b <= i < s.len() implies is_white_space(#[trigger] s[i]) by {
        assert(s[i] == rest[i - a]);
    }
    if trimmed(s).len() > 0 {
        assert(trimmed(s)[0] == s[a]);
        assert(trimmed(s).last() == rest[b - 1]);
    }
}

// ---------------------------------------------------------------------------
// Words
// ---------------------------------------------------------------------------

/// The word for a play state names that state, and so does the word for a
/// mute state.
pub proof fn state_words_read_back(play: PlayState, mute: MuteState)
    ensures
        PlayState::named_by(play.wire()) == Some(play),
        MuteState::named_by(mute.wire()) == Some(mute),
{
    reveal_strlit("play");
    reveal_strlit("pause");
    reveal_strlit("stop");
    reveal_strlit("on");
    reveal_strlit("off");
    assert(same_folded("play"@, "play"@));
    assert(same_folded("pause"@, "pause"@));
    assert(same_folded("stop"@, "stop"@));
    assert(same_folded("on"@, "on"@));
    assert(same_folded("off"@, "off"@));
    assert(!same_folded("stop"@, "play"@)) by {
        assert("stop"@[0] == 's' && "play"@[0] == 'p');
    }
}

// ---------------------------------------------------------------------------
// Message fields
// ---------------------------------------------------------------------------

/// Whether `key` can stand as a key in a message field: it holds neither
/// `=` nor `&`.
pub open spec fn is_key(key: Seq<char>) -> bool {
    forall|i: int| 0 <= i < key.len() ==> #[trigger] key[i] != '=' && key[i] != '&'
}

/// Whether `value` can stand as a value in a message field: it holds no `&`.
pub open spec fn is_value(value: Seq<char>) -> bool {
    forall|i: int| 0 <= i < value.len() ==> #[trigger] value[i] != '&'
}

/// A key and a value as one piece of a message field.
pub open spec fn pair_text(pair: (Seq<char>, Seq<char>)) -> Seq<char> {
    pair.0 + seq!['='] + pair.1
}

/// The message field that holds `pairs` in order.
pub open spec fn joined(pairs: Seq<(Seq<char>, Seq<char>)>) -> Seq<char>
    decreases pairs.len(),
{
    if pairs.len() == 0 {
        Seq::empty()
    } else if pairs.len() == 1 {
        pair_text(pairs[0])
    } else {
        pair_text(pairs[0]) + seq!['&'] + joined(pairs.drop_first())
    }
}

/// `map` after `pairs` have been entered in order.
pub open spec fn entered(
    map: Map<Seq<char>, Seq<char>>,
    pairs: Seq<(Seq<char>, Seq<char>)>,
) -> Map<Seq<char>, Seq<char>>
    decreases pairs.len(),
{
    if pairs.len() == 0 {
        map
    } else {
        entered(map.insert(pairs[0].0, pairs[0].1), pairs.drop_first())
    }
}

proof fn lemma_pair_text(pair: (Seq<char>, Seq<char>))
    requires
        is_key(pair.0),
        is_value(pair.1),
    ensures
        first_index_of(pair_text(pair), '&') == pair_text(pair).len(),
        pair_of(pair_text(pair)) == Some(pair),
{
    let text = pair_text(pair);
    let cut = pair.0.len() as int;
    assert forall|i: int| 0 <= i < text.len() implies text[i] != '&' by {
        if i < cut {
            assert(text[i] == pair.0[i]);
        } else if i > cut {
            assert(text[i] == pair.1[i - cut - 1]);
        }
    }
    lemma_first_index_is(text, '&', text.len() as int);
    assert forall|i: int| 0 <= i < cut implies text[i] != '=' by {
        assert(text[i] == pair.0[i]);
    }
    assert(text[cut] == '=');
    lemma_first_index_is(text, '=', cut);
    assert(text.take(cut) =~= pair.0);
    assert(text.skip(cut + 1) =~= pair.1);
}

proof fn lemma_joined_pieces(map: Map<Seq<char>, Seq<char>>, pairs: Seq<(Seq<char>, Seq<char>)>)
    requires
        forall|i: int|
            0 <= i < pairs.len() ==> is_key((#[trigger] pairs[i]).0) && is_value(pairs[i].1),
    ensures
        with_pieces(map, split_on(joined(pairs), '&')) == entered(map, pairs),
    decreases pairs.len(),
{
    let whole = joined(pairs);
    if pairs.len() == 0 {
        let pieces = split_on(whole, '&');
        assert(pieces =~= seq![whole]);
        assert(pieces.drop_first() =~= Seq::<Seq<char>>::empty());
        assert(with_pieces(map, pieces.drop_first()) == map);
    } else {
        let first = pair_text(pairs[0]);
        let with_first = map.insert(pairs[0].0, pairs[0].1);
        lemma_pair_text(pairs[0]);
        if pairs.len() == 1 {
            let pieces = split_on(whole, '&');
            assert(pieces =~= seq![first]);
            assert(pieces.drop_first() =~= Seq::<Seq<char>>::empty());
            assert(with_pieces(with_first, pieces.drop_first()) == with_first);
            assert(entered(with_first, pairs.drop_first()) == with_first);
        } else {
            let rest = pairs.drop_first();
            let cut = first.len() as int;
            assert forall|i: int| 0 <= i < cut implies whole[i] != '&' by {
                assert(whole[i] == first[i]);
                crate::message::lemma_first_index_of(first, '&');
            }
            assert(whole[cut] == '&');
            lemma_first_index_is(whole, '&', cut);
            assert(whole.take(cut) =~= first);
            assert(whole.skip(cut + 1) =~= joined(rest));
            let pieces = split_on(whole, '&');
            assert(pieces =~= seq![first] + split_on(joined(rest), '&'));
            assert(pieces.drop_first() =~= split_on(joined(rest), '&'));
            assert forall|i: int| 0 <= i < rest.len() implies is_key((#[trigger] rest[i]).0)
                && is_value(rest[i].1) by {
                assert(rest[i] == pairs[i + 1]);
            }
            lemma_joined_pieces(with_first, rest);
        }
    }
}

/// Reading a message field gives back the pairs it was joined from: each
/// key with its value, and of two pairs with the same key the later one.
/// This holds of keys without `=` and `&` and of values without `&`.
pub proof fn message_round_trip(pairs: Seq<(Seq<char>, Seq<char>)>)
    requires
        forall|i: int|
            0 <= i < pairs.len() ==> is_key((#[trigger] pairs[i]).0) && is_value(pairs[i].1),
    ensures
        message_map(joined(pairs)) == entered(Map::empty(), pairs),
{
    lemma_joined_pieces(Map::empty(), pairs);
}

/// Whether `piece` is a pair with the key `key`.
pub open spec fn has_key(piece: Seq<char>, key: Seq<char>) -> bool {
    match pair_of(piece) {
        Some((found, _)) => found == key,
        None => false,
    }
}

/// The value of the pair that `piece` is, and no text if it is none.
pub open spec fn value_in(piece: Seq<char>) -> Seq<char> {
    match pair_of(piece) {
        Some((_, value)) => value,
        None => Seq::empty(),
    }
}

/// Whether piece `index` is the last of `pieces` with the key `key`.
pub open spec fn is_last_with_key(pieces: Seq<Seq<char>>, key: Seq<char>, index: int) -> bool {
    &&& 0 <= index < pieces.len()
    &&& has_key(pieces[index], key)
    &&& forall|later: int| index < later < pieces.len() ==> !has_key(#[trigger] pieces[later], key)
}

proof fn lemma_with_pieces(map: Map<Seq<char>, Seq<char>>, pieces: Seq<Seq<char>>, key: Seq<char>)
    ensures
        with_pieces(map, pieces).contains_key(key) <==> map.contains_key(key) || exists|i: int|
            0 <= i < pieces.len() && has_key(#[trigger] pieces[i], key),
        forall|i: int|
            is_last_with_key(pieces, key, i) ==> with_pieces(map, pieces)[key] == value_in(
                #[trigger] pieces[i],
            ),
        (forall|i: int| 0 <= i < pieces.len() ==> !has_key(#[trigger] pieces[i], key))
            ==> with_pieces(map, pieces).contains_key(key) == map.contains_key(key) && with_pieces(
            map,
            pieces,
        )[key] == map[key],
    decreases pieces.len(),
{
    if pieces.len() > 0 {
        let first = pieces[0];
        let rest = pieces.drop_first();
        let next = match pair_of(first) {
            Some((k, v)) => map.insert(k, v),
            None => map,
        };
        lemma_with_pieces(next, rest, key);
        assert forall|i: int| 0 <= i < rest.len() implies rest[i] == pieces[i + 1] by {}
        if exists|i: int| 0 <= i < pieces.len() && has_key(#[trigger] pieces[i], key) {
            let i = choose|i: int| 0 <= i < pieces.len() && has_key(#[trigger] pieces[i], key);
            if i > 0 {
                assert(has_key(rest[i - 1], key));
            }
        }
        if exists|i: int| 0 <= i < rest.len() && has_key(#[trigger] rest[i], key) {
            let i = choose|i: int| 0 <= i < rest.len() && has_key(#[trigger] rest[i], key);
            assert(has_key(pieces[i + 1], key));
        }
        assert forall|i: int| is_last_with_key(pieces, key, i) implies with_pieces(map, pieces)[key]
            == value_in(#[trigger] pieces[i]) by {
            if i > 0 {
                assert(rest[i - 1] == pieces[i]);
                assert forall|later: int| i - 1 < later < rest.len() implies !has_key(
                    #[trigger] rest[later],
                    key,
                ) by {
                    assert(rest[later] == pieces[later + 1]);
                }
                assert(is_last_with_key(rest, key, i - 1));
            } else {
                assert forall|j: int| 0 <= j < rest.len() implies !has_key(
                    #[trigger] rest[j],
                    key,
                ) by {
                    assert(rest[j] == pieces[j + 1]);
                }
            }
        }
        if forall|i: int| 0 <= i < pieces.len() ==> !has_key(#[trigger] pieces[i], key) {
            assert(!has_key(pieces[0], key));
            assert forall|j: int| 0 <= j < rest.len() implies !has_key(#[trigger] rest[j], key) by {
                assert(rest[j] == pieces[j + 1]);
            }
        }
    }
}

/// What a message field stands for, said of one key at a time: the key is
/// in the map exactly if some piece of the field is a pair with that key,
/// and its value is the value of the last such piece.
pub proof fn message_map_takes_the_last_pair(message: Seq<char>, key: Seq<char>)
    ensures
        message_map(message).contains_key(key) <==> exists|i: int|
            0 <= i < split_on(message, '&').len() && has_key(
                #[trigger] split_on(message, '&')[i],
                key,
            ),
        forall|i: int|
            is_last_with_key(split_on(message, '&'), key, i) ==> message_map(message)[key]
                == value_in(#[trigger] split_on(message, '&')[i]),
{
    lemma_with_pieces(Map::empty(), split_on(message, '&'), key);
}

proof fn lemma_with_pieces_count(map: Map<Seq<char>, Seq<char>>, pieces: Seq<Seq<char>>)
    requires
        map.dom().finite(),
    ensures
        with_pieces(map, pieces).dom().finite(),
        with_pieces(map, pieces).len() <= map.len() + pieces.len(),
    decreases pieces.len(),
{
    if pieces.len() > 0 {
        let next = match pair_of(pieces[0]) {
            Some((key, value)) => map.insert(key, value),
            None => map,
        };
        lemma_with_pieces_count(next, pieces.drop_first());
    }
}

/// A message field stands for finitely many keys, and for no more keys
/// than it has pieces.
pub proof fn message_map_has_no_more_keys_than_pieces(message: Seq<char>)
    ensures
        message_map(message).dom().finite(),
        message_map(message).len() <= split_on(message, '&').len(),
{
    lemma_with_pieces_count(Map::empty(), split_on(message, '&'));
}

/// A piece without `=` adds nothing to what a message field stands for,
/// wherever it stands between two other parts of the field.
pub proof fn malformed_piece_is_dropped(
    map: Map<Seq<char>, Seq<char>>,
    piece: Seq<char>,
    rest: Seq<Seq<char>>,
)
    requires
        forall|i: int| 0 <= i < piece.len() ==> piece[i] != '=',
    ensures
        pair_of(piece) is None,
        with_pieces(map, seq![piece] + rest) == with_pieces(map, rest),
{
    lemma_first_index_is(piece, '=', piece.len() as int);
    assert((seq![piece] + rest).drop_first() =~= rest);
}

// ---------------------------------------------------------------------------
// Volume
// ---------------------------------------------------------------------------

/// When a level above the ceiling is asked for, the command that goes on
/// the wire sets the ceiling, and differs from the one that would have set
/// the level asked for.
pub proof fn volume_set_sends_the_ceiling(client: ClientView, pid: i64, level: u8)
    requires
        level > MAX_VOLUME_LIMIT,
    ensures
        client.submitted(
            set_volume_text(pid, capped_level(level)),
            Some(Expect::Ack),
        ).transmits() == Some(framed(set_volume_text(pid, MAX_VOLUME_LIMIT))),
        set_volume_text(pid, MAX_VOLUME_LIMIT) != set_volume_text(pid, level),
{
    let head = "heos://player/set_volume?pid="@ + decimal(pid as int) + "&level="@;
    let capped = set_volume_text(pid, MAX_VOLUME_LIMIT);
    let raw = set_volume_text(pid, level);
    assert(capped.skip(head.len() as int) =~= decimal(MAX_VOLUME_LIMIT as int));
    assert(raw.skip(head.len() as int) =~= decimal(level as int));
    if capped == raw {
        decimal_is_injective(MAX_VOLUME_LIMIT as int, level as int);
    }
}

/// Whatever level is asked for, the level that goes on the wire is at most
/// the ceiling, and is the level asked for where that is at most the ceiling.
pub proof fn volume_set_is_capped(level: u8)
    ensures
        capped_level(level) <= MAX_VOLUME_LIMIT,
        level <= MAX_VOLUME_LIMIT ==> capped_level(level) == level,
{
}

/// When the player reports a volume at or above the ceiling, raising the
/// volume ends in success and puts nothing more on the wire.
pub proof fn volume_up_at_ceiling_sends_nothing(
    client: ClientView,
    pid: i64,
    step: u8,
    response: ResponseView,
    current: u8,
)
    requires
        response.heos.is_success(),
        response.heos.volume() == Ok::<u8, crate::exchange::FailureView>(current),
        current >= MAX_VOLUME_LIMIT,
    ensures
        client.interpreted(Expect::VolumeToRaise { pid, step }, response) == StepView::Done(
            Ok(OutcomeView::Done),
        ),
        client.interpreted(Expect::VolumeToRaise { pid, step }, response).transmits() is None,
{
}

/// When the player reports its volume, raising it either sends nothing,
/// which happens exactly at or above the ceiling, or sends a step that is
/// at least 1, at most 10, and at most what is left up to the ceiling.
pub proof fn volume_up_step_is_safe(
    client: ClientView,
    pid: i64,
    step: u8,
    response: ResponseView,
    current: u8,
)
    requires
        response.heos.is_success(),
        response.heos.volume() == Ok::<u8, crate::exchange::FailureView>(current),
    ensures
        match safe_step(current, step) {
            None => current >= MAX_VOLUME_LIMIT && client.interpreted(
                Expect::VolumeToRaise { pid, step },
                response,
            ).transmits() is None,
            Some(sent) => {
                &&& current < MAX_VOLUME_LIMIT
                &&& 1 <= sent <= 10
                &&& sent <= MAX_VOLUME_LIMIT - current
                &&& client.interpreted(Expect::VolumeToRaise { pid, step }, response).transmits()
                    == Some(framed(volume_up_text(pid, sent)))
            },
        },
{
}

/// Whatever the player answers when asked for its volume, what goes on the
/// wire next is nothing at all or a step that is safe for the volume it
/// reported: at least 1, at most 10, and not past the ceiling.
pub proof fn volume_up_sends_only_safe_steps(
    client: ClientView,
    pid: i64,
    step: u8,
    response: ResponseView,
)
    ensures
        match client.interpreted(Expect::VolumeToRaise { pid, step }, response).transmits() {
            None => true,
            Some(line) => {
                &&& response.heos.is_success()
                &&& response.heos.volume() is Ok
                &&& safe_step(response.heos.volume()->Ok_0, step) is Some
                &&& 1 <= safe_step(response.heos.volume()->Ok_0, step)->0 <= 10
                &&& response.heos.volume()->Ok_0 + safe_step(response.heos.volume()->Ok_0, step)->0
                    <= MAX_VOLUME_LIMIT
                &&& line == framed(
                    volume_up_text(pid, safe_step(response.heos.volume()->Ok_0, step)->0),
                )
            },
        },
{
}

/// An exchange sends a second command only to raise the volume or to
/// toggle the play state: for every other expectation the decoded response
/// ends the exchange.
pub proof fn one_command_exchanges_end_with_the_response(
    client: ClientView,
    expect: Expect,
    response: ResponseView,
)
    requires
        !(expect is VolumeToRaise),
        !(expect is PlayStateToToggle),
    ensures
        client.interpreted(expect, response) is Done,
        client.interpreted(expect, response).transmits() is None,
{
}

/// A response that does not report success never leads to another command,
/// and unless its payload is of the wrong kind it ends the exchange with
/// the error that the player reported.
pub proof fn failed_response_ends_the_exchange(
    client: ClientView,
    expect: Expect,
    response: ResponseView,
)
    requires
        !response.heos.is_success(),
    ensures
        client.interpreted(expect, response) is Done,
        client.interpreted(expect, response)->Done_0 is Err,
        response.payload is None ==> client.interpreted(expect, response) == StepView::Done(
            Err(crate::exchange::FailureView::Device(response.heos.error())),
        ),
{
}

// ---------------------------------------------------------------------------
// Connection
// ---------------------------------------------------------------------------

/// Closing the connection again changes nothing: a closed connection stays
/// closed and the configuration stays as it is.
pub proof fn disconnect_is_idempotent(client: ClientView)
    ensures
        !client.disconnected().connected,
        client.disconnected().disconnected() == client.disconnected(),
        !client.connected ==> client.disconnected() == client,
{
}

/// Every exchange begins by making sure of the connection: over an open one
/// the command is sent at once, and otherwise the connection is asked for
/// first and the same command follows when it is open.
pub proof fn exchange_begins_connected(
    client: ClientView,
    command: Seq<char>,
    expect: Option<Expect>,
)
    ensures
        client.submitted(command, expect).transmits() == Some(framed(command)),
        client.connected ==> client.submitted(command, expect) is Send,
        !client.connected ==> client.submitted(command, expect) is Connect,
        !client.connected ==> ClientView::connect_done(
            client.submitted(command, expect)->queued,
            Ok(()),
        ) == client.connected().submitted(command, expect),
{
}

// ---------------------------------------------------------------------------
// Play state
// ---------------------------------------------------------------------------

/// Toggling sends the command that sets the toggled state, and once the
/// player has accepted it the outcome is that state. A playing player is
/// paused with `state=pause`; a stopped or paused one is told to play with
/// `state=play`.
pub proof fn toggle_law(
    client: ClientView,
    pid: i64,
    response: ResponseView,
    current: PlayState,
    accepted: ResponseView,
)
    requires
        response.heos.is_success(),
        response.heos.play_state() == Ok::<PlayState, crate::exchange::FailureView>(current),
        accepted.heos.is_success(),
    ensures
        client.interpreted(Expect::PlayStateToToggle { pid }, response) == client.submitted(
            set_play_state_text(pid, toggled(current)),
            Some(Expect::AckOfToggle { state: toggled(current) }),
        ),
        client.interpreted(Expect::PlayStateToToggle { pid }, response).transmits() == Some(
            framed(set_play_state_text(pid, toggled(current))),
        ),
        client.interpreted(Expect::AckOfToggle { state: toggled(current) }, accepted)
            == StepView::Done(Ok(OutcomeView::PlayState(toggled(current)))),
        toggled(PlayState::Play) == PlayState::Pause,
        toggled(PlayState::Stop) == PlayState::Play,
        toggled(PlayState::Pause) == PlayState::Play,
        set_play_state_text(pid, PlayState::Pause) == "heos://player/set_play_state?pid="@
            + decimal(pid as int) + "&state="@ + "pause"@,
        set_play_state_text(pid, PlayState::Play) == "heos://player/set_play_state?pid="@
            + decimal(pid as int) + "&state="@ + "play"@,
{
}

} // verus!
