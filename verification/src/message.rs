//! The message field of a response header: `key=value` pairs joined by `&`,
//! and the map they are read into.

use crate::text::{chars_of, same_text, slice_text};
use vstd::prelude::*;

verus! {

/// The position of the first `c` in `s`, or the length of `s` if it holds none.
pub open spec fn first_index_of(s: Seq<char>, c: char) -> int
    decreases s.len(),
{
    if s.len() == 0 || s[0] == c {
        0
    } else {
        1 + first_index_of(s.drop_first(), c)
    }
}

/// The pieces of `s` between occurrences of `sep`. There is always at least
/// one piece; two separators in a row, or one at either end, give an empty piece.
pub open spec fn split_on(s: Seq<char>, sep: char) -> Seq<Seq<char>>
    decreases s.len(),
{
    let cut = first_index_of(s, sep);
    if 0 <= cut < s.len() {
        seq![s.take(cut)] + split_on(s.skip(cut + 1), sep)
    } else {
        seq![s]
    }
}

/// The pair that one piece of a message stands for: what precedes its first
/// `=` is the key, everything after it the value. A piece without `=`
/// stands for nothing.
pub open spec fn pair_of(piece: Seq<char>) -> Option<(Seq<char>, Seq<char>)> {
    let cut = first_index_of(piece, '=');
    if 0 <= cut < piece.len() {
        Some((piece.take(cut), piece.skip(cut + 1)))
    } else {
        None
    }
}

/// `map` after the pairs of `pieces` have been entered in order, a later
/// pair replacing an earlier one with the same key.
pub open spec fn with_pieces(
    map: Map<Seq<char>, Seq<char>>,
    pieces: Seq<Seq<char>>,
) -> Map<Seq<char>, Seq<char>>
    decreases pieces.len(),
{
    if pieces.len() == 0 {
        map
    } else {
        let entered = match pair_of(pieces[0]) {
            Some((key, value)) => map.insert(key, value),
            None => map,
        };
        with_pieces(entered, pieces.drop_first())
    }
}

/// The map that a message field stands for.
pub open spec fn message_map(message: Seq<char>) -> Map<Seq<char>, Seq<char>> {
    with_pieces(Map::empty(), split_on(message, '&'))
}

/// The map that a row of entries stands for, a later entry replacing an
/// earlier one with the same key.
spec fn entries_map(entries: Seq<(String, String)>) -> Map<Seq<char>, Seq<char>>
    decreases entries.len(),
{
    if entries.len() == 0 {
        Map::empty()
    } else {
        entries_map(entries.drop_last()).insert(entries.last().0@, entries.last().1@)
    }
}

proof fn lemma_entries_lookup(entries: Seq<(String, String)>, i: int)
    requires
        0 <= i < entries.len(),
        forall|j: int| i < j < entries.len() ==> (#[trigger] entries[j]).0@ != entries[i].0@,
    ensures
        entries_map(entries).contains_key(entries[i].0@),
        entries_map(entries)[entries[i].0@] == entries[i].1@,
    decreases entries.len(),
{
    if i < entries.len() - 1 {
        let front = entries.drop_last();
        assert(front[i] == entries[i]);
        assert forall|j: int| i < j < front.len() implies (#[trigger] front[j]).0@
            != front[i].0@ by {
            assert(front[j] == entries[j]);
        }
        lemma_entries_lookup(front, i);
        assert(entries[entries.len() - 1].0@ != entries[i].0@);
    }
}

proof fn lemma_entries_absent(entries: Seq<(String, String)>, key: Seq<char>)
    requires
        forall|i: int| 0 <= i < entries.len() ==> (#[trigger] entries[i]).0@ != key,
    ensures
        !entries_map(entries).contains_key(key),
    decreases entries.len(),
{
    if entries.len() > 0 {
        let front = entries.drop_last();
        assert forall|i: int| 0 <= i < front.len() implies (#[trigger] front[i]).0@ != key by {
            assert(front[i] == entries[i]);
        }
        lemma_entries_absent(front, key);
        assert(entries[entries.len() - 1].0@ != key);
    }
}

proof fn lemma_entries_present(entries: Seq<(String, String)>, i: int)
    requires
        0 <= i < entries.len(),
    ensures
        entries_map(entries).contains_key(entries[i].0@),
    decreases entries.len(),
{
    if i < entries.len() - 1 {
        let front = entries.drop_last();
        assert(front[i] == entries[i]);
        lemma_entries_present(front, i);
    }
}

/// A map from keys to values, both text, as read from a message field.
///
/// Entries are kept in the order in which they were entered; the last entry
/// for a key is the one that counts.
#[derive(Debug, Clone)]
pub struct MessageMap {
    entries: Vec<(String, String)>,
}

impl View for MessageMap {
    type V = Map<Seq<char>, Seq<char>>;

    closed spec fn view(&self) -> Map<Seq<char>, Seq<char>> {
        entries_map(self.entries@)
    }
}

impl MessageMap {
    /// A map without entries.
    pub fn new() -> (map: MessageMap)
        ensures
            map@ == Map::<Seq<char>, Seq<char>>::empty(),
    {
        MessageMap { entries: Vec::new() }
    }

    /// The number of keys.
    pub fn len(&self) -> (count: usize)
        ensures
            self@.dom().finite(),
            count == self@.len(),
    {
        let n: usize = self.entries.len();
        let mut count: usize = 0;
        let mut i: usize = 0;
        while i < n
            invariant
                i <= n,
                n == self.entries@.len(),
                count <= i,
                entries_map(self.entries@.take(i as int)).dom().finite(),
                count == entries_map(self.entries@.take(i as int)).dom().len(),
            decreases n - i,
        {
            let seen = self.key_stands_before(i);
            proof {
                let before = self.entries@.take(i as int);
                let upto = self.entries@.take(i + 1);
                assert(upto.drop_last() =~= before);
                assert(upto.last() == self.entries@[i as int]);
            }
            if !seen {
                count = count + 1;
            }
            i = i + 1;
        }
        assert(self.entries@.take(n as int) =~= self.entries@);
        count
    }

    /// Whether the map has no key.
    pub fn is_empty(&self) -> (empty: bool)
        ensures
            empty == self@.is_empty(),
            empty == (self@.len() == 0),
    {
        let count = self.len();
        proof {
            if self.entries@.len() > 0 {
                lemma_entries_present(self.entries@, 0);
            }
            if count == 0 {
                self@.dom().lemma_len0_is_empty();
            }
        }
        count == 0
    }

    /// Whether the key of entry `at` is also the key of an earlier entry.
    fn key_stands_before(&self, at: usize) -> (found: bool)
        requires
            at < self.entries@.len(),
        ensures
            found == entries_map(self.entries@.take(at as int)).contains_key(
                self.entries@[at as int].0@,
            ),
    {
        let ghost before = self.entries@.take(at as int);
        let mut j: usize = 0;
        while j < at
            invariant
                j <= at,
                at < self.entries@.len(),
                before == self.entries@.take(at as int),
                forall|k: int|
                    0 <= k < j ==> (#[trigger] before[k]).0@ != self.entries@[at as int].0@,
            decreases at - j,
        {
            if same_text(self.entries[j].0.as_str(), self.entries[at].0.as_str()) {
                proof {
                    assert(before[j as int] == self.entries@[j as int]);
                    lemma_entries_present(before, j as int);
                }
                return true;
            }
            assert(before[j as int] == self.entries@[j as int]);
            j = j + 1;
        }
        proof {
            lemma_entries_absent(before, self.entries@[at as int].0@);
        }
        false
    }

    /// The value entered for `key`, if there is one.
    pub fn get(&self, key: &str) -> (found: Option<&String>)
        ensures
            match found {
                Some(value) => self@.contains_key(key@) && self@[key@] == value@,
                None => !self@.contains_key(key@),
            },
    {
        let n: usize = self.entries.len();
        let mut i: usize = n;
        while i > 0
            invariant
                i <= n,
                n == self.entries@.len(),
                forall|j: int| i <= j < n ==> (#[trigger] self.entries@[j]).0@ != key@,
            decreases i,
        {
            i = i - 1;
            if same_text(self.entries[i].0.as_str(), key) {
                proof {
                    lemma_entries_lookup(self.entries@, i as int);
                }
                return Some(&self.entries[i].1);
            }
        }
        proof {
            lemma_entries_absent(self.entries@, key@);
        }
        None
    }

    /// Enters `value` for `key`, in place of any value entered for it before.
    pub fn insert(&mut self, key: String, value: String)
        ensures
            final(self)@ == old(self)@.insert(key@, value@),
    {
        assert(self.entries@.push((key, value)).drop_last() =~= self.entries@);
        self.entries.push((key, value));
    }
}

/// Reads a message field into a map.
///
/// The field is cut at every `&`; each piece is cut at its first `=` into a
/// key and a value. A piece without `=` is passed over. Of two pieces with
/// the same key the later one counts.
pub fn parse_message_text(message: &str) -> (map: MessageMap)
    ensures
        map@ == message_map(message@),
{
    let chars = chars_of(message);
    let n: usize = chars.len();
    let mut map = MessageMap::new();
    let mut start: usize = 0;
    assert(message@.skip(0) =~= message@);
    loop
        invariant
            start <= n,
            n == chars@.len(),
            chars@ == message@,
            message_map(message@) == with_pieces(map@, split_on(message@.skip(start as int), '&')),
        decreases n - start,
    {
        let ghost rest = message@.skip(start as int);
        let end: usize = find_from(&chars, start, n, '&');
        let ghost piece = rest.take(end - start);
        assert(piece =~= message@.subrange(start as int, end as int));
        let cut: usize = find_from(&chars, start, end, '=');
        proof {
            lemma_first_index_in_prefix(rest, end - start, '=');
            assert(chars@.subrange(start as int, end as int) =~= piece);
        }
        if cut < end {
            let key = slice_text(message, start, cut);
            let value = slice_text(message, cut + 1, end);
            assert(key@ =~= piece.take(cut - start));
            assert(value@ =~= piece.skip(cut - start + 1));
            map.insert(key, value);
        }
        if end >= n {
            proof {
                assert(piece =~= rest);
                let pieces = split_on(rest, '&');
                assert(pieces =~= seq![rest]);
                assert(pieces.drop_first() =~= Seq::<Seq<char>>::empty());
                assert(with_pieces(map@, pieces.drop_first()) == map@);
            }
            return map;
        }
        proof {
            let pieces = split_on(rest, '&');
            let tail = split_on(rest.skip(end - start + 1), '&');
            assert(pieces =~= seq![piece] + tail);
            assert(pieces.drop_first() =~= tail);
            assert(rest.skip(end - start + 1) =~= message@.skip(end + 1));
        }
        start = end + 1;
    }
}

/// What `first_index_of` says of the characters before and at the position it gives.
pub proof fn lemma_first_index_of(s: Seq<char>, c: char)
    ensures
        0 <= first_index_of(s, c) <= s.len(),
        first_index_of(s, c) < s.len() ==> s[first_index_of(s, c)] == c,
        forall|i: int| 0 <= i < first_index_of(s, c) ==> s[i] != c,
    decreases s.len(),
{
    if s.len() == 0 || s[0] == c {
    } else {
        let rest = s.drop_first();
        lemma_first_index_of(rest, c);
        assert forall|i: int| 0 <= i < first_index_of(s, c) implies s[i] != c by {
            if i > 0 {
                assert(rest[i - 1] == s[i]);
            }
        }
    }
}

/// A position with `c` before which there is no `c` is the first position of `c`.
pub proof fn lemma_first_index_is(s: Seq<char>, c: char, k: int)
    requires
        0 <= k <= s.len(),
        k < s.len() ==> s[k] == c,
        forall|i: int| 0 <= i < k ==> s[i] != c,
    ensures
        first_index_of(s, c) == k,
{
    lemma_first_index_of(s, c);
    let f = first_index_of(s, c);
    if f < k {
        assert(s[f] == c);
    }
}

/// The first `c` of a prefix is the first `c` of the whole, where the prefix
/// ends before one or the whole has none later.
proof fn lemma_first_index_in_prefix(s: Seq<char>, k: int, c: char)
    requires
        0 <= k <= s.len(),
    ensures
        first_index_of(s.take(k), c) == if first_index_of(s, c) < k {
            first_index_of(s, c)
        } else {
            k
        },
{
    lemma_first_index_of(s, c);
    let f = first_index_of(s, c);
    let p = s.take(k);
    if f < k {
        assert(p[f] == s[f]);
        assert forall|i: int| 0 <= i < f implies p[i] != c by {
            assert(p[i] == s[i]);
        }
        lemma_first_index_is(p, c, f);
    } else {
        assert forall|i: int| 0 <= i < k implies p[i] != c by {
            assert(p[i] == s[i]);
        }
        lemma_first_index_is(p, c, k);
    }
}

/// The first position of `c` among `chars[from..to]`, or `to` if there is none.
fn find_from(chars: &Vec<char>, from: usize, to: usize, c: char) -> (at: usize)
    requires
        from <= to <= chars@.len(),
    ensures
        from <= at <= to,
        at - from == first_index_of(chars@.subrange(from as int, to as int), c),
{
    let ghost range = chars@.subrange(from as int, to as int);
    let mut at: usize = from;
    while at < to && chars[at] != c
        invariant
            from <= at <= to,
            to <= chars@.len(),
            range == chars@.subrange(from as int, to as int),
            forall|i: int| 0 <= i < at - from ==> range[i] != c,
        decreases to - at,
    {
        at = at + 1;
    }
    proof {
        lemma_first_index_is(range, c, at - from);
    }
    at
}

} // verus!
