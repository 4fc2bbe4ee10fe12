//! The word oracle: it picks a secret word per player from a small bank
//! and evaluates guesses letter by letter, reporting which positions are
//! exactly right and which guessed letters occur elsewhere in the secret.

use vstd::prelude::*;

use crate::model;
use crate::registry::find_key;
use crate::registry::lemma_pairs_map_push;
use crate::registry::lemma_pairs_map_index;
use crate::registry::lemma_pairs_map_update;
use crate::registry::pairs_map;
use crate::registry::unique_keys;
use crate::word_io::Action;
use crate::word_io::Event;
use crate::word_io::WordError;

verus! {

/// The bank the oracle picks secrets from.
pub open spec fn bank_word(i: int) -> Seq<char> {
    if i == 0 {
        seq!['h', 'o', 'u', 's', 'e']
    } else if i == 1 {
        seq!['h', 'u', 'm', 'a', 'n']
    } else {
        seq!['h', 'o', 'r', 's', 'e']
    }
}

/// Number of words in the bank.
pub const BANK_SIZE: u8 = 3;

/// The bank word at `i`.
pub fn bank_word_at(i: u8) -> (w: &'static str)
    requires
        i < BANK_SIZE,
    ensures
        w@ == bank_word(i as int),
{
    if i == 0 {
        let w = "house";
        proof {
            reveal_strlit("house");
            assert(w@ =~= bank_word(0));
        }
        w
    } else if i == 1 {
        let w = "human";
        proof {
            reveal_strlit("human");
            assert(w@ =~= bank_word(1));
        }
        w
    } else {
        let w = "horse";
        proof {
            reveal_strlit("horse");
            assert(w@ =~= bank_word(2));
        }
        w
    }
}

/// Folds a byte of entropy from the runtime into a choice below `range`.
pub fn get_random_value(random: u8, range: u8) -> (r: u8)
    requires
        range > 0,
    ensures
        r == random % range,
        r < range,
{
    random % range
}

/// Positions below `n` where secret and guess carry the same letter.
pub open spec fn matched_prefix(key: Seq<char>, word: Seq<char>, n: int) -> Seq<u8>
    decreases n,
{
    if n <= 0 {
        Seq::empty()
    } else {
        matched_prefix(key, word, n - 1) + (if key[n - 1] == word[n - 1] {
            seq![(n - 1) as u8]
        } else {
            Seq::empty()
        })
    }
}

/// Positions below `n` where the guessed letter is wrong for its slot but
/// occurs somewhere in the secret.
pub open spec fn contained_prefix(key: Seq<char>, word: Seq<char>, n: int) -> Seq<u8>
    decreases n,
{
    if n <= 0 {
        Seq::empty()
    } else {
        contained_prefix(key, word, n - 1) + (if key[n - 1] != word[n - 1] && key.contains(
            word[n - 1],
        ) {
            seq![(n - 1) as u8]
        } else {
            Seq::empty()
        })
    }
}

/// How far the letter-by-letter comparison runs: to the shorter word.
pub open spec fn word_match_len(key: Seq<char>, word: Seq<char>) -> int {
    if key.len() <= word.len() {
        key.len() as int
    } else {
        word.len() as int
    }
}

/// All exactly-matching positions of a guess against a secret.
pub open spec fn matched_seq(key: Seq<char>, word: Seq<char>) -> Seq<u8> {
    matched_prefix(key, word, word_match_len(key, word))
}

/// All wrong-slot-but-present positions of a guess against a secret.
pub open spec fn contained_seq(key: Seq<char>, word: Seq<char>) -> Seq<u8> {
    contained_prefix(key, word, word_match_len(key, word))
}

/// Whether `c` occurs in `s`.
fn str_contains_char(s: &str, c: char) -> (r: bool)
    ensures
        r == s@.contains(c),
{
    let n = s.unicode_len();
    let mut i: usize = 0;
    while i < n
        invariant
            n == s@.len(),
            i <= n,
            forall|j: int| 0 <= j < i ==> s@[j] != c,
        decreases n - i,
    {
        if s.get_char(i) == c {
            proof {
                assert(s@[i as int] == c);
            }
            return true;
        }
        i += 1;
    }
    proof {
        if s@.contains(c) {
            let j = choose|j: int| 0 <= j < s@.len() && s@[j] == c;
            assert(false);
        }
    }
    false
}

/// Compares a guess against the secret, slot by slot.
pub fn compare_words(key: &str, word: &str) -> (r: (Vec<u8>, Vec<u8>))
    requires
        key@.len() <= 255,
        word@.len() <= 255,
    ensures
        r.0@ == matched_seq(key@, word@),
        r.1@ == contained_seq(key@, word@),
{
    let klen = key.unicode_len();
    let wlen = word.unicode_len();
    let n = if klen <= wlen {
        klen
    } else {
        wlen
    };
    let mut matched: Vec<u8> = Vec::new();
    let mut contained: Vec<u8> = Vec::new();
    let mut i: usize = 0;
    while i < n
        invariant
            klen == key@.len(),
            wlen == word@.len(),
            n == word_match_len(key@, word@),
            n <= 255,
            i <= n,
            matched@ == matched_prefix(key@, word@, i as int),
            contained@ == contained_prefix(key@, word@, i as int),
        decreases n - i,
    {
        let a = key.get_char(i);
        let b = word.get_char(i);
        if a == b {
            matched.push(i as u8);
            proof {
                assert(matched@ =~= matched_prefix(key@, word@, i + 1));
                assert(contained@ =~= contained_prefix(key@, word@, i + 1));
            }
        } else if str_contains_char(key, b) {
            contained.push(i as u8);
            proof {
                assert(matched@ =~= matched_prefix(key@, word@, i + 1));
                assert(contained@ =~= contained_prefix(key@, word@, i + 1));
            }
        } else {
            proof {
                assert(matched@ =~= matched_prefix(key@, word@, i + 1));
                assert(contained@ =~= contained_prefix(key@, word@, i + 1));
            }
        }
        i += 1;
    }
    (matched, contained)
}

/// What the oracle does with one request: picking a secret for a start,
/// evaluating a guess against the stored secret.
pub open spec fn oracle_step(
    games: Map<u64, Seq<char>>,
    random: u8,
    action: model::WordleAction,
) -> (Map<u64, Seq<char>>, Result<model::WordleEvent, WordError>) {
    match action {
        model::WordleAction::StartGame { user } => (
            games.insert(user, bank_word((random % BANK_SIZE) as int)),
            Ok(model::WordleEvent::GameStarted { user }),
        ),
        model::WordleAction::CheckWord { user, word } => {
            if word.len() != 5 {
                (games, Err(WordError::WrongLength))
            } else if !games.contains_key(user) {
                (games, Err(WordError::NoGame))
            } else {
                (
                    games,
                    Ok(
                        model::WordleEvent::WordChecked {
                            user,
                            correct_positions: matched_seq(games[user], word),
                            contained_in_word: contained_seq(games[user], word),
                        },
                    ),
                )
            }
        }
    }
}

/// The word oracle's state: one secret word per player with a game.
pub struct Wordle {
    pub games: Vec<(u64, String)>,
}

impl View for Wordle {
    type V = Map<u64, Seq<char>>;

    open spec fn view(&self) -> Map<u64, Seq<char>> {
        pairs_map(self.games@)
    }
}

impl Wordle {
    /// One entry per player, every stored secret a five-letter bank word.
    pub open spec fn wf(&self) -> bool {
        &&& unique_keys(self.games@)
        &&& forall|u: u64| #[trigger] self@.contains_key(u) ==> self@[u].len() == 5
    }

    /// An oracle with no games yet.
    pub fn new() -> (w: Wordle)
        ensures
            w.wf(),
            w@ == Map::<u64, Seq<char>>::empty(),
    {
        Wordle { games: Vec::new() }
    }

    /// Handles one request, as [`oracle_step`] describes; `random` is the
    /// byte of entropy the runtime supplies for picking a secret.
    pub fn handle(&mut self, random: u8, action: Action) -> (r: Result<Event, WordError>)
        requires
            old(self).wf(),
        ensures
            final(self).wf(),
            final(self)@ == oracle_step(old(self)@, random, action@).0,
            (match r {
                Ok(ev) => oracle_step(old(self)@, random, action@).1 == Ok::<
                    model::WordleEvent,
                    WordError,
                >(ev@),
                Err(e) => oracle_step(old(self)@, random, action@).1 == Err::<
                    model::WordleEvent,
                    WordError,
                >(e),
            }),
    {
        match action {
            Action::StartGame { user } => {
                let idx = get_random_value(random, BANK_SIZE);
                let word = bank_word_at(idx);
                let secret = String::from_str(word);
                let ghost games0 = self@;
                let found = find_key(&self.games, user);
                match found {
                    Some(i) => {
                        proof {
                            lemma_pairs_map_update(self.games@, i as int, (user, secret));
                        }
                        self.games[i] = (user, secret);
                    }
                    None => {
                        proof {
                            assert forall|j: int| 0 <= j < self.games@.len() implies (
                            #[trigger] self.games@[j]).0 != user by {
                                if self.games@[j].0 == user {
                                    lemma_pairs_map_index(self.games@, j);
                                }
                            }
                            lemma_pairs_map_push(self.games@, (user, secret));
                        }
                        self.games.push((user, secret));
                    }
                }
                proof {
                    assert forall|u: u64| #[trigger] self@.contains_key(u) implies self@[u].len()
                        == 5 by {
                        if u != user {
                            assert(games0.contains_key(u));
                        }
                    }
                }
                Ok(Event::GameStarted { user })
            }
            Action::CheckWord { user, word } => {
                if word.as_str().unicode_len() != 5 {
                    return Err(WordError::WrongLength);
                }
                let found = find_key(&self.games, user);
                match found {
                    None => Err(WordError::NoGame),
                    Some(i) => {
                        let secret = &self.games[i].1;
                        let (correct_positions, contained_in_word) = compare_words(
                            secret.as_str(),
                            word.as_str(),
                        );
                        Ok(Event::WordChecked { user, correct_positions, contained_in_word })
                    }
                }
            }
        }
    }
}

} // verus!
