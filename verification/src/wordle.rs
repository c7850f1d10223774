//! The word oracle: it keeps one secret word per user and tells, for a guess,
//! which letters stand in their place and which occur elsewhere in the word.

use crate::ids::ActorId;
use crate::session_io::{WordleActionView, WordleEventView, WORD_LENGTH};
use crate::wordle_io::{Action, Event};
use gstd::collections::HashMap;
use vstd::prelude::*;
use vstd::string::*;

verus! {

/// Number of words that a secret is drawn from.
pub const BANK_SIZE: u8 = 1;

/// The words that a secret is drawn from.
pub open spec fn word_bank() -> Seq<Seq<char>> {
    seq!["house"@]
}

/// The word of the bank at `index`.
fn bank_word(index: u8) -> (word: &'static str)
    requires
        index < BANK_SIZE,
    ensures
        word@ == word_bank()[index as int],
        word@.len() == WORD_LENGTH,
{
    proof {
        reveal_strlit("house");
    }
    "house"
}

/// The position `i` as it is reported: its lowest eight bits.
pub open spec fn reported(i: int) -> u8 {
    (i % 256) as u8
}

/// The positions below `n` that are `wanted`, in rising order, as reported.
pub open spec fn positions_where(n: nat, wanted: spec_fn(int) -> bool) -> Seq<u8> {
    Seq::new(n, |i: int| i).filter(wanted).map_values(|i: int| reported(i))
}

/// Number of positions at which a guess is held against the secret: those
/// that both have.
pub open spec fn compared(secret: Seq<char>, guess: Seq<char>) -> nat {
    if secret.len() <= guess.len() {
        secret.len()
    } else {
        guess.len()
    }
}

/// The positions at which the guess has the secret's letter.
pub open spec fn correct_positions(secret: Seq<char>, guess: Seq<char>) -> Seq<u8> {
    positions_where(compared(secret, guess), |i: int| secret[i] == guess[i])
}

/// The positions at which the guess has another letter than the secret, but
/// one that occurs in the secret.
pub open spec fn contained_positions(secret: Seq<char>, guess: Seq<char>) -> Seq<u8> {
    positions_where(
        compared(secret, guess),
        |i: int| secret[i] != guess[i] && secret.contains(guess[i]),
    )
}

/// One more position is looked at: it is appended if it is wanted.
proof fn lemma_positions_step(n: nat, wanted: spec_fn(int) -> bool)
    ensures
        positions_where(n + 1, wanted) == (if wanted(n as int) {
            positions_where(n, wanted).push(reported(n as int))
        } else {
            positions_where(n, wanted)
        }),
{
    let longer = Seq::new(n + 1, |i: int| i);
    let shorter = Seq::new(n, |i: int| i);
    assert(longer.drop_last() =~= shorter);
    assert(longer.last() == n);
    reveal(Seq::filter);
    if wanted(n as int) {
        assert(longer.filter(wanted) == shorter.filter(wanted).push(n as int));
        assert(positions_where(n + 1, wanted) =~= positions_where(n, wanted).push(
            reported(n as int),
        ));
    } else {
        assert(longer.filter(wanted) == shorter.filter(wanted));
    }
}

/// A position is reported exactly if it is looked at and wanted. This holds
/// as long as the positions fit into a byte.
pub proof fn lemma_position_reported_iff_wanted(n: nat, wanted: spec_fn(int) -> bool, p: u8)
    requires
        n <= 256,
    ensures
        positions_where(n, wanted).contains(p) <==> p < n && wanted(p as int),
    decreases n,
{
    if n == 0 {
        assert(positions_where(0, wanted) =~= Seq::<u8>::empty()) by {
            reveal(Seq::filter);
        }
    } else {
        let before = (n - 1) as nat;
        lemma_position_reported_iff_wanted(before, wanted, p);
        lemma_positions_step(before, wanted);
        let shorter = positions_where(before, wanted);
        if wanted(before as int) {
            let longer = shorter.push(reported(before as int));
            if p == before {
                assert(longer[shorter.len() as int] == p);
            }
            if shorter.contains(p) {
                let at = choose|k: int| 0 <= k < shorter.len() && shorter[k] == p;
                assert(longer[at] == p);
            }
        }
    }
}

/// The positions are reported in rising order, each once. This holds as long
/// as the positions fit into a byte.
pub proof fn lemma_positions_rise(n: nat, wanted: spec_fn(int) -> bool)
    requires
        n <= 256,
    ensures
        forall|i: int, j: int|
            0 <= i < j < positions_where(n, wanted).len() ==> positions_where(n, wanted)[i]
                < positions_where(n, wanted)[j],
    decreases n,
{
    if n == 0 {
        assert(positions_where(0, wanted) =~= Seq::<u8>::empty()) by {
            reveal(Seq::filter);
        }
    } else {
        let before = (n - 1) as nat;
        lemma_positions_rise(before, wanted);
        lemma_positions_step(before, wanted);
        let shorter = positions_where(before, wanted);
        assert forall|i: int| 0 <= i < shorter.len() implies shorter[i] < before by {
            assert(shorter.contains(shorter[i]));
            lemma_position_reported_iff_wanted(before, wanted, shorter[i]);
        }
    }
}

/// What an evaluation reports of two words whose positions fit into a byte:
/// a position is correct exactly if the letters agree there, contained
/// exactly if they differ and the secret holds the guess's letter; no
/// position is both, and each list rises.
pub proof fn lemma_evaluation(secret: Seq<char>, guess: Seq<char>)
    requires
        compared(secret, guess) <= 256,
    ensures
        forall|p: u8| #[trigger]
            correct_positions(secret, guess).contains(p) <==> p < compared(secret, guess)
                && secret[p as int] == guess[p as int],
        forall|p: u8| #[trigger]
            contained_positions(secret, guess).contains(p) <==> p < compared(secret, guess)
                && secret[p as int] != guess[p as int] && secret.contains(guess[p as int]),
        forall|p: u8|
            !(#[trigger] correct_positions(secret, guess).contains(p) && contained_positions(
                secret,
                guess,
            ).contains(p)),
        forall|i: int, j: int|
            0 <= i < j < correct_positions(secret, guess).len() ==> correct_positions(
                secret,
                guess,
            )[i] < correct_positions(secret, guess)[j],
        forall|i: int, j: int|
            0 <= i < j < contained_positions(secret, guess).len() ==> contained_positions(
                secret,
                guess,
            )[i] < contained_positions(secret, guess)[j],
{
    let n = compared(secret, guess);
    let in_place = |i: int| secret[i] == guess[i];
    let elsewhere = |i: int| secret[i] != guess[i] && secret.contains(guess[i]);
    assert forall|p: u8| #[trigger]
        correct_positions(secret, guess).contains(p) <==> p < n && secret[p as int]
            == guess[p as int] by {
        lemma_position_reported_iff_wanted(n, in_place, p);
    }
    assert forall|p: u8| #[trigger]
        contained_positions(secret, guess).contains(p) <==> p < n && secret[p as int]
            != guess[p as int] && secret.contains(guess[p as int]) by {
        lemma_position_reported_iff_wanted(n, elsewhere, p);
    }
    lemma_positions_rise(n, in_place);
    lemma_positions_rise(n, elsewhere);
}

/// Whether `letter` occurs in `word`.
fn has_letter(word: &str, length: usize, letter: char) -> (r: bool)
    requires
        length == word@.len(),
    ensures
        r == word@.contains(letter),
{
    let mut i: usize = 0;
    while i < length
        invariant
            i <= length,
            length == word@.len(),
            forall|j: int| 0 <= j < i ==> word@[j] != letter,
        decreases length - i,
    {
        if word.get_char(i) == letter {
            return true;
        }
        i = i + 1;
    }
    false
}

/// Holds a guess against the secret, letter by letter as far as both reach.
/// Returns the positions at which the guess has the secret's letter, and
/// those at which it has another letter that the secret holds somewhere.
pub fn evaluate_guess(secret: &str, guess: &str) -> (found: (Vec<u8>, Vec<u8>))
    ensures
        found.0@ == correct_positions(secret@, guess@),
        found.1@ == contained_positions(secret@, guess@),
{
    let secret_length = secret.unicode_len();
    let guess_length = guess.unicode_len();
    let n = if secret_length <= guess_length {
        secret_length
    } else {
        guess_length
    };
    let ghost in_place = |i: int| secret@[i] == guess@[i];
    let ghost elsewhere = |i: int| secret@[i] != guess@[i] && secret@.contains(guess@[i]);
    let mut correct: Vec<u8> = Vec::new();
    let mut contained: Vec<u8> = Vec::new();
    let mut i: usize = 0;
    assert(positions_where(0, in_place) =~= Seq::<u8>::empty()) by {
        reveal(Seq::filter);
    }
    assert(positions_where(0, elsewhere) =~= Seq::<u8>::empty()) by {
        reveal(Seq::filter);
    }
    while i < n
        invariant
            i <= n,
            n == compared(secret@, guess@),
            secret_length == secret@.len(),
            in_place == |i: int| secret@[i] == guess@[i],
            elsewhere == |i: int| secret@[i] != guess@[i] && secret@.contains(guess@[i]),
            correct@ == positions_where(i as nat, in_place),
            contained@ == positions_where(i as nat, elsewhere),
        decreases n - i,
    {
        let a = secret.get_char(i);
        let b = guess.get_char(i);
        proof {
            lemma_positions_step(i as nat, in_place);
            lemma_positions_step(i as nat, elsewhere);
        }
        if a == b {
            correct.push((i % 256) as u8);
        } else if has_letter(secret, secret_length, b) {
            contained.push((i % 256) as u8);
        }
        i = i + 1;
    }
    (correct, contained)
}

/// The oracle's book of secrets, keyed by user. It holds a
/// `gstd::collections::HashMap`, which is hidden from the verifier.
#[verifier::external_body]
pub struct WordBook {
    map: HashMap<ActorId, String>,
}

/// What a book holds: the users that have a game, each with the secret word.
pub uninterp spec fn secret_words(book: WordBook) -> Map<ActorId, Seq<char>>;

/// `HashMap::new`: a map that holds nothing.
#[verifier::external_body]
fn book_new() -> (empty: WordBook)
    ensures
        forall|user: ActorId| !secret_words(empty).contains_key(user),
{
    WordBook { map: HashMap::new() }
}

/// `HashMap::insert`: `word` is stored under `user`, in place of a word that
/// was there; nothing else changes.
#[verifier::external_body]
fn book_insert(book: &mut WordBook, user: ActorId, word: String)
    ensures
        secret_words(*final(book)) == secret_words(*old(book)).insert(user, word@),
{
    book.map.insert(user, word);
}

/// `HashMap::get`: the word stored under `user`, if there is one. The map
/// finds a key by its hash and by `==`, which for `ActorId` compares the bytes.
#[verifier::external_body]
fn book_get<'a>(book: &'a WordBook, user: &ActorId) -> (found: Option<&'a String>)
    ensures
        found.is_some() == secret_words(*book).contains_key(*user),
        found matches Some(word) ==> word@ == secret_words(*book)[*user],
{
    book.map.get(user)
}

/// The value drawn from the random bytes `random`: below `range`.
pub fn get_random_value(random: [u8; 32], range: u8) -> (value: u8)
    requires
        range > 0,
    ensures
        value == random[0] % range,
{
    random[0] % range
}

/// Why the oracle turns a guess down.
#[derive(Clone, Copy, Debug, PartialEq, Eq, Structural)]
pub enum WordleError {
    /// The guess has not `WORD_LENGTH` letters.
    WrongLength,
    /// The user has no game.
    NoGame,
}

/// What the oracle does next with an action.
#[derive(Debug, PartialEq, Eq)]
pub enum Step {
    /// Draw random bytes for `subject`, then start the game of `user` with
    /// them.
    Draw { user: ActorId, subject: [u8; 32] },
    /// Answer with the event.
    Reply { event: Event },
    /// Turn the action down.
    Reject { error: WordleError },
}

/// What the oracle does next, as what the step holds.
pub enum StepView {
    Draw { user: ActorId, subject: Seq<u8> },
    Reply { event: WordleEventView },
    Reject { error: WordleError },
}

impl View for Step {
    type V = StepView;

    open spec fn view(&self) -> StepView {
        match *self {
            Step::Draw { user, subject } => StepView::Draw { user, subject: subject@ },
            Step::Reply { event } => StepView::Reply { event: event@ },
            Step::Reject { error } => StepView::Reject { error },
        }
    }
}

/// An answer to a guess, as what it holds.
pub open spec fn answer_view(answer: Result<Event, WordleError>) -> Result<
    WordleEventView,
    WordleError,
> {
    match answer {
        Ok(event) => Ok(event@),
        Err(error) => Err(error),
    }
}

/// The oracle's state.
pub struct Wordle {
    games: WordBook,
    seed: u8,
}

/// The oracle's state, as what it holds.
pub struct WordleView {
    /// The secret word of every user that has a game.
    pub games: Map<ActorId, Seq<char>>,
    /// Number of draws so far, modulo 256.
    pub seed: u8,
}

impl View for Wordle {
    type V = WordleView;

    closed spec fn view(&self) -> WordleView {
        WordleView { games: secret_words(self.games), seed: self.seed }
    }
}

impl WordleView {
    /// The book that holds no game.
    pub open spec fn no_games() -> Map<ActorId, Seq<char>> {
        Map::empty()
    }

    /// The subject of the next draw: the oracle's own identity, its first
    /// byte moved on by the number of draws so far.
    pub open spec fn subject(self, program_id: [u8; 32]) -> Seq<u8> {
        program_id@.update(0, ((program_id[0] + self.seed) % 256) as u8)
    }

    /// The secret that the random bytes `random` pick.
    pub open spec fn drawn_word(random: [u8; 32]) -> Seq<char> {
        word_bank()[(random[0] % BANK_SIZE) as int]
    }

    /// What becomes of an action: a start counts as a draw and asks for
    /// random bytes; a guess is answered or turned down, and changes nothing.
    pub open spec fn handle(self, action: WordleActionView, program_id: [u8; 32]) -> (
        WordleView,
        StepView,
    ) {
        match action {
            WordleActionView::StartGame { user } => (
                WordleView { seed: ((self.seed + 1) % 256) as u8, ..self },
                StepView::Draw { user, subject: self.subject(program_id) },
            ),
            WordleActionView::CheckWord { user, word } => (
                self,
                match self.check_word(user, word) {
                    Ok(event) => StepView::Reply { event },
                    Err(error) => StepView::Reject { error },
                },
            ),
        }
    }

    /// The answer to a guess: it is turned down if it has not `WORD_LENGTH`
    /// letters, or else if the user has no game.
    pub open spec fn check_word(self, user: ActorId, word: Seq<char>) -> Result<
        WordleEventView,
        WordleError,
    > {
        if word.len() != WORD_LENGTH {
            Err(WordleError::WrongLength)
        } else if !self.games.contains_key(user) {
            Err(WordleError::NoGame)
        } else {
            Ok(
                WordleEventView::WordChecked {
                    user,
                    correct_positions: correct_positions(self.games[user], word),
                    contained_in_word: contained_positions(self.games[user], word),
                },
            )
        }
    }
}

impl Wordle {
    /// An oracle with no game.
    pub fn new() -> (oracle: Wordle)
        ensures
            oracle@.games == WordleView::no_games(),
            oracle@.seed == 0,
    {
        let oracle = Wordle { games: book_new(), seed: 0 };
        assert(oracle@.games =~= WordleView::no_games());
        oracle
    }

    /// The subject for the next draw of random bytes. Every call counts as a
    /// draw.
    pub fn random_subject(&mut self, program_id: [u8; 32]) -> (subject: [u8; 32])
        ensures
            subject@ == old(self)@.subject(program_id),
            final(self)@.seed == (old(self)@.seed + 1) % 256,
            final(self)@.games == old(self)@.games,
    {
        let mut subject = program_id;
        subject[0] = program_id[0].wrapping_add(self.seed);
        self.seed = self.seed.wrapping_add(1);
        subject
    }

    /// Starts a game for `user` with the secret that `random` picks. A game
    /// that the user had is replaced.
    pub fn start_game(&mut self, user: ActorId, random: [u8; 32]) -> (event: Event)
        ensures
            event@ == (WordleEventView::GameStarted { user }),
            final(self)@.games == old(self)@.games.insert(user, WordleView::drawn_word(random)),
            final(self)@.seed == old(self)@.seed,
    {
        let index = get_random_value(random, BANK_SIZE);
        let word = bank_word(index);
        book_insert(&mut self.games, user, word.to_owned());
        Event::GameStarted { user }
    }

    /// Checks a guess of `user` against the secret.
    pub fn check_word(&self, user: ActorId, word: &str) -> (answer: Result<Event, WordleError>)
        ensures
            answer_view(answer) == self@.check_word(user, word@),
    {
        if word.unicode_len() != WORD_LENGTH {
            return Err(WordleError::WrongLength);
        }
        match book_get(&self.games, &user) {
            Some(secret) => {
                let (correct_position, contained_in_word) = evaluate_guess(secret.as_str(), word);
                Ok(Event::WordChecked { user, correct_position, contained_in_word })
            },
            None => Err(WordleError::NoGame),
        }
    }

    /// Takes in an action. A guess is answered at once. A start needs random
    /// bytes first: the step names their subject, and `start_game` goes on
    /// with them.
    pub fn handle(&mut self, action: Action, program_id: [u8; 32]) -> (step: Step)
        ensures
            final(self)@ == old(self)@.handle(action@, program_id).0,
            step@ == old(self)@.handle(action@, program_id).1,
    {
        match action {
            Action::StartGame { user } => {
                let subject = self.random_subject(program_id);
                Step::Draw { user, subject }
            },
            Action::CheckWord { user, word } => match self.check_word(user, word.as_str()) {
                Ok(event) => Step::Reply { event },
                Err(error) => Step::Reject { error },
            },
        }
    }
}

} // verus!
