//! The shared game state: the hat, an ordered list of phrases that only grows.

use vstd::prelude::*;

verus! {

/// Phrases in their order, each as the characters that it is made of. This is
/// what contracts say of a hat, of a batch and of a snapshot.
pub type Phrases = Seq<Seq<char>>;

/// The state that every client is shown: the phrases in the hat, oldest first.
#[derive(Debug)]
pub struct GameState {
    pub hat: Vec<String>,
}

/// The body of a request that records phrases.
#[derive(Debug)]
pub struct RecordPhrasesMessage {
    pub phrases: Vec<String>,
}

impl View for GameState {
    type V = Phrases;

    /// The phrases in the hat, each as its characters.
    open spec fn view(&self) -> Phrases {
        self.hat.deep_view()
    }
}

impl View for RecordPhrasesMessage {
    type V = Phrases;

    /// The phrases of the batch, in the order in which they were written.
    open spec fn view(&self) -> Phrases {
        self.phrases.deep_view()
    }
}

/// The hat after the batch `phrases` went into `hat`: the batch follows what
/// was there, whole and in its own order.
pub open spec fn appended(hat: Phrases, phrases: Phrases) -> Phrases {
    hat + phrases
}

impl GameState {
    /// An empty hat.
    pub fn new() -> (state: GameState)
        ensures
            state@ == Phrases::empty(),
    {
        GameState { hat: Vec::new() }
    }

    /// Puts every phrase of the batch into the hat, behind what is there.
    /// Nothing is checked, dropped or merged: empty and repeated phrases go in
    /// as they are.
    pub fn append(&mut self, phrases: Vec<String>)
        ensures
            final(self)@ == appended(old(self)@, phrases.deep_view()),
    {
        let mut batch = phrases;
        self.hat.append(&mut batch);
    }
}

impl Clone for GameState {
    /// A copy that shares nothing with the state it was made from.
    fn clone(&self) -> (copy: GameState)
        ensures
            copy@ == self@,
    {
        let hat = self.hat.clone();
        assert forall|i: int| 0 <= i < hat.len() implies hat[i]@ == self.hat[i]@ by {
            assert(cloned::<String>(self.hat[i], hat[i]));
        }
        GameState { hat }
    }
}

/// Whether `batch` lies in `hat` in one piece that begins at `start`.
pub open spec fn lies_at(hat: Phrases, batch: Phrases, start: int) -> bool {
    &&& 0 <= start
    &&& start + batch.len() <= hat.len()
    &&& hat.subrange(start, start + batch.len()) == batch
}

/// Two batches that are recorded one after the other stand in the hat one
/// after the other, behind what was there: every phrase is kept, in the order
/// in which it came, and none is merged with another. In a hat that was empty
/// they are all there is.
pub proof fn lemma_successive_batches_concatenate(
    hat: Phrases,
    first: Phrases,
    second: Phrases,
)
    ensures
        appended(appended(hat, first), second) == hat + (first + second),
        appended(appended(Seq::empty(), first), second) == first + second,
        appended(appended(hat, first), second).len() == hat.len() + first.len() + second.len(),
{
}

/// Whichever of two batches is recorded first, each of them lies in the hat
/// in one piece afterwards, and the two pieces stand side by side behind what
/// was there: no phrase of one batch gets between the phrases of the other.
pub proof fn lemma_batches_never_interleave(
    hat: Phrases,
    one: Phrases,
    other: Phrases,
)
    ensures
        lies_at(appended(appended(hat, one), other), hat, 0),
        lies_at(appended(appended(hat, one), other), one, hat.len() as int),
        lies_at(appended(appended(hat, one), other), other, (hat.len() + one.len()) as int),
        lies_at(appended(appended(hat, other), one), hat, 0),
        lies_at(appended(appended(hat, other), one), other, hat.len() as int),
        lies_at(appended(appended(hat, other), one), one, (hat.len() + other.len()) as int),
{
    let h = hat.len() as int;
    let m = one.len() as int;
    let n = other.len() as int;
    let a = appended(appended(hat, one), other);
    assert(a.subrange(0, 0 + h) =~= hat);
    assert(a.subrange(h, h + m) =~= one);
    assert(a.subrange(h + m, h + m + n) =~= other);
    let b = appended(appended(hat, other), one);
    assert(b.subrange(0, 0 + h) =~= hat);
    assert(b.subrange(h, h + n) =~= other);
    assert(b.subrange(h + n, h + n + m) =~= one);
}

} // verus!
