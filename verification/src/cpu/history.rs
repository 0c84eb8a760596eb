//! The instruction words that the processor retired last, for a debugger
//! to show.

use circular_buffer::CircularBuffer;
use vstd::prelude::*;

verus! {

/// How many words the history keeps.
pub const HISTORY_SIZE: usize = 10;

#[verifier::external_type_specification]
#[verifier::external_body]
#[verifier::reject_recursive_types(T)]
pub struct ExCircularBuffer<const N: usize, T>(CircularBuffer<N, T>);

/// The words that a buffer holds, from front to back.
pub uninterp spec fn buffer_words(buffer: CircularBuffer<10, u32>) -> Seq<u32>;

/// `CircularBuffer::new`: a buffer that holds nothing.
#[verifier::external_body]
fn buffer_new() -> (buffer: CircularBuffer<10, u32>)
    ensures
        buffer_words(buffer) == Seq::<u32>::empty(),
{
    CircularBuffer::new()
}

/// `CircularBuffer::len`: the number of words held.
#[verifier::external_body]
fn buffer_len(buffer: &CircularBuffer<10, u32>) -> (len: usize)
    ensures
        len == buffer_words(*buffer).len(),
{
    buffer.len()
}

/// `CircularBuffer::push_back`: the word goes to the back. A buffer that
/// holds fewer words than its capacity of ten keeps what it held; a full
/// one gives up the word at its front, which is returned.
#[verifier::external_body]
fn buffer_push_back(buffer: &mut CircularBuffer<10, u32>, word: u32) -> (replaced: Option<u32>)
    ensures
        buffer_words(*old(buffer)).len() < 10 ==> replaced is None && buffer_words(*final(buffer))
            == buffer_words(*old(buffer)).push(word),
        buffer_words(*old(buffer)).len() >= 10 ==> replaced == Some(buffer_words(*old(buffer))[0])
            && buffer_words(*final(buffer)) == buffer_words(*old(buffer)).skip(1).push(word),
    no_unwind
{
    buffer.push_back(word)
}

/// `CircularBuffer::to_vec`: the words held, from front to back.
#[verifier::external_body]
fn buffer_to_vec(buffer: &CircularBuffer<10, u32>) -> (words: Vec<u32>)
    ensures
        words@ == buffer_words(*buffer),
{
    buffer.to_vec()
}

/// What a history of `words` holds after `word` was recorded: the last
/// ten, oldest first.
pub open spec fn recorded(words: Seq<u32>, word: u32) -> Seq<u32> {
    if words.len() < HISTORY_SIZE {
        words.push(word)
    } else {
        words.skip(words.len() - HISTORY_SIZE + 1).push(word)
    }
}

/// The last `HISTORY_SIZE` of `words`, or all of them where they are
/// fewer.
pub open spec fn last_words(words: Seq<u32>) -> Seq<u32> {
    if words.len() <= HISTORY_SIZE {
        words
    } else {
        words.skip(words.len() - HISTORY_SIZE)
    }
}

/// The last instruction words, oldest first.
pub struct OpcodeHistory {
    buffer: CircularBuffer<10, u32>,
}

impl View for OpcodeHistory {
    type V = Seq<u32>;

    closed spec fn view(&self) -> Seq<u32> {
        buffer_words(self.buffer)
    }
}

impl OpcodeHistory {
    /// The history never holds more than `HISTORY_SIZE` words.
    #[verifier::type_invariant]
    pub closed spec fn wf(&self) -> bool {
        buffer_words(self.buffer).len() <= HISTORY_SIZE
    }

    pub fn new() -> (history: OpcodeHistory)
        ensures
            history@ == Seq::<u32>::empty(),
    {
        OpcodeHistory { buffer: buffer_new() }
    }

    pub fn len(&self) -> (len: usize)
        ensures
            len == self@.len(),
            len <= HISTORY_SIZE,
    {
        proof {
            use_type_invariant(self);
        }
        buffer_len(&self.buffer)
    }

    /// Records a retired word. The oldest word leaves where ten are held.
    pub fn record(&mut self, word: u32)
        ensures
            final(self)@ == recorded(old(self)@, word),
            final(self)@.len() <= HISTORY_SIZE,
    {
        proof {
            use_type_invariant(&*self);
        }
        let _ = buffer_push_back(&mut self.buffer, word);
    }

    /// The words held, oldest first.
    pub fn words(&self) -> (words: Vec<u32>)
        ensures
            words@ == self@,
            words@.len() <= HISTORY_SIZE,
    {
        proof {
            use_type_invariant(self);
        }
        buffer_to_vec(&self.buffer)
    }
}

/// Recording keeps the last words: where a history holds the last words
/// of `past`, after `word` is recorded it holds the last words of `past`
/// and `word`.
pub proof fn lemma_recorded_keeps_last(past: Seq<u32>, word: u32)
    ensures
        recorded(last_words(past), word) =~= last_words(past.push(word)),
{
}

} // verus!
