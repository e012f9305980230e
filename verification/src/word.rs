//! Words: the smallest timed unit of a transcript.

use vstd::prelude::*;

verus! {

/// A timed, speaker-attributed token.
///
/// `confidence` holds the recognizer's score as the bit pattern of an
/// IEEE-754 single-precision number, so that a word can be carried and
/// compared without floating-point arithmetic.
#[derive(Debug)]
pub struct Word {
    pub confidence: u32,
    pub end: usize,
    pub speaker: Option<String>,
    pub start: usize,
    pub text: String,
}

/// The mathematical value of a [`Word`].
pub struct WordView {
    pub confidence: u32,
    pub end: usize,
    pub speaker: Option<Seq<char>>,
    pub start: usize,
    pub text: Seq<char>,
}

impl View for Word {
    type V = WordView;

    open spec fn view(&self) -> WordView {
        WordView {
            confidence: self.confidence,
            end: self.end,
            speaker: match self.speaker {
                Some(s) => Some(s@),
                None => None,
            },
            start: self.start,
            text: self.text@,
        }
    }
}

impl Clone for Word {
    fn clone(&self) -> (copy: Self)
        ensures
            copy@ == self@,
    {
        let speaker = match &self.speaker {
            Some(s) => Some(s.clone()),
            None => None,
        };
        Word {
            confidence: self.confidence,
            end: self.end,
            speaker,
            start: self.start,
            text: self.text.clone(),
        }
    }
}

} // verus!
