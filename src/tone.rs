use vstd::prelude::*;
use crate::score::{exceeds, falls_below, Score, STRONG_SENTIMENT_BITS, WEAK_SENTIMENT_BITS};

verus! {

/// Direction of a sentiment, as the sentiment engine reports it.
#[derive(Clone, Copy, Debug, PartialEq, Eq, Structural)]
pub enum Polarity {
    Positive,
    Negative,
}

/// The emotional tone stored with a call.
#[derive(Clone, Copy, Debug, PartialEq, Eq, Structural)]
pub enum EmotionalTone {
    Positive,
    Neutral,
    Negative,
    Angry,
}

/// The tone of a sentiment with polarity `p` and a score with bit pattern `bits`.
///
/// A positive sentiment above 0.999 is positive, any other positive one
/// neutral. A negative sentiment above 0.999 is angry, one below 0.9
/// negative, any other neutral.
pub open spec fn tone_of(p: Polarity, bits: u64) -> EmotionalTone {
    match p {
        Polarity::Positive => if exceeds(bits, STRONG_SENTIMENT_BITS) {
            EmotionalTone::Positive
        } else {
            EmotionalTone::Neutral
        },
        Polarity::Negative => if exceeds(bits, STRONG_SENTIMENT_BITS) {
            EmotionalTone::Angry
        } else if falls_below(bits, WEAK_SENTIMENT_BITS) {
            EmotionalTone::Negative
        } else {
            EmotionalTone::Neutral
        },
    }
}

/// The emotional tone of a call whose text got the given sentiment.
pub fn emotional_tone(polarity: Polarity, score: Score) -> (r: EmotionalTone)
    ensures
        r == tone_of(polarity, score.bits),
{
    match polarity {
        Polarity::Positive => if score.exceeds(STRONG_SENTIMENT_BITS) {
            EmotionalTone::Positive
        } else {
            EmotionalTone::Neutral
        },
        Polarity::Negative => if score.exceeds(STRONG_SENTIMENT_BITS) {
            EmotionalTone::Angry
        } else if score.falls_below(WEAK_SENTIMENT_BITS) {
            EmotionalTone::Negative
        } else {
            EmotionalTone::Neutral
        },
    }
}

impl EmotionalTone {
    /// The name under which the tone is stored.
    pub open spec fn label_spec(self) -> Seq<char> {
        match self {
            EmotionalTone::Positive => "Positive"@,
            EmotionalTone::Neutral => "Neutral"@,
            EmotionalTone::Negative => "Negative"@,
            EmotionalTone::Angry => "Angry"@,
        }
    }

    /// The name under which the tone is stored.
    pub fn label(&self) -> (r: String)
        ensures
            r@ == self.label_spec(),
    {
        match self {
            EmotionalTone::Positive => "Positive".to_owned(),
            EmotionalTone::Neutral => "Neutral".to_owned(),
            EmotionalTone::Negative => "Negative".to_owned(),
            EmotionalTone::Angry => "Angry".to_owned(),
        }
    }
}

} // verus!
