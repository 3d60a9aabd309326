//! Reading a language model's free-text answer.
//!
//! The model is asked to end its answer with four labelled lines:
//!
//! ```text
//! ACTION: BUY
//! PRICE: 3575.50
//! CONFIDENCE: 75
//! REASONING: momentum is building
//! ```
//!
//! The answer is read line by line. Surrounding white space is ignored, a
//! line that begins with none of the four labels is skipped, and where a
//! label occurs more than once the last usable line decides. Prices are
//! handed on as text, in the order in which they occur: turning them into
//! numbers is the caller's business.

use crate::decimal::{parse_decimal, parse_u64};
use crate::signal::{Action, Signal, SignalView, MAX_CONFIDENCE_BPS, MAX_REASONING_CHARS};
use crate::text::{
    after_first, begins_with, chars_of, contains_text, copy_range, holds_text, removed,
    rest_after_first, second_field, second_field_of, split_on, starts_with, string_of, trim,
    trimmed, without,
};
use vstd::prelude::*;

verus! {

/// Confidence of an answer that states none, in basis points.
pub const DEFAULT_CONFIDENCE_BPS: u64 = 5_000;

/// The greatest confidence an answer can state, in percent; anything above
/// counts as this much.
pub const MAX_CONFIDENCE_PERCENT: u64 = 100;

/// Basis points in one percent.
pub const BPS_PER_PERCENT: u64 = 100;

/// What `str::to_uppercase` of the standard library returns for a string
/// with the characters `text`: each character replaced by its Unicode
/// uppercase mapping, which may be more than one character long.
pub uninterp spec fn uppercase_of(text: Seq<char>) -> Seq<char>;

/// `str::to_uppercase` depends on the characters of its argument alone.
pub assume_specification[ str::to_uppercase ](text: &str) -> (upper: String)
    ensures
        upper@ == uppercase_of(text@),
;

/// What was read from an answer.
#[derive(Debug, PartialEq, Eq)]
pub struct LlmReply {
    pub action: Action,
    /// The value of every `PRICE:` line, without `$` and `,`, in the order
    /// of the lines.
    pub price_texts: Vec<String>,
    /// Confidence in basis points.
    pub confidence_bps: u64,
    pub reasoning: String,
}

/// Mathematical model of an [`LlmReply`].
pub struct LlmReplyView {
    pub action: Action,
    pub price_texts: Seq<Seq<char>>,
    pub confidence_bps: nat,
    pub reasoning: Seq<char>,
}

/// The action that an uppercased value names: `Buy` if it holds `BUY`,
/// else `Sell` if it holds `SELL`, else `Hold`.
pub open spec fn action_named(upper: Seq<char>) -> Action {
    if contains_text(upper, "BUY"@) {
        Action::Buy
    } else if contains_text(upper, "SELL"@) {
        Action::Sell
    } else {
        Action::Hold
    }
}

/// The value of a labelled line: what stands between the label's colon and
/// the next colon, without surrounding white space.
pub open spec fn line_value(line: Seq<char>) -> Seq<char> {
    trim(second_field(line, ':'))
}

/// The action an `ACTION:` line states.
pub open spec fn line_action(line: Seq<char>) -> Action {
    action_named(uppercase_of(line_value(line)))
}

/// The price a `PRICE:` line states, as text without `$` and `,`.
pub open spec fn line_price_text(line: Seq<char>) -> Seq<char> {
    without(without(line_value(line), '$'), ',')
}

/// The confidence a `CONFIDENCE:` line states, in basis points: its value
/// without `%`, read as a whole number of percent and capped at 100. `None`
/// if that is no number.
pub open spec fn line_confidence_bps(line: Seq<char>) -> Option<nat> {
    match parse_decimal(without(line_value(line), '%')) {
        Some(percent) => Some(
            if percent > MAX_CONFIDENCE_PERCENT {
                (MAX_CONFIDENCE_PERCENT * BPS_PER_PERCENT) as nat
            } else {
                (percent * BPS_PER_PERCENT) as nat
            },
        ),
        None => None,
    }
}

/// The reasoning a `REASONING:` line states: all that follows the label,
/// colons included, without surrounding white space and cut off after 512
/// characters.
pub open spec fn line_reasoning(line: Seq<char>) -> Seq<char> {
    let rest = trim(after_first(line, ':'));
    if rest.len() > MAX_REASONING_CHARS {
        rest.take(MAX_REASONING_CHARS as int)
    } else {
        rest
    }
}

impl LlmReplyView {
    /// What an answer without any labelled line amounts to.
    pub open spec fn initial() -> LlmReplyView {
        LlmReplyView {
            action: Action::Hold,
            price_texts: Seq::empty(),
            confidence_bps: DEFAULT_CONFIDENCE_BPS as nat,
            reasoning: "No reasoning provided"@,
        }
    }

    /// The reply after one more line of the answer was read.
    pub open spec fn with_line(self, raw_line: Seq<char>) -> LlmReplyView {
        let line = trim(raw_line);
        if starts_with(line, "ACTION:"@) {
            LlmReplyView { action: line_action(line), ..self }
        } else if starts_with(line, "PRICE:"@) {
            LlmReplyView { price_texts: self.price_texts.push(line_price_text(line)), ..self }
        } else if starts_with(line, "CONFIDENCE:"@) {
            match line_confidence_bps(line) {
                Some(confidence_bps) => LlmReplyView { confidence_bps, ..self },
                None => self,
            }
        } else if starts_with(line, "REASONING:"@) {
            LlmReplyView { reasoning: line_reasoning(line), ..self }
        } else {
            self
        }
    }

    /// The reply after `lines` were read in order.
    pub open spec fn reading(lines: Seq<Seq<char>>) -> LlmReplyView
        decreases lines.len(),
    {
        if lines.len() == 0 {
            LlmReplyView::initial()
        } else {
            LlmReplyView::reading(lines.drop_last()).with_line(lines.last())
        }
    }

    /// What the answer `content` amounts to: its lines, divided by line
    /// feeds, read in order.
    pub open spec fn parse(content: Seq<char>) -> LlmReplyView {
        LlmReplyView::reading(split_on(content, '\n'))
    }

    /// Confidence and reasoning are within what validation admits.
    pub open spec fn within_limits(self) -> bool {
        self.confidence_bps <= MAX_CONFIDENCE_BPS && self.reasoning.len() <= MAX_REASONING_CHARS
    }

    /// The pending signal this reply makes, given when it was made and the
    /// price that was settled on.
    pub open spec fn signal(self, timestamp: nat, predicted_price_micro: nat) -> SignalView {
        SignalView::pending(
            timestamp,
            self.action,
            predicted_price_micro,
            self.confidence_bps,
            self.reasoning,
        )
    }
}

impl View for LlmReply {
    type V = LlmReplyView;

    open spec fn view(&self) -> LlmReplyView {
        LlmReplyView {
            action: self.action,
            price_texts: self.price_texts@.map_values(|text: String| text@),
            confidence_bps: self.confidence_bps as nat,
            reasoning: self.reasoning@,
        }
    }
}

/// Reading one more line keeps confidence and reasoning within limits.
pub proof fn lemma_line_keeps_limits(reply: LlmReplyView, raw_line: Seq<char>)
    requires
        reply.within_limits(),
    ensures
        reply.with_line(raw_line).within_limits(),
{
}

/// Whatever the answer, the reply read from it has a confidence of at most
/// 10000 basis points and a reasoning of at most 512 characters.
pub proof fn lemma_reply_within_limits(lines: Seq<Seq<char>>)
    ensures
        LlmReplyView::reading(lines).within_limits(),
    decreases lines.len(),
{
    if lines.len() == 0 {
        reveal_strlit("No reasoning provided");
    } else {
        lemma_reply_within_limits(lines.drop_last());
        lemma_line_keeps_limits(LlmReplyView::reading(lines.drop_last()), lines.last());
    }
}

/// A reply read from an answer makes a valid signal whenever the price that
/// goes with it is above zero.
pub proof fn lemma_reply_signal_is_valid(
    content: Seq<char>,
    timestamp: nat,
    predicted_price_micro: nat,
)
    ensures
        LlmReplyView::parse(content).signal(timestamp, predicted_price_micro).is_valid()
            <==> predicted_price_micro > 0,
{
    lemma_reply_within_limits(split_on(content, '\n'));
}

/// The action that an uppercased value names.
pub fn classify_action(upper: &str) -> (action: Action)
    ensures
        action == action_named(upper@),
{
    let chars = chars_of(upper);
    if holds_text(&chars, "BUY") {
        Action::Buy
    } else if holds_text(&chars, "SELL") {
        Action::Sell
    } else {
        Action::Hold
    }
}

impl LlmReply {
    /// What an answer without any labelled line amounts to: hold, no price,
    /// even odds, no reasoning.
    pub fn initial() -> (reply: LlmReply)
        ensures
            reply@ == LlmReplyView::initial(),
    {
        let reply = LlmReply {
            action: Action::Hold,
            price_texts: Vec::new(),
            confidence_bps: DEFAULT_CONFIDENCE_BPS,
            reasoning: "No reasoning provided".to_string(),
        };
        assert(reply@.price_texts == Seq::<Seq<char>>::empty());
        reply
    }

    /// Reads one more line of the answer.
    pub fn read_line(&mut self, raw_line: &Vec<char>)
        ensures
            final(self)@ == old(self)@.with_line(raw_line@),
    {
        let line = trimmed(raw_line);
        if begins_with(&line, "ACTION:") {
            let value = string_of(&trimmed(&second_field_of(&line, ':')));
            let upper = value.as_str().to_uppercase();
            self.action = classify_action(upper.as_str());
        } else if begins_with(&line, "PRICE:") {
            let value = trimmed(&second_field_of(&line, ':'));
            let text = string_of(&removed(&removed(&value, '$'), ','));
            let ghost before = self.price_texts@;
            self.price_texts.push(text);
            assert(self.price_texts@.map_values(|text: String| text@) == before.map_values(
                |text: String| text@,
            ).push(text@));
        } else if begins_with(&line, "CONFIDENCE:") {
            let value = trimmed(&second_field_of(&line, ':'));
            let text = string_of(&removed(&value, '%'));
            match parse_u64(text.as_str()) {
                Some(percent) => {
                    let capped = if percent > MAX_CONFIDENCE_PERCENT {
                        MAX_CONFIDENCE_PERCENT
                    } else {
                        percent
                    };
                    self.confidence_bps = capped * BPS_PER_PERCENT;
                },
                None => {},
            }
        } else if begins_with(&line, "REASONING:") {
            let rest = trimmed(&rest_after_first(&line, ':'));
            let kept: usize = if rest.len() > MAX_REASONING_CHARS {
                MAX_REASONING_CHARS
            } else {
                rest.len()
            };
            assert(rest@.take(rest@.len() as int) == rest@);
            self.reasoning = string_of(&copy_range(&rest, 0, kept));
        }
    }

    /// Reads an answer.
    pub fn parse(content: &str) -> (reply: LlmReply)
        ensures
            reply@ == LlmReplyView::parse(content@),
            reply@.within_limits(),
            reply.confidence_bps <= 10_000,
            reply.reasoning@.len() <= 512,
    {
        let chars = chars_of(content);
        let mut reply = LlmReply::initial();
        let mut line: Vec<char> = Vec::new();
        let ghost mut done: Seq<Seq<char>> = Seq::empty();
        let mut index: usize = 0;
        while index < chars.len()
            invariant
                index <= chars.len(),
                split_on(chars@.take(index as int), '\n') == done.push(line@),
                reply@ == LlmReplyView::reading(done),
            decreases chars.len() - index,
        {
            let c = chars[index];
            assert(chars@.take(index + 1).drop_last() == chars@.take(index as int));
            if c == '\n' {
                reply.read_line(&line);
                proof {
                    assert(done.push(line@).drop_last() == done);
                    done = done.push(line@);
                }
                line = Vec::new();
            } else {
                line.push(c);
            }
            index = index + 1;
        }
        reply.read_line(&line);
        proof {
            assert(chars@.take(index as int) == chars@);
            assert(done.push(line@).drop_last() == done);
            lemma_reply_within_limits(split_on(content@, '\n'));
        }
        reply
    }

    /// The pending signal this reply makes, stamped `timestamp` and priced
    /// at `predicted_price_micro`.
    pub fn into_signal(self, timestamp: u64, predicted_price_micro: u64) -> (signal: Signal)
        ensures
            signal@ == self@.signal(timestamp as nat, predicted_price_micro as nat),
            signal.actual_price_micro is None,
    {
        Signal::pending(
            timestamp,
            self.action,
            predicted_price_micro,
            self.confidence_bps,
            self.reasoning,
        )
    }
}

} // verus!
