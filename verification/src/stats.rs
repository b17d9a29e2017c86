//! The running score of one user.

use vstd::prelude::*;
use crate::text::{decimal, digit, digit_char, push_decimal};

verus! {

/// How many questions a user has answered, and how many of them correctly.
#[derive(Clone, Copy, Debug)]
pub struct Stats {
    correct_answered: u32,
    total_answered: u32,
}

/// `num / den` rounded to the nearest whole number, a tie going to the even
/// neighbour. `den` is positive.
pub open spec fn round_half_even(num: nat, den: nat) -> nat {
    let q = num / den;
    let r = num % den;
    if 2 * r > den || (2 * r == den && q % 2 == 1) {
        q + 1
    } else {
        q
    }
}

/// The share of correct answers in hundredths of a percent: `correct / total *
/// 100` rounded to two decimal places, and 100.00 when nothing was answered.
pub open spec fn percentage_hundredths(correct: nat, total: nat) -> nat {
    if total == 0 {
        10000
    } else {
        round_half_even(correct * 10000, total)
    }
}

/// A count of hundredths written with two decimal places: 7500 is `75.00`.
pub open spec fn two_places(hundredths: nat) -> Seq<char> {
    decimal(hundredths / 100) + seq![
        '.',
        digit_char(hundredths % 100 / 10),
        digit_char(hundredths % 10),
    ]
}

/// The score summary sent to the user.
pub open spec fn stats_text(correct: nat, total: nat) -> Seq<char> {
    "Richtig beantwortet: "@ + decimal(correct) + "\nInsgesamt beantwortet: "@ + decimal(total)
        + "\nProzentsatz: "@ + two_places(percentage_hundredths(correct, total)) + "%"@
}

impl Stats {
    /// The number of correct answers.
    pub closed spec fn correct(&self) -> nat {
        self.correct_answered as nat
    }

    /// The number of answers.
    pub closed spec fn total(&self) -> nat {
        self.total_answered as nat
    }

    /// No more answers are counted as correct than were given.
    pub open spec fn wf(&self) -> bool {
        self.correct() <= self.total()
    }

    /// A score with nothing answered.
    pub fn new() -> (s: Stats)
        ensures
            s.correct() == 0,
            s.total() == 0,
            s.wf(),
    {
        Stats { correct_answered: 0, total_answered: 0 }
    }

    /// Counts one more answer, a correct one.
    pub fn add_correct(&mut self)
        requires
            old(self).wf(),
            old(self).total() < u32::MAX,
        ensures
            final(self).correct() == old(self).correct() + 1,
            final(self).total() == old(self).total() + 1,
            final(self).wf(),
    {
        self.correct_answered += 1;
        self.total_answered += 1;
    }

    /// Counts one more answer, a wrong one.
    pub fn add_wrong(&mut self)
        requires
            old(self).total() < u32::MAX,
        ensures
            final(self).correct() == old(self).correct(),
            final(self).total() == old(self).total() + 1,
            old(self).wf() ==> final(self).wf(),
    {
        self.total_answered += 1;
    }

    /// Sets both counters back to zero.
    pub fn reset(&mut self)
        ensures
            final(self).correct() == 0,
            final(self).total() == 0,
            final(self).wf(),
    {
        self.correct_answered = 0;
        self.total_answered = 0;
    }

    /// The number of correct answers.
    pub fn correct_answered(&self) -> (n: u32)
        ensures
            n == self.correct(),
    {
        self.correct_answered
    }

    /// The number of answers.
    pub fn total_answered(&self) -> (n: u32)
        ensures
            n == self.total(),
    {
        self.total_answered
    }

    /// The share of correct answers in hundredths of a percent.
    pub fn percentage(&self) -> (p: u64)
        ensures
            p == percentage_hundredths(self.correct(), self.total()),
            self.total() == 0 ==> p == 10000,
            self.wf() ==> p <= 10000,
    {
        if self.total_answered == 0 {
            10000
        } else {
            let num: u64 = self.correct_answered as u64 * 10000;
            let den: u64 = self.total_answered as u64;
            let q: u64 = num / den;
            let r: u64 = num % den;
            proof {
                if self.wf() {
                    lemma_share_bounded(num as nat / 10000, den as nat);
                }
            }
            if 2 * r > den || (2 * r == den && q % 2 == 1) {
                q + 1
            } else {
                q
            }
        }
    }

    /// The score summary as text.
    pub fn stats(&self) -> (text: String)
        ensures
            text@ == stats_text(self.correct(), self.total()),
    {
        let p: u64 = self.percentage();
        let mut text = String::from_str("Richtig beantwortet: ");
        push_decimal(&mut text, self.correct_answered as u64);
        text.append("\nInsgesamt beantwortet: ");
        push_decimal(&mut text, self.total_answered as u64);
        text.append("\nProzentsatz: ");
        push_decimal(&mut text, p / 100);
        text.push('.');
        text.push(digit((p % 100 / 10) as u8));
        text.push(digit((p % 10) as u8));
        text.append("%");
        text
    }
}

impl Default for Stats {
    fn default() -> (s: Stats)
        ensures
            s.correct() == 0,
            s.total() == 0,
            s.wf(),
    {
        Stats::new()
    }
}

/// A share of at most the whole rounds to at most 100.00 percent.
pub proof fn lemma_share_bounded(correct: nat, total: nat)
    requires
        correct <= total,
        total > 0,
    ensures
        round_half_even(correct * 10000, total) <= 10000,
{
    let num = correct * 10000;
    let q = num / total;
    let r = num % total;
    assert(num == total * q + r && 0 <= r < total) by {
        vstd::arithmetic::div_mod::lemma_fundamental_div_mod(num as int, total as int);
    }
    assert(num <= total * 10000) by (nonlinear_arith)
        requires
            num == correct * 10000,
            correct <= total,
    ;
    if q >= 10000 {
        assert(total * q >= total * 10000) by (nonlinear_arith)
            requires
                q >= 10000,
                total > 0,
        ;
        assert(q == 10000 && r == 0) by (nonlinear_arith)
            requires
                num == total * q + r,
                0 <= r,
                num <= total * 10000,
                total * q >= total * 10000,
                q >= 10000,
                total > 0,
        ;
    }
}

} // verus!
