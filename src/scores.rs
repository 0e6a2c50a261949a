use vstd::prelude::*;

verus! {

/// ASCII `0`.
pub const DIGIT_ZERO: u8 = 48;

/// ASCII `9`.
pub const DIGIT_NINE: u8 = 57;

/// ASCII `+`.
pub const PLUS_SIGN: u8 = 43;

/// Whether `c` is an ASCII decimal digit.
pub open spec fn is_digit(c: u8) -> bool {
    DIGIT_ZERO <= c <= DIGIT_NINE
}

/// Whether every byte of `s` is a decimal digit.
pub open spec fn all_digits(s: Seq<u8>) -> bool {
    forall|i: int| 0 <= i < s.len() ==> is_digit(#[trigger] s[i])
}

/// The number written by the decimal digits `s`, most significant first.
pub open spec fn digits_value(s: Seq<u8>) -> nat
    decreases s.len(),
{
    if s.len() == 0 {
        0
    } else {
        digits_value(s.drop_last()) * 10 + (s.last() - DIGIT_ZERO) as nat
    }
}

/// The digits of `b` after an optional leading `+`.
pub open spec fn unsigned_digits(b: Seq<u8>) -> Seq<u8> {
    if b.len() > 0 && b[0] == PLUS_SIGN {
        b.subrange(1, b.len() as int)
    } else {
        b
    }
}

/// The stored high-score text read as an unsigned 32-bit decimal: an
/// optional `+`, then at least one digit, with a value that fits.
pub open spec fn parse_decimal(b: Seq<u8>) -> Option<u32> {
    let d = unsigned_digits(b);
    if d.len() > 0 && all_digits(d) && digits_value(d) <= u32::MAX {
        Some(digits_value(d) as u32)
    } else {
        None
    }
}

/// The high score a session starts with: the stored value when there is
/// one and it reads as a number, else zero.
pub open spec fn stored_high_score(stored: Option<Seq<u8>>) -> u32 {
    match stored {
        Some(b) => match parse_decimal(b) {
            Some(v) => v,
            None => 0,
        },
        None => 0,
    }
}

/// The decimal text of `n`, without leading zeros.
pub open spec fn decimal(n: nat) -> Seq<u8>
    decreases n,
{
    if n < 10 {
        seq![(DIGIT_ZERO + n) as u8]
    } else {
        decimal(n / 10).push((DIGIT_ZERO + n % 10) as u8)
    }
}

/// Appending a digit multiplies the value by ten and adds the digit, so a
/// longer prefix of digits never has a smaller value.
proof fn lemma_prefix_value_grows(s: Seq<u8>, k: int)
    requires
        all_digits(s),
        0 <= k <= s.len(),
    ensures
        digits_value(s.take(k)) <= digits_value(s),
    decreases s.len() - k,
{
    if k < s.len() {
        lemma_prefix_value_grows(s, k + 1);
        assert(s.take(k + 1).drop_last() =~= s.take(k));
        assert(is_digit(s[k]));
    } else {
        assert(s.take(k) =~= s);
    }
}

/// Reads `digits`, which holds only digits, as a number unless it exceeds
/// `u32::MAX`.
fn digits_to_u32(digits: &[u8], from: usize) -> (r: Option<u32>)
    requires
        from <= digits@.len(),
        all_digits(digits@.subrange(from as int, digits@.len() as int)),
    ensures
        ({
            let d = digits@.subrange(from as int, digits@.len() as int);
            r == if digits_value(d) <= u32::MAX {
                Some(digits_value(d) as u32)
            } else {
                None::<u32>
            }
        }),
{
    let ghost d = digits@.subrange(from as int, digits@.len() as int);
    let mut value: u64 = 0;
    let mut i: usize = from;
    while i < digits.len()
        invariant
            from <= i <= digits@.len(),
            d == digits@.subrange(from as int, digits@.len() as int),
            all_digits(d),
            value == digits_value(d.take(i - from)),
            value <= u32::MAX,
        decreases digits@.len() - i,
    {
        let c = digits[i];
        assert(d[i - from] == c);
        assert(d.take(i - from + 1).drop_last() =~= d.take(i - from));
        let next = value * 10 + (c - DIGIT_ZERO) as u64;
        if next > u32::MAX as u64 {
            proof {
                lemma_prefix_value_grows(d, i - from + 1);
            }
            return None;
        }
        value = next;
        i += 1;
    }
    assert(d.take(i - from) =~= d);
    Some(value as u32)
}

/// Reads stored high-score text as an unsigned 32-bit decimal number.
pub fn parse_high_score(bytes: &[u8]) -> (r: Option<u32>)
    ensures
        r == parse_decimal(bytes@),
{
    let from: usize = if bytes.len() > 0 && bytes[0] == PLUS_SIGN {
        1
    } else {
        0
    };
    let ghost d = unsigned_digits(bytes@);
    assert(d =~= bytes@.subrange(from as int, bytes@.len() as int));
    if from == bytes.len() {
        return None;
    }
    let mut i: usize = from;
    while i < bytes.len()
        invariant
            from <= i <= bytes@.len(),
            d == unsigned_digits(bytes@),
            d =~= bytes@.subrange(from as int, bytes@.len() as int),
            forall|j: int| from <= j < i ==> is_digit(#[trigger] bytes@[j]),
        decreases bytes@.len() - i,
    {
        if bytes[i] < DIGIT_ZERO || bytes[i] > DIGIT_NINE {
            assert(!is_digit(d[i - from]));
            return None;
        }
        i += 1;
    }
    assert(all_digits(d)) by {
        assert forall|k: int| 0 <= k < d.len() implies is_digit(#[trigger] d[k]) by {
            assert(d[k] == bytes@[k + from]);
        }
    }
    digits_to_u32(bytes, from)
}

/// Appends the decimal text of `n` to `out`.
fn push_decimal(n: u32, out: &mut Vec<u8>)
    ensures
        final(out)@ == old(out)@ + decimal(n as nat),
    decreases n,
{
    if n >= 10 {
        push_decimal(n / 10, out);
    }
    out.push(DIGIT_ZERO + (n % 10) as u8);
    assert(n < 10 ==> decimal(n as nat) =~= seq![(DIGIT_ZERO + n) as u8]);
}

/// The text that stores the high score `n`.
pub fn encode_high_score(n: u32) -> (r: Vec<u8>)
    ensures
        r@ == decimal(n as nat),
{
    let mut out: Vec<u8> = Vec::new();
    push_decimal(n, &mut out);
    assert(out@ =~= decimal(n as nat));
    out
}

/// The decimal text of `n` holds only digits and reads back as `n`.
pub proof fn lemma_decimal_reads_back(n: nat)
    ensures
        all_digits(decimal(n)),
        decimal(n).len() > 0,
        digits_value(decimal(n)) == n,
    decreases n,
{
    if n >= 10 {
        lemma_decimal_reads_back(n / 10);
        assert(decimal(n).drop_last() =~= decimal(n / 10));
        assert(digits_value(decimal(n)) == digits_value(decimal(n / 10)) * 10 + (decimal(n).last() - DIGIT_ZERO) as nat);
        assert(decimal(n).last() == (DIGIT_ZERO + n % 10) as u8);
        assert(n == (n / 10) * 10 + n % 10);
        assert forall|i: int| 0 <= i < decimal(n).len() implies is_digit(#[trigger] decimal(n)[i]) by {
            if i < decimal(n).len() - 1 {
                assert(decimal(n)[i] == decimal(n / 10)[i]);
            }
        }
    } else {
        assert(decimal(n).drop_last() =~= Seq::<u8>::empty());
        assert(digits_value(Seq::<u8>::empty()) == 0);
    }
}

/// Parsing the encoding of `n` gives `n` back.
pub proof fn lemma_parse_encoded(n: u32)
    ensures
        parse_decimal(decimal(n as nat)) == Some(n),
{
    lemma_decimal_reads_back(n as nat);
    let t = decimal(n as nat);
    if t[0] == PLUS_SIGN {
        assert(is_digit(t[0]));
    }
    assert(unsigned_digits(t) == t);
}

/// The current score and the best score kept between sessions.
#[derive(Clone, Copy, Debug, PartialEq, Eq, Structural, Default)]
pub struct Scores {
    pub score: u32,
    pub high_score: u32,
}

impl Scores {
    /// Scores of a new session: zero points, and the high score read from
    /// `stored`, the stored high-score text if it could be read.
    pub fn new(stored: Option<&[u8]>) -> (r: Scores)
        ensures
            r.score == 0,
            r.high_score == stored_high_score(
                match stored {
                    Some(b) => Some(b@),
                    None => None,
                },
            ),
    {
        let mut scores = Scores { score: 0, high_score: 0 };
        scores.load_high_score(stored);
        scores
    }

    /// At the end of a game: when the score beats the high score, the high
    /// score takes its value and the text to store is returned.
    pub fn check_score_vs_high_score(&mut self) -> (r: Option<Vec<u8>>)
        ensures
            final(self).score == old(self).score,
            old(self).score > old(self).high_score ==> final(self).high_score == old(self).score
                && r is Some && r->0@ == decimal(old(self).score as nat),
            old(self).score <= old(self).high_score ==> final(self).high_score
                == old(self).high_score && r is None,
    {
        if self.score > self.high_score {
            Some(self.save_high_score())
        } else {
            None
        }
    }

    fn load_high_score(&mut self, stored: Option<&[u8]>)
        ensures
            final(self).score == old(self).score,
            final(self).high_score == stored_high_score(
                match stored {
                    Some(b) => Some(b@),
                    None => None,
                },
            ),
    {
        self.high_score = match stored {
            Some(b) => match parse_high_score(b) {
                Some(v) => v,
                None => 0,
            },
            None => 0,
        };
    }

    fn save_high_score(&mut self) -> (r: Vec<u8>)
        ensures
            final(self).score == old(self).score,
            final(self).high_score == old(self).score,
            r@ == decimal(old(self).score as nat),
    {
        self.high_score = self.score;
        encode_high_score(self.score)
    }
}

/// A high score set at the end of a game survives a restart: when the
/// score beats the high score, `check_score_vs_high_score` makes it the high
/// score and hands out `decimal(score)` for storage, and a session whose
/// stored text is that starts with the same high score.
pub proof fn lemma_high_score_persists(scores: Scores)
    requires
        scores.score > scores.high_score,
    ensures
        stored_high_score(Some(decimal(scores.score as nat))) == scores.score,
{
    lemma_parse_encoded(scores.score);
}

} // verus!
