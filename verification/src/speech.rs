//! Speech synthesis: the voice each gender selects, the speed-to-rate
//! formulas of the platform tools, and the quote escaping for the script
//! handed to the Windows synthesizer.

use vstd::prelude::*;
use vstd::string::{StrSliceExecFns, StringExecFns};

verus! {

/// How the text should be spoken. Speed and pitch are multipliers held in
/// thousandths, so a plain speed of 1.0 is 1000.
#[derive(Debug, PartialEq, Eq)]
pub struct VoiceSettings {
    /// "male" or "female"; anything else falls back to the female default.
    pub gender: String,
    /// Speed multiplier in thousandths.
    pub speed_milli: u64,
    /// Pitch multiplier in thousandths; carried but not used by any tool.
    pub pitch_milli: u64,
    /// Locale tag, e.g. "en" or "pt-br".
    pub language: String,
}

/// Whether a gender string selects the male voice; every other value,
/// "female" included, selects the default female voice.
pub open spec fn selects_male(g: Seq<char>) -> bool {
    g == "male"@
}

/// Whether the gender string is "male".
pub fn is_male_gender(g: &str) -> (r: bool)
    ensures
        r == selects_male(g@),
{
    let gs = g.to_owned();
    let m = "male".to_owned();
    gs == m
}

/// The macOS `say` voice for a gender: "Alex" for "male", and the default
/// "Samantha" for "female" and for every other value.
pub fn say_voice(gender: &str) -> (v: String)
    ensures
        selects_male(gender@) ==> v@ == "Alex"@,
        !selects_male(gender@) ==> v@ == "Samantha"@,
{
    if is_male_gender(gender) {
        "Alex".to_owned()
    } else {
        "Samantha".to_owned()
    }
}

/// The espeak voice tag `language+m` or `language+f`: "m" exactly for
/// "male", and the default "f" for every other value.
pub fn espeak_voice(language: &str, gender: &str) -> (v: String)
    ensures
        v@ == language@ + "+"@ + (if selects_male(gender@) {
            "m"@
        } else {
            "f"@
        }),
{
    let mut s = language.to_owned();
    s.append("+");
    if is_male_gender(gender) {
        s.append("m");
    } else {
        s.append("f");
    }
    s
}

/// The macOS `say` rate for a speed: the multiplier times 200 words per
/// minute. A pure function of the speed alone.
pub open spec fn say_rate_of(speed_milli: u64) -> int {
    speed_milli * 200 / 1000
}

/// The Windows synthesizer rate for a speed, on its -10 to 10 scale: the
/// multiplier times 5, shifted so a plain speed gives 0. A pure function
/// of the speed alone.
pub open spec fn sapi_rate_of(speed_milli: u64) -> int {
    speed_milli * 5 / 1000 - 5
}

/// The espeak rate for a speed: the multiplier times 175 words per minute.
/// A pure function of the speed alone.
pub open spec fn espeak_rate_of(speed_milli: u64) -> int {
    speed_milli * 175 / 1000
}

/// At the plain speed of one (1000 thousandths), each conversion gives its
/// tool's documented default rate: 200 words per minute for `say`, 0 on
/// the Windows synthesizer's scale, 175 words per minute for espeak.
pub proof fn lemma_plain_speed_default_rates()
    ensures
        say_rate_of(1000) == 200,
        sapi_rate_of(1000) == 0,
        espeak_rate_of(1000) == 175,
{
}

/// Scaling a speed cannot leave the machine's range: the rate is the
/// speed times a factor of at most 200, divided by 1000.
proof fn lemma_rate_fits(speed_milli: u64, factor: int)
    requires
        0 < factor <= 200,
    ensures
        0 <= speed_milli * factor / 1000 <= u64::MAX / 5,
{
    vstd::arithmetic::mul::lemma_mul_upper_bound(
        speed_milli as int,
        u64::MAX as int,
        factor,
        200,
    );
    vstd::arithmetic::div_mod::lemma_div_is_ordered(
        speed_milli * factor,
        u64::MAX as int * 200,
        1000,
    );
    vstd::arithmetic::div_mod::lemma_div_pos_is_pos(speed_milli * factor, 1000);
}

/// The words-per-minute rate for macOS `say`, for any speed.
pub fn say_rate(speed_milli: u64) -> (r: u64)
    ensures
        r == say_rate_of(speed_milli),
{
    let wide: u128 = ((speed_milli as u128) * 200) / 1000;
    proof {
        lemma_rate_fits(speed_milli, 200);
    }
    wide as u64
}

/// The rate for the Windows synthesizer, for any speed.
pub fn sapi_rate(speed_milli: u64) -> (r: i64)
    ensures
        r == sapi_rate_of(speed_milli),
{
    let wide: u128 = ((speed_milli as u128) * 5) / 1000;
    proof {
        lemma_rate_fits(speed_milli, 5);
    }
    (wide as i64) - 5
}

/// The words-per-minute rate for espeak, for any speed.
pub fn espeak_rate(speed_milli: u64) -> (r: u64)
    ensures
        r == espeak_rate_of(speed_milli),
{
    let wide: u128 = ((speed_milli as u128) * 175) / 1000;
    proof {
        lemma_rate_fits(speed_milli, 175);
    }
    wide as u64
}

impl VoiceSettings {
    /// What the macOS `say` call needs: the voice for the gender and the
    /// words-per-minute rate for the speed.
    pub fn say_plan(&self) -> (r: (String, u64))
        ensures
            selects_male(self.gender@) ==> r.0@ == "Alex"@,
            !selects_male(self.gender@) ==> r.0@ == "Samantha"@,
            r.1 == say_rate_of(self.speed_milli),
    {
        (say_voice(self.gender.as_str()), say_rate(self.speed_milli))
    }

    /// What the espeak call needs: the voice tag for language and gender,
    /// and the words-per-minute rate for the speed.
    pub fn espeak_plan(&self) -> (r: (String, u64))
        ensures
            r.0@ == self.language@ + "+"@ + (if selects_male(self.gender@) {
                "m"@
            } else {
                "f"@
            }),
            r.1 == espeak_rate_of(self.speed_milli),
    {
        (espeak_voice(self.language.as_str(), self.gender.as_str()), espeak_rate(self.speed_milli))
    }

    /// What the Windows synthesizer script needs: its -10 to 10 rate and
    /// the text with its single quotes doubled.
    pub fn sapi_plan(&self, text: &str) -> (r: (i64, String))
        ensures
            r.0 == sapi_rate_of(self.speed_milli),
            r.1@ == escaped_quotes(text@),
    {
        (sapi_rate(self.speed_milli), escape_single_quotes(text))
    }
}

/// A character as it appears between single quotes in a PowerShell string:
/// a quote is doubled, everything else stands as it is.
pub open spec fn esc_char(c: char) -> Seq<char> {
    if c == '\'' {
        seq!['\'', '\'']
    } else {
        seq![c]
    }
}

/// The text with every single quote doubled.
pub open spec fn escaped_quotes(s: Seq<char>) -> Seq<char>
    decreases s.len(),
{
    if s.len() == 0 {
        Seq::<char>::empty()
    } else {
        esc_char(s[0]) + escaped_quotes(s.skip(1))
    }
}

/// Escaping a string one character longer escapes the prefix and then the
/// last character.
proof fn lemma_escaped_snoc(s: Seq<char>, c: char)
    ensures
        escaped_quotes(s.push(c)) == escaped_quotes(s) + esc_char(c),
    decreases s.len(),
{
    if s.len() == 0 {
        assert(s.push(c)[0] == c);
        assert(s.push(c).skip(1) =~= Seq::<char>::empty());
        assert(escaped_quotes(s.push(c)) == esc_char(c) + escaped_quotes(Seq::<char>::empty()));
        assert(escaped_quotes(s.push(c)) =~= escaped_quotes(s) + esc_char(c));
    } else {
        assert(s.push(c)[0] == s[0]);
        assert(s.push(c).skip(1) =~= s.skip(1).push(c));
        lemma_escaped_snoc(s.skip(1), c);
        assert(escaped_quotes(s.push(c)) == esc_char(s[0]) + (escaped_quotes(s.skip(1))
            + esc_char(c)));
        assert(escaped_quotes(s) == esc_char(s[0]) + escaped_quotes(s.skip(1)));
        assert(escaped_quotes(s.push(c)) =~= escaped_quotes(s) + esc_char(c));
    }
}

/// The text with every single quote doubled, safe to splice between single
/// quotes in a PowerShell script.
pub fn escape_single_quotes(text: &str) -> (r: String)
    ensures
        r@ == escaped_quotes(text@),
{
    let n = text.unicode_len();
    let mut out = String::new();
    let mut i: usize = 0;
    while i < n
        invariant
            i <= n,
            n == text@.len(),
            out@ == escaped_quotes(text@.subrange(0, i as int)),
        decreases n - i,
    {
        let c = text.get_char(i);
        proof {
            lemma_escaped_snoc(text@.subrange(0, i as int), text@[i as int]);
            assert(text@.subrange(0, i + 1 as int) =~= text@.subrange(0, i as int).push(
                text@[i as int],
            ));
        }
        if c == '\'' {
            out.append("''");
            proof {
                reveal_strlit("''");
                assert("''"@ =~= esc_char(c));
            }
        } else {
            let piece = text.substring_char(i, i + 1);
            out.append(piece);
            proof {
                assert(piece@ =~= esc_char(c));
            }
        }
        i = i + 1;
    }
    proof {
        assert(text@.subrange(0, n as int) =~= text@);
    }
    out
}

} // verus!
