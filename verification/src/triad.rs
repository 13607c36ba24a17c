//! The three-way classification of a system's response to volatility.

use vstd::prelude::*;

verus! {

use core::cmp::Ordering;
use vstd::std_specs::cmp::PartialOrdSpec;

/// Error returned when converting an out-of-range byte to a [`Triad`];
/// carries the offending byte.
#[derive(Clone, Copy, Debug, PartialEq, Eq, Structural)]
pub struct InvalidTriadValue(pub u8);

/// Error returned when parsing an unrecognized string as a [`Triad`].
#[derive(Clone, Copy, Debug, PartialEq, Eq, Structural)]
pub struct ParseTriadError;

/// The classification encoded by a byte: rank 0, 1 and 2 stand for
/// `Fragile`, `Robust` and `Antifragile`; every other byte encodes nothing.
pub open spec fn triad_of_byte(value: u8) -> Option<Triad> {
    if value == 0 {
        Some(Triad::Fragile)
    } else if value == 1 {
        Some(Triad::Robust)
    } else if value == 2 {
        Some(Triad::Antifragile)
    } else {
        None
    }
}

/// The three categories of response to volatility, ordered by desirability:
/// `Fragile < Robust < Antifragile`.
#[derive(Clone, Copy, Debug, PartialEq, Eq, Structural, Hash, Ord)]
#[must_use]
pub enum Triad {
    /// Harmed by volatility (concave response): least desirable.
    Fragile,
    /// Unaffected by volatility (linear response): neutral.
    Robust,
    /// Benefits from volatility (convex response): most desirable.
    Antifragile,
}

impl Triad {
    /// Desirability rank: `Fragile` is 0, `Robust` is 1, `Antifragile` is 2.
    pub open spec fn rank_spec(self) -> u8 {
        match self {
            Triad::Fragile => 0u8,
            Triad::Robust => 1u8,
            Triad::Antifragile => 2u8,
        }
    }

    /// The opposite classification: `Antifragile` and `Fragile` swap,
    /// `Robust` is its own opposite.
    pub open spec fn opposite_spec(self) -> Triad {
        match self {
            Triad::Antifragile => Triad::Fragile,
            Triad::Fragile => Triad::Antifragile,
            Triad::Robust => Triad::Robust,
        }
    }

    /// All variants in desirability order.
    pub fn iter() -> (all: Vec<Triad>)
        ensures
            all@ =~= seq![Triad::Fragile, Triad::Robust, Triad::Antifragile],
    {
        let mut all: Vec<Triad> = Vec::new();
        all.push(Triad::Fragile);
        all.push(Triad::Robust);
        all.push(Triad::Antifragile);
        all
    }

    /// Returns the desirability rank: Fragile=0, Robust=1, Antifragile=2.
    pub fn rank(self) -> (r: u8)
        ensures
            r == self.rank_spec(),
    {
        match self {
            Triad::Fragile => 0,
            Triad::Robust => 1,
            Triad::Antifragile => 2,
        }
    }

    /// Returns true if this is the best classification (`Antifragile`).
    pub fn is_antifragile(self) -> (r: bool)
        ensures
            r == (self == Triad::Antifragile),
    {
        matches!(self, Triad::Antifragile)
    }

    /// Returns true if this is the worst classification (`Fragile`).
    pub fn is_fragile(self) -> (r: bool)
        ensures
            r == (self == Triad::Fragile),
    {
        matches!(self, Triad::Fragile)
    }

    /// Returns true if this is the neutral classification (`Robust`).
    pub fn is_robust(self) -> (r: bool)
        ensures
            r == (self == Triad::Robust),
    {
        matches!(self, Triad::Robust)
    }

    /// Returns the opposite classification: `Antifragile` for `Fragile` and
    /// the other way round, `Robust` for `Robust`.
    pub fn opposite(self) -> (t: Triad)
        ensures
            t == self.opposite_spec(),
    {
        match self {
            Triad::Antifragile => Triad::Fragile,
            Triad::Fragile => Triad::Antifragile,
            Triad::Robust => Triad::Robust,
        }
    }
}

impl TryFrom<u8> for Triad {
    type Error = InvalidTriadValue;

    /// Decodes rank 0, 1 or 2; any other byte is rejected with
    /// [`InvalidTriadValue`] carrying that byte.
    fn try_from(value: u8) -> (r: Result<Triad, InvalidTriadValue>) {
        match value {
            0 => Ok(Triad::Fragile),
            1 => Ok(Triad::Robust),
            2 => Ok(Triad::Antifragile),
            n => Err(InvalidTriadValue(n)),
        }
    }
}

impl vstd::std_specs::convert::TryFromSpecImpl<u8> for Triad {
    open spec fn obeys_try_from_spec() -> bool {
        true
    }

    open spec fn try_from_spec(value: u8) -> Result<Triad, InvalidTriadValue> {
        match triad_of_byte(value) {
            Some(t) => Ok(t),
            None => Err(InvalidTriadValue(value)),
        }
    }
}

impl From<Triad> for u8 {
    /// Encodes the classification as its rank.
    fn from(triad: Triad) -> (r: u8) {
        triad.rank()
    }
}

impl vstd::std_specs::convert::FromSpecImpl<Triad> for u8 {
    open spec fn obeys_from_spec() -> bool {
        true
    }

    open spec fn from_spec(triad: Triad) -> u8 {
        triad.rank_spec()
    }
}

impl PartialOrd for Triad {
    /// Orders by desirability: `Fragile < Robust < Antifragile`.
    fn partial_cmp(&self, other: &Self) -> (r: Option<Ordering>) {
        let a = self.rank();
        let b = other.rank();
        if a < b {
            Some(Ordering::Less)
        } else if a == b {
            Some(Ordering::Equal)
        } else {
            Some(Ordering::Greater)
        }
    }
}

impl vstd::std_specs::cmp::PartialOrdSpecImpl for Triad {
    open spec fn obeys_partial_cmp_spec() -> bool {
        true
    }

    open spec fn partial_cmp_spec(&self, other: &Self) -> Option<Ordering> {
        if self.rank_spec() < other.rank_spec() {
            Some(Ordering::Less)
        } else if self.rank_spec() == other.rank_spec() {
            Some(Ordering::Equal)
        } else {
            Some(Ordering::Greater)
        }
    }
}

impl Default for Triad {
    /// The neutral default, `Robust`.
    fn default() -> (t: Triad)
        ensures
            t == Triad::Robust,
    {
        Triad::Robust
    }
}

/// The code point of a character with ASCII upper-case letters folded to
/// lower case.
pub open spec fn lower_code(c: char) -> int {
    if 65 <= c as int && c as int <= 90 {
        c as int + 32
    } else {
        c as int
    }
}

/// Two character sequences are equal up to ASCII case.
pub open spec fn eq_ignore_ascii_case_spec(a: Seq<char>, b: Seq<char>) -> bool {
    a.len() == b.len() && forall|i: int| 0 <= i < a.len() ==> lower_code(a[i]) == lower_code(b[i])
}

/// The canonical lowercase token of a classification.
pub open spec fn token_spec(t: Triad) -> Seq<char> {
    match t {
        Triad::Antifragile => "antifragile"@,
        Triad::Fragile => "fragile"@,
        Triad::Robust => "robust"@,
    }
}

/// The classification whose token matches the text up to ASCII case, if any.
pub open spec fn parse_triad_spec(s: Seq<char>) -> Option<Triad> {
    if eq_ignore_ascii_case_spec(s, token_spec(Triad::Antifragile)) {
        Some(Triad::Antifragile)
    } else if eq_ignore_ascii_case_spec(s, token_spec(Triad::Fragile)) {
        Some(Triad::Fragile)
    } else if eq_ignore_ascii_case_spec(s, token_spec(Triad::Robust)) {
        Some(Triad::Robust)
    } else {
        None
    }
}

/// The code point of a character, with upper-case ASCII letters folded.
fn lower_char(c: char) -> (r: u32)
    ensures
        r as int == lower_code(c),
{
    let n = c as u32;
    if 65 <= n && n <= 90 {
        n + 32
    } else {
        n
    }
}

/// Whether two strings are equal up to ASCII case.
fn eq_ignore_case(s: &str, t: &str) -> (r: bool)
    ensures
        r == eq_ignore_ascii_case_spec(s@, t@),
{
    let n = s.unicode_len();
    if n != t.unicode_len() {
        return false;
    }
    let mut i: usize = 0;
    while i < n
        invariant
            n == s@.len(),
            n == t@.len(),
            i <= n,
            forall|j: int| 0 <= j < i ==> lower_code(s@[j]) == lower_code(t@[j]),
        decreases n - i,
    {
        let a = lower_char(s.get_char(i));
        let b = lower_char(t.get_char(i));
        if a != b {
            return false;
        }
        i = i + 1;
    }
    true
}

impl Triad {
    /// The canonical lowercase token: `"fragile"`, `"robust"` or
    /// `"antifragile"`.
    pub fn as_str(self) -> (r: &'static str)
        ensures
            r@ == token_spec(self),
    {
        match self {
            Triad::Antifragile => "antifragile",
            Triad::Fragile => "fragile",
            Triad::Robust => "robust",
        }
    }

    /// Parses a token case-insensitively: exactly the texts matching
    /// `"antifragile"`, `"fragile"` or `"robust"` up to ASCII case are
    /// accepted; everything else is rejected with [`ParseTriadError`].
    pub fn from_text(s: &str) -> (r: Result<Triad, ParseTriadError>)
        ensures
            r == (match parse_triad_spec(s@) {
                Some(t) => Ok::<Triad, ParseTriadError>(t),
                None => Err::<Triad, ParseTriadError>(ParseTriadError),
            }),
    {
        if eq_ignore_case(s, "antifragile") {
            Ok(Triad::Antifragile)
        } else if eq_ignore_case(s, "fragile") {
            Ok(Triad::Fragile)
        } else if eq_ignore_case(s, "robust") {
            Ok(Triad::Robust)
        } else {
            Err(ParseTriadError)
        }
    }
}

impl core::str::FromStr for Triad {
    type Err = ParseTriadError;

    /// Parses a token case-insensitively, as [`Triad::from_text`] does.
    fn from_str(s: &str) -> Result<Triad, ParseTriadError> {
        Triad::from_text(s)
    }
}

/// The character of a single decimal digit.
pub open spec fn digit_char(d: int) -> char {
    if d == 0 {
        '0'
    } else if d == 1 {
        '1'
    } else if d == 2 {
        '2'
    } else if d == 3 {
        '3'
    } else if d == 4 {
        '4'
    } else if d == 5 {
        '5'
    } else if d == 6 {
        '6'
    } else if d == 7 {
        '7'
    } else if d == 8 {
        '8'
    } else {
        '9'
    }
}

/// The decimal digits of a non-negative number, most significant first and
/// without leading zeros.
pub open spec fn decimal_spec(n: int) -> Seq<char>
    decreases n,
{
    if n < 10 {
        seq![digit_char(n)]
    } else {
        decimal_spec(n / 10) + seq![digit_char(n % 10)]
    }
}

/// The text of a single decimal digit.
fn digit_str(d: u8) -> (r: &'static str)
    requires
        d < 10,
    ensures
        r@ == seq![digit_char(d as int)],
{
    proof {
        reveal_strlit("0");
        reveal_strlit("1");
        reveal_strlit("2");
        reveal_strlit("3");
        reveal_strlit("4");
        reveal_strlit("5");
        reveal_strlit("6");
        reveal_strlit("7");
        reveal_strlit("8");
        reveal_strlit("9");
    }
    let r = match d {
        0 => "0",
        1 => "1",
        2 => "2",
        3 => "3",
        4 => "4",
        5 => "5",
        6 => "6",
        7 => "7",
        8 => "8",
        _ => "9",
    };
    proof {
        assert(r@ =~= seq![digit_char(d as int)]);
    }
    r
}

/// Appends the decimal digits of a byte.
fn push_decimal_u8(s: &mut String, n: u8)
    ensures
        final(s)@ == old(s)@ + decimal_spec(n as int),
{
    if n >= 100 {
        s.append(digit_str(n / 100));
        s.append(digit_str((n / 10) % 10));
        s.append(digit_str(n % 10));
        proof {
            let m = n as int;
            assert((m / 10) / 10 == m / 100) by (nonlinear_arith);
            assert(10 <= m / 10 && m / 100 < 10) by (nonlinear_arith)
                requires
                    100 <= m <= 255,
            ;
            assert(decimal_spec(m) == decimal_spec(m / 10) + seq![digit_char(m % 10)]);
            assert(decimal_spec(m / 10) == decimal_spec(m / 100) + seq![
                digit_char((m / 10) % 10),
            ]);
            assert(decimal_spec(m / 100) == seq![digit_char(m / 100)]);
            assert(final(s)@ =~= old(s)@ + decimal_spec(m));
        }
    } else if n >= 10 {
        s.append(digit_str(n / 10));
        s.append(digit_str(n % 10));
        proof {
            let m = n as int;
            assert(m / 10 < 10) by (nonlinear_arith)
                requires
                    10 <= m < 100,
            ;
            assert(decimal_spec(m) == decimal_spec(m / 10) + seq![digit_char(m % 10)]);
            assert(decimal_spec(m / 10) == seq![digit_char(m / 10)]);
            assert(final(s)@ =~= old(s)@ + decimal_spec(m));
        }
    } else {
        s.append(digit_str(n));
        proof {
            assert(final(s)@ =~= old(s)@ + decimal_spec(n as int));
        }
    }
}

impl Triad {
    /// A human-readable description of the classification.
    pub open spec fn describe_spec(self) -> Seq<char> {
        match self {
            Triad::Antifragile => "Antifragile (benefits from volatility)"@,
            Triad::Fragile => "Fragile (harmed by volatility)"@,
            Triad::Robust => "Robust (unaffected by volatility)"@,
        }
    }

    /// Describes the classification in words.
    pub fn describe(self) -> (r: String)
        ensures
            r@ == self.describe_spec(),
    {
        match self {
            Triad::Antifragile => String::from_str("Antifragile (benefits from volatility)"),
            Triad::Fragile => String::from_str("Fragile (harmed by volatility)"),
            Triad::Robust => String::from_str("Robust (unaffected by volatility)"),
        }
    }
}

impl InvalidTriadValue {
    /// The error text, naming the offending byte.
    pub open spec fn message_spec(self) -> Seq<char> {
        "invalid triad value: "@ + decimal_spec(self.0 as int) + " (expected 0, 1, or 2)"@
    }

    /// Describes the error, naming the offending byte.
    pub fn message(&self) -> (r: String)
        ensures
            r@ == self.message_spec(),
    {
        let mut r = String::from_str("invalid triad value: ");
        push_decimal_u8(&mut r, self.0);
        r.append(" (expected 0, 1, or 2)");
        r
    }
}

impl ParseTriadError {
    /// The error text.
    pub open spec fn message_spec(self) -> Seq<char> {
        "invalid triad string (expected \"antifragile\", \"fragile\", or \"robust\")"@
    }

    /// Describes the error.
    pub fn message(&self) -> (r: String)
        ensures
            r@ == self.message_spec(),
    {
        String::from_str("invalid triad string (expected \"antifragile\", \"fragile\", or \"robust\")")
    }
}

/// Law: the canonical token of each classification parses back to that
/// classification, case-insensitively on the way in.
pub proof fn lemma_token_round_trip()
    ensures
        forall|t: Triad| parse_triad_spec(#[trigger] token_spec(t)) == Some(t),
        forall|s: Seq<char>, t: Triad|
            #[trigger] eq_ignore_ascii_case_spec(s, token_spec(t)) <==> parse_triad_spec(s)
                == Some(t),
{
    reveal_strlit("antifragile");
    reveal_strlit("fragile");
    reveal_strlit("robust");
    assert forall|s: Seq<char>, t: Triad|
        #[trigger] eq_ignore_ascii_case_spec(s, token_spec(t)) <==> parse_triad_spec(s) == Some(
            t,
        ) by {
        // The three tokens have pairwise distinct lengths, so a text
        // case-matches at most one of them.
        match t {
            Triad::Antifragile => {},
            Triad::Fragile => {},
            Triad::Robust => {},
        }
    }
    assert forall|t: Triad| parse_triad_spec(#[trigger] token_spec(t)) == Some(t) by {
        assert(eq_ignore_ascii_case_spec(token_spec(t), token_spec(t)));
    }
}

/// Law: ranks are a bijection onto 0, 1 and 2, and the comparison order
/// follows the rank, so `Fragile < Robust < Antifragile`.
pub proof fn lemma_triad_order()
    ensures
        Triad::Fragile.rank_spec() < Triad::Robust.rank_spec(),
        Triad::Robust.rank_spec() < Triad::Antifragile.rank_spec(),
        forall|a: Triad, b: Triad|
            a.partial_cmp_spec(&b) == Some(Ordering::Less) <==> a.rank_spec() < b.rank_spec(),
        forall|a: Triad, b: Triad| #[trigger] a.rank_spec() == #[trigger] b.rank_spec() ==> a == b,
        forall|t: Triad| #[trigger] t.rank_spec() <= 2,
{
    assert forall|a: Triad, b: Triad| #[trigger] a.rank_spec() == #[trigger] b.rank_spec() implies a == b by {
        match a {
            Triad::Fragile => {},
            Triad::Robust => {},
            Triad::Antifragile => {},
        }
    }
}

/// Law: encoding a classification as its rank byte and decoding it again
/// gives the classification back, and every byte among 0, 1 and 2 decodes to
/// the classification of exactly that rank; larger bytes decode to nothing.
pub proof fn lemma_byte_round_trip()
    ensures
        forall|t: Triad| triad_of_byte(#[trigger] t.rank_spec()) == Some(t),
        triad_of_byte(0) == Some(Triad::Fragile),
        triad_of_byte(1) == Some(Triad::Robust),
        triad_of_byte(2) == Some(Triad::Antifragile),
        forall|b: u8| b > 2 ==> #[trigger] triad_of_byte(b) is None,
{
}

/// Law: taking the opposite twice gives the value back, and `Robust` is a
/// fixed point of the opposite mapping.
pub proof fn lemma_opposite_involutive()
    ensures
        forall|t: Triad| (#[trigger] t.opposite_spec()).opposite_spec() == t,
        Triad::Robust.opposite_spec() == Triad::Robust,
{
    assert forall|t: Triad| (#[trigger] t.opposite_spec()).opposite_spec() == t by {
        match t {
            Triad::Antifragile => {},
            Triad::Fragile => {},
            Triad::Robust => {},
        }
    }
}

} // verus!
