//! Typed identifiers.
//!
//! Every persistent row is named by a signed 64-bit id paired with a
//! one-letter prefix used in user-visible rendering (`u` user, `g` game,
//! `p` proposal, `s` session, `m` message, `r` request, `o` group).
//! Rendering and parsing are exact inverses: parsing demands the matching
//! prefix followed by a decimal integer.

use vstd::prelude::*;
use vstd::string::StrSliceExecFns;
use vstd::string::StringExecFns;

verus! {

/// Error returned when an id fails to parse.
#[derive(Debug, Clone, Copy, PartialEq, Eq, Structural)]
pub struct InvalidIdError;

/// The decimal digit character for `d` (`0 <= d <= 9`).
pub open spec fn digit_char(d: int) -> char {
    ((d + 48) as u8) as char
}

/// The numeric value of a digit character.
pub open spec fn digit_val(c: char) -> int {
    c as int - 48
}

/// Whether every character of `s` is a decimal digit.
pub open spec fn is_digit_seq(s: Seq<char>) -> bool {
    forall|i: int| 0 <= i < s.len() ==> '0' <= #[trigger] s[i] <= '9'
}

/// The canonical decimal digit string of a non-negative integer.
pub open spec fn dec_digits(n: nat) -> Seq<char>
    decreases n,
{
    if n < 10 {
        seq![digit_char(n as int)]
    } else {
        dec_digits(n / 10).push(digit_char((n % 10) as int))
    }
}

/// The integer value of a digit string, most significant digit first.
pub open spec fn dec_val(s: Seq<char>) -> int
    decreases s.len(),
{
    if s.len() == 0 {
        0
    } else {
        dec_val(s.drop_last()) * 10 + digit_val(s.last())
    }
}

/// The canonical rendering of a signed integer.
pub open spec fn int_repr(n: int) -> Seq<char> {
    if n < 0 {
        seq!['-'] + dec_digits((-n) as nat)
    } else {
        dec_digits(n as nat)
    }
}

/// What parsing a (possibly signed) decimal string yields: the sign is an
/// optional leading `-` or `+`, the rest must be one or more digits, and
/// the value must fit in a signed 64-bit integer.
pub open spec fn spec_parse_int(s: Seq<char>) -> Option<int> {
    let neg = s.len() > 0 && s[0] == '-';
    let ds = if s.len() > 0 && (s[0] == '-' || s[0] == '+') {
        s.subrange(1, s.len() as int)
    } else {
        s
    };
    if ds.len() == 0 || !is_digit_seq(ds) {
        None
    } else {
        let v = if neg {
            -dec_val(ds)
        } else {
            dec_val(ds)
        };
        if i64::MIN <= v <= i64::MAX {
            Some(v)
        } else {
            None
        }
    }
}

/// The rendering of an id with its one-letter prefix.
pub open spec fn id_repr(prefix: char, n: int) -> Seq<char> {
    seq![prefix] + int_repr(n)
}

/// What parsing an id string yields: the prefix must match, and the rest
/// must parse as a signed 64-bit decimal integer.
pub open spec fn spec_parse_id(prefix: char, s: Seq<char>) -> Option<int> {
    if s.len() == 0 || s[0] != prefix {
        None
    } else {
        spec_parse_int(s.subrange(1, s.len() as int))
    }
}

/// Every canonical digit string consists of digit characters only.
pub proof fn lemma_dec_digits_are_digits(n: nat)
    ensures
        dec_digits(n).len() >= 1,
        is_digit_seq(dec_digits(n)),
    decreases n,
{
    if n < 10 {
        assert(digit_char(n as int) as int == n + 48);
    } else {
        lemma_dec_digits_are_digits(n / 10);
        assert(digit_char((n % 10) as int) as int == (n % 10) + 48);
    }
}

/// The value of a digit string is non-negative.
pub proof fn lemma_dec_val_nonneg(s: Seq<char>)
    requires
        is_digit_seq(s),
    ensures
        dec_val(s) >= 0,
    decreases s.len(),
{
    if s.len() > 0 {
        assert(is_digit_seq(s.drop_last()));
        lemma_dec_val_nonneg(s.drop_last());
    }
}

/// Reading back the canonical digit string of `n` yields `n`.
pub proof fn lemma_dec_val_of_digits(n: nat)
    ensures
        dec_val(dec_digits(n)) == n,
    decreases n,
{
    if n < 10 {
        let s = dec_digits(n);
        assert(s =~= seq![digit_char(n as int)]);
        assert(s.drop_last() =~= Seq::<char>::empty());
        assert(dec_val(s.drop_last()) == 0);
        assert(digit_val(s.last()) == n);
        assert(dec_val(s) == dec_val(s.drop_last()) * 10 + digit_val(s.last()));
    } else {
        lemma_dec_val_of_digits(n / 10);
        let s = dec_digits(n);
        assert(s =~= dec_digits(n / 10).push(digit_char((n % 10) as int)));
        assert(s.drop_last() =~= dec_digits(n / 10));
        assert(digit_val(s.last()) == n % 10);
        assert(dec_val(s) == dec_val(s.drop_last()) * 10 + digit_val(s.last()));
        assert(dec_val(s) == (n / 10) * 10 + (n % 10));
    }
}

/// Round trip for typed ids: parsing the rendering of any id, under the
/// same prefix, yields that id back.
pub proof fn lemma_id_round_trip(prefix: char, n: i64)
    ensures
        spec_parse_id(prefix, id_repr(prefix, n as int)) == Some(n as int),
{
    let s = id_repr(prefix, n as int);
    let mag: nat = if n < 0 { (-(n as int)) as nat } else { n as nat };
    lemma_dec_digits_are_digits(mag);
    lemma_dec_val_nonneg(dec_digits(mag));
    lemma_dec_val_of_digits(mag);
    assert(s[0] == prefix);
    let rest = s.subrange(1, s.len() as int);
    if n < 0 {
        assert(rest[0] == '-');
        let ds = rest.subrange(1, rest.len() as int);
        assert(ds =~= dec_digits(mag));
    } else {
        assert(rest =~= dec_digits(mag));
        assert(rest[0] as int >= 48 && rest[0] as int <= 57);
        assert(rest[0] != '-' && rest[0] != '+');
    }
}

/// The decimal digit character of `d` as a one-character string slice.
fn digit_str(d: u64) -> (r: &'static str)
    requires
        d < 10,
    ensures
        r@ =~= seq![digit_char(d as int)],
{
    proof {
        reveal_strlit("0");
        reveal_strlit("1");
        reveal_strlit("2");
        reveal_strlit("3");
        reveal_strlit("4");
        reveal_strlit("5");
        reveal_strlit("6");
        reveal_strlit("7");
        reveal_strlit("8");
        reveal_strlit("9");
    }
    if d == 0 {
        "0"
    } else if d == 1 {
        "1"
    } else if d == 2 {
        "2"
    } else if d == 3 {
        "3"
    } else if d == 4 {
        "4"
    } else if d == 5 {
        "5"
    } else if d == 6 {
        "6"
    } else if d == 7 {
        "7"
    } else if d == 8 {
        "8"
    } else {
        "9"
    }
}

/// The canonical decimal rendering of a non-negative integer.
pub fn render_uint(n: u64) -> (r: String)
    ensures
        r@ == dec_digits(n as nat),
    decreases n,
{
    if n < 10 {
        String::from_str(digit_str(n))
    } else {
        let mut s = render_uint(n / 10);
        s.append(digit_str(n % 10));
        proof {
            assert(s@ =~= dec_digits(n as nat));
        }
        s
    }
}

/// Parses the characters of `s` from position `from` onward as a signed
/// decimal 64-bit integer: an optional `-` or `+` sign, then one or more
/// digits, rejecting values outside the 64-bit range.
#[verifier::loop_isolation(false)]
pub fn parse_int_from(s: &str, from: usize) -> (r: Result<i64, InvalidIdError>)
    requires
        from <= s@.len(),
    ensures
        match r {
            Ok(v) => spec_parse_int(s@.subrange(from as int, s@.len() as int)) == Some(v as int),
            Err(_) => spec_parse_int(s@.subrange(from as int, s@.len() as int)) is None,
        },
{
    let ghost t = s@.subrange(from as int, s@.len() as int);
    let len = s.unicode_len();
    if from == len {
        return Err(InvalidIdError);
    }
    let c0 = s.get_char(from);
    let neg = c0 == '-';
    let signed = neg || c0 == '+';
    let start = if signed { from + 1 } else { from };
    proof {
        if signed {
            assert(t.subrange(1, t.len() as int) =~= s@.subrange(start as int, len as int));
        } else {
            assert(t =~= s@.subrange(start as int, len as int));
        }
    }
    if start == len {
        return Err(InvalidIdError);
    }
    let ghost ds = s@.subrange(start as int, len as int);
    let limit: u64 = if neg {
        9223372036854775808
    } else {
        9223372036854775807
    };
    let mut acc: u64 = 0;
    let mut too_big = false;
    let mut i = start;
    while i < len
        invariant
            start <= i <= len,
            len == s@.len(),
            start < len,
            ds == s@.subrange(start as int, len as int),
            is_digit_seq(s@.subrange(start as int, i as int)),
            limit == if neg { 9223372036854775808u64 } else { 9223372036854775807u64 },
            !too_big ==> acc <= limit && acc as int == dec_val(
                s@.subrange(start as int, i as int),
            ),
            too_big ==> dec_val(s@.subrange(start as int, i as int)) > limit,
        decreases len - i,
    {
        let c = s.get_char(i);
        let cv = c as u32;
        if cv < 48 || cv > 57 {
            proof {
                assert(ds[i - start] == c);
                assert(c as int == cv as int);
                assert('0' as int == 48 && '9' as int == 57);
                assert(!('0' <= ds[i - start] <= '9'));
                assert(!is_digit_seq(ds));
                assert(spec_parse_int(t) is None);
            }
            return Err(InvalidIdError);
        }
        let d: u64 = (cv - 48) as u64;
        let ghost prefix = s@.subrange(start as int, i as int);
        let ghost next = s@.subrange(start as int, i as int + 1);
        proof {
            assert(next =~= prefix.push(c));
            assert(next.drop_last() =~= prefix);
            assert(is_digit_seq(prefix));
            lemma_dec_val_nonneg(prefix);
            assert(dec_val(next) == dec_val(prefix) * 10 + digit_val(c));
            assert(digit_val(c) == d);
        }
        if too_big {
            proof {
                assert(dec_val(prefix) > limit);
                assert(dec_val(next) >= dec_val(prefix) * 10);
                assert(dec_val(prefix) * 10 >= dec_val(prefix)) by (nonlinear_arith)
                    requires
                        dec_val(prefix) > 0,
                ;
            }
        } else if acc > limit / 10 || (acc == limit / 10 && d > limit % 10) {
            proof {
                assert((limit / 10) * 10 + limit % 10 == limit);
                if acc > limit / 10 {
                    assert(acc * 10 >= (limit / 10 + 1) * 10) by (nonlinear_arith)
                        requires
                            acc >= limit / 10 + 1,
                    ;
                    assert((limit / 10 + 1) * 10 == (limit / 10) * 10 + 10);
                    assert(dec_val(next) > limit);
                } else {
                    assert(dec_val(next) == (limit / 10) * 10 + d);
                    assert(dec_val(next) > limit);
                }
            }
            too_big = true;
        } else {
            proof {
                assert((limit / 10) * 10 + limit % 10 == limit);
                if acc < limit / 10 {
                    assert(acc * 10 <= (limit / 10 - 1) * 10) by (nonlinear_arith)
                        requires
                            acc <= limit / 10 - 1,
                    ;
                    assert((limit / 10 - 1) * 10 == (limit / 10) * 10 - 10);
                    assert(acc * 10 + d <= limit);
                } else {
                    assert(acc * 10 + d <= limit);
                }
            }
            acc = acc * 10 + d;
        }
        i = i + 1;
    }
    proof {
        assert(s@.subrange(start as int, i as int) == ds);
        assert(is_digit_seq(ds));
        lemma_dec_val_nonneg(ds);
        assert(ds[0] as int >= 48);
        assert(ds[0] != '-' && ds[0] != '+');
        if !signed {
            assert(t == ds);
            assert(t[0] != '-' && t[0] != '+');
        } else {
            assert(t[0] == c0);
        }
    }
    if too_big {
        return Err(InvalidIdError);
    }
    proof {
        assert(acc as int == dec_val(ds));
        if neg {
            assert(t[0] == '-');
            assert(spec_parse_int(t) == Some(-dec_val(ds)));
        } else {
            assert(t[0] != '-');
            assert(spec_parse_int(t) == Some(dec_val(ds)));
        }
    }
    if neg {
        if acc == 9223372036854775808 {
            Ok(i64::MIN)
        } else {
            Ok(-(acc as i64))
        }
    } else {
        Ok(acc as i64)
    }
}

/// The canonical decimal rendering of a signed integer.
pub fn render_int(n: i64) -> (r: String)
    ensures
        r@ == int_repr(n as int),
{
    if n >= 0 {
        render_uint(n as u64)
    } else {
        let mag: u64 = ((-(n + 1)) as u64) + 1;
        assert(mag as int == -(n as int));
        let mut s = String::from_str("-");
        proof {
            reveal_strlit("-");
        }
        s.append(render_uint(mag).as_str());
        proof {
            assert(s@ =~= int_repr(n as int));
        }
        s
    }
}

/// Renders an id: the one-letter prefix followed by the decimal value.
pub fn render_id(prefix: &str, n: i64) -> (r: String)
    requires
        prefix@.len() == 1,
    ensures
        r@ == id_repr(prefix@[0], n as int),
{
    let mut s = String::from_str(prefix);
    let digits = render_int(n);
    s.append(digits.as_str());
    proof {
        assert(s@ =~= id_repr(prefix@[0], n as int));
    }
    s
}

/// Parses an id: the one-letter prefix must match, and the rest must be a
/// signed decimal 64-bit integer.
pub fn parse_id(prefix: &str, s: &str) -> (r: Result<i64, InvalidIdError>)
    requires
        prefix@.len() == 1,
    ensures
        match r {
            Ok(v) => spec_parse_id(prefix@[0], s@) == Some(v as int),
            Err(_) => spec_parse_id(prefix@[0], s@) is None,
        },
{
    if s.unicode_len() == 0 {
        return Err(InvalidIdError);
    }
    if s.get_char(0) != prefix.get_char(0) {
        return Err(InvalidIdError);
    }
    parse_int_from(s, 1)
}

/// User id, rendered with prefix `u`.
#[derive(Debug, Clone, Copy, PartialEq, Eq, Hash, PartialOrd, Ord, Structural)]
pub struct UserId(pub i64);

impl UserId {
    /// The user-visible rendering, e.g. `u42`.
    pub fn format(self) -> (r: String)
        ensures
            r@ == id_repr('u', self.0 as int),
    {
        proof {
            reveal_strlit("u");
        }
        render_id("u", self.0)
    }

    /// Parses a rendering back to the id.
    pub fn parse(s: &str) -> (r: Result<UserId, InvalidIdError>)
        ensures
            match r {
                Ok(id) => spec_parse_id('u', s@) == Some(id.0 as int),
                Err(_) => spec_parse_id('u', s@) is None,
            },
    {
        proof {
            reveal_strlit("u");
        }
        match parse_id("u", s) {
            Ok(v) => Ok(UserId(v)),
            Err(e) => Err(e),
        }
    }
}

/// Game id, rendered with prefix `g`.
#[derive(Debug, Clone, Copy, PartialEq, Eq, Hash, PartialOrd, Ord, Structural)]
pub struct GameId(pub i64);

impl GameId {
    /// The user-visible rendering, e.g. `g42`.
    pub fn format(self) -> (r: String)
        ensures
            r@ == id_repr('g', self.0 as int),
    {
        proof {
            reveal_strlit("g");
        }
        render_id("g", self.0)
    }

    /// Parses a rendering back to the id.
    pub fn parse(s: &str) -> (r: Result<GameId, InvalidIdError>)
        ensures
            match r {
                Ok(id) => spec_parse_id('g', s@) == Some(id.0 as int),
                Err(_) => spec_parse_id('g', s@) is None,
            },
    {
        proof {
            reveal_strlit("g");
        }
        match parse_id("g", s) {
            Ok(v) => Ok(GameId(v)),
            Err(e) => Err(e),
        }
    }
}

/// Game proposal id, rendered with prefix `p`.
#[derive(Debug, Clone, Copy, PartialEq, Eq, Hash, PartialOrd, Ord, Structural)]
pub struct GameProposalId(pub i64);

impl GameProposalId {
    /// The user-visible rendering, e.g. `p42`.
    pub fn format(self) -> (r: String)
        ensures
            r@ == id_repr('p', self.0 as int),
    {
        proof {
            reveal_strlit("p");
        }
        render_id("p", self.0)
    }

    /// Parses a rendering back to the id.
    pub fn parse(s: &str) -> (r: Result<GameProposalId, InvalidIdError>)
        ensures
            match r {
                Ok(id) => spec_parse_id('p', s@) == Some(id.0 as int),
                Err(_) => spec_parse_id('p', s@) is None,
            },
    {
        proof {
            reveal_strlit("p");
        }
        match parse_id("p", s) {
            Ok(v) => Ok(GameProposalId(v)),
            Err(e) => Err(e),
        }
    }
}

/// Session id, rendered with prefix `s`.
#[derive(Debug, Clone, Copy, PartialEq, Eq, Hash, PartialOrd, Ord, Structural)]
pub struct SessionId(pub i64);

impl SessionId {
    /// The user-visible rendering, e.g. `s42`.
    pub fn format(self) -> (r: String)
        ensures
            r@ == id_repr('s', self.0 as int),
    {
        proof {
            reveal_strlit("s");
        }
        render_id("s", self.0)
    }

    /// Parses a rendering back to the id.
    pub fn parse(s: &str) -> (r: Result<SessionId, InvalidIdError>)
        ensures
            match r {
                Ok(id) => spec_parse_id('s', s@) == Some(id.0 as int),
                Err(_) => spec_parse_id('s', s@) is None,
            },
    {
        proof {
            reveal_strlit("s");
        }
        match parse_id("s", s) {
            Ok(v) => Ok(SessionId(v)),
            Err(e) => Err(e),
        }
    }
}

/// Request id, rendered with prefix `r`.
#[derive(Debug, Clone, Copy, PartialEq, Eq, Hash, PartialOrd, Ord, Structural)]
pub struct RequestId(pub i64);

impl RequestId {
    /// The user-visible rendering, e.g. `r42`.
    pub fn format(self) -> (r: String)
        ensures
            r@ == id_repr('r', self.0 as int),
    {
        proof {
            reveal_strlit("r");
        }
        render_id("r", self.0)
    }

    /// Parses a rendering back to the id.
    pub fn parse(s: &str) -> (r: Result<RequestId, InvalidIdError>)
        ensures
            match r {
                Ok(id) => spec_parse_id('r', s@) == Some(id.0 as int),
                Err(_) => spec_parse_id('r', s@) is None,
            },
    {
        proof {
            reveal_strlit("r");
        }
        match parse_id("r", s) {
            Ok(v) => Ok(RequestId(v)),
            Err(e) => Err(e),
        }
    }
}

/// Message id, rendered with prefix `m`.
#[derive(Debug, Clone, Copy, PartialEq, Eq, Hash, PartialOrd, Ord, Structural)]
pub struct MessageId(pub i64);

impl MessageId {
    /// The user-visible rendering, e.g. `m42`.
    pub fn format(self) -> (r: String)
        ensures
            r@ == id_repr('m', self.0 as int),
    {
        proof {
            reveal_strlit("m");
        }
        render_id("m", self.0)
    }

    /// Parses a rendering back to the id.
    pub fn parse(s: &str) -> (r: Result<MessageId, InvalidIdError>)
        ensures
            match r {
                Ok(id) => spec_parse_id('m', s@) == Some(id.0 as int),
                Err(_) => spec_parse_id('m', s@) is None,
            },
    {
        proof {
            reveal_strlit("m");
        }
        match parse_id("m", s) {
            Ok(v) => Ok(MessageId(v)),
            Err(e) => Err(e),
        }
    }
}

/// Group id, rendered with prefix `o`.
#[derive(Debug, Clone, Copy, PartialEq, Eq, Hash, PartialOrd, Ord, Structural)]
pub struct GroupId(pub i64);

impl GroupId {
    /// The user-visible rendering, e.g. `o42`.
    pub fn format(self) -> (r: String)
        ensures
            r@ == id_repr('o', self.0 as int),
    {
        proof {
            reveal_strlit("o");
        }
        render_id("o", self.0)
    }

    /// Parses a rendering back to the id.
    pub fn parse(s: &str) -> (r: Result<GroupId, InvalidIdError>)
        ensures
            match r {
                Ok(id) => spec_parse_id('o', s@) == Some(id.0 as int),
                Err(_) => spec_parse_id('o', s@) is None,
            },
    {
        proof {
            reveal_strlit("o");
        }
        match parse_id("o", s) {
            Ok(v) => Ok(GroupId(v)),
            Err(e) => Err(e),
        }
    }
}

} // verus!
