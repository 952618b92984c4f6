//! How the server names new rooms.

use vstd::prelude::*;
use rand::Rng;
#[allow(unused_imports)]
use vstd::string::{StrSliceExecFns, StringExecFns};

verus! {

/// Makes a fresh room id.
pub trait RoomIdGenerator {
    fn generate(&self) -> String;
}

/// Room ids of a fixed number of capital letters from `A` to `Y`.
pub struct ShortRoomIdGenerator(pub usize);

/// Room ids that are random (version 4) UUIDs.
pub struct UuidRoomIdGenerator;

/// Whether a character is one of the letters of a short room id.
pub open spec fn is_short_id_letter(c: char) -> bool {
    65 <= (c as u32) && (c as u32) < 90
}

/// Relies on rand's `Uniform::from('A'..'Z')` over the thread-local
/// generator: each character is drawn from the half-open range `'A'..'Z'`,
/// and `take(n)` keeps `n` of them.
#[verifier::external_body]
fn random_letters(n: usize) -> (r: String)
    ensures
        r@.len() == n,
        forall|i: int| 0 <= i < r@.len() ==> is_short_id_letter(#[trigger] r@[i]),
{
    rand::thread_rng().sample_iter(&rand::distributions::Uniform::from('A'..'Z')).take(n).collect()
}

/// Whether a character is a lowercase hexadecimal digit.
pub open spec fn is_lower_hex(c: char) -> bool {
    (48 <= (c as u32) && (c as u32) <= 57) || (97 <= (c as u32) && (c as u32) <= 102)
}

/// Whether `s` is the hyphenated lowercase text of a version 4 (random),
/// RFC 4122 variant UUID: 36 characters, `-` at 8, 13, 18 and 23, hex digits
/// elsewhere, `4` at 14 and one of `8`, `9`, `a`, `b` at 19.
pub open spec fn is_v4_uuid_text(s: Seq<char>) -> bool {
    &&& s.len() == 36
    &&& s[8] == '-' && s[13] == '-' && s[18] == '-' && s[23] == '-'
    &&& forall|i: int|
        0 <= i < 36 && i != 8 && i != 13 && i != 18 && i != 23 ==> is_lower_hex(#[trigger] s[i])
    &&& s[14] == '4'
    &&& (s[19] == '8' || s[19] == '9' || s[19] == 'a' || s[19] == 'b')
}

/// Relies on uuid's `Uuid::new_v4`, which sets the version nibble to 4 and
/// the variant bits to `10`, and on its `Display`, which writes the
/// hyphenated lowercase form.
#[verifier::external_body]
fn random_uuid() -> (r: String)
    ensures
        is_v4_uuid_text(r@),
{
    uuid::Uuid::new_v4().to_string()
}

impl ShortRoomIdGenerator {
    /// A fresh id of `self.0` letters.
    pub fn generate_id(&self) -> (r: String)
        ensures
            r@.len() == self.0,
            forall|i: int| 0 <= i < r@.len() ==> is_short_id_letter(#[trigger] r@[i]),
    {
        random_letters(self.0)
    }
}

impl UuidRoomIdGenerator {
    /// A fresh random UUID in hyphenated lowercase form.
    pub fn generate_id(&self) -> (r: String)
        ensures
            is_v4_uuid_text(r@),
    {
        random_uuid()
    }
}

impl RoomIdGenerator for ShortRoomIdGenerator {
    fn generate(&self) -> String {
        self.generate_id()
    }
}

impl RoomIdGenerator for UuidRoomIdGenerator {
    fn generate(&self) -> String {
        self.generate_id()
    }
}

/// A generator that the server can be told to use.
#[derive(Clone, Copy, Debug, PartialEq, Eq, Structural)]
pub enum GeneratorKind {
    /// Short ids of this many letters.
    Short(usize),
    Uuid,
}

/// How room ids are assigned.
#[derive(Clone, Copy, Debug, PartialEq, Eq, Structural)]
pub enum RoomIdStrategy {
    /// A client names the room when it connects; new rooms get UUIDs.
    Implicit,
    /// Rooms are created through the API only.
    Explicit,
    /// The server hosts a single room.
    Singleton,
    /// New rooms get ids from a generator.
    Generator(GeneratorKind),
}

/// A strategy name that is none of `singleton`, `short`, `short<n>`, `uuid`,
/// `api` and `implicit`.
#[derive(Clone, Debug)]
pub struct BadGeneratorName(pub String);

pub open spec fn is_digit(c: char) -> bool {
    48 <= (c as u32) && (c as u32) <= 57
}

pub open spec fn all_digits(s: Seq<char>) -> bool {
    forall|i: int| 0 <= i < s.len() ==> is_digit(#[trigger] s[i])
}

/// The value of a string of decimal digits.
pub open spec fn digits_value(s: Seq<char>) -> int
    decreases s.len(),
{
    if s.len() == 0 {
        0
    } else {
        10 * digits_value(s.drop_last()) + (s.last() as u32 - 48)
    }
}

/// What `usize`'s `FromStr` reads from `s`: an optional `+`, then at least
/// one decimal digit, with a value that fits.
pub open spec fn usize_text(s: Seq<char>) -> Option<int> {
    let d = if s.len() > 0 && s[0] == '+' {
        s.drop_first()
    } else {
        s
    };
    if d.len() > 0 && all_digits(d) && digits_value(d) <= usize::MAX {
        Some(digits_value(d))
    } else {
        None
    }
}

proof fn lemma_value_nonneg(s: Seq<char>)
    requires
        all_digits(s),
    ensures
        digits_value(s) >= 0,
    decreases s.len(),
{
    if s.len() > 0 {
        lemma_value_nonneg(s.drop_last());
    }
}

proof fn lemma_prefix_value_le(s: Seq<char>, k: int)
    requires
        all_digits(s),
        0 <= k <= s.len(),
    ensures
        digits_value(s.take(k)) <= digits_value(s),
    decreases s.len(),
{
    if k == s.len() {
        assert(s.take(k) =~= s);
    } else {
        let t = s.drop_last();
        assert(t.take(k) =~= s.take(k));
        lemma_prefix_value_le(t, k);
        lemma_value_nonneg(t);
    }
}

/// Reads a `usize` from the characters of `s` from `from` on.
fn parse_usize(s: &str, from: usize) -> (r: Option<usize>)
    requires
        from <= s@.len(),
    ensures
        r is Some <==> usize_text(s@.subrange(from as int, s@.len() as int)) is Some,
        r is Some ==> r->Some_0 as int == usize_text(s@.subrange(from as int, s@.len() as int))->Some_0,
{
    let ghost t = s@.subrange(from as int, s@.len() as int);
    let n = s.unicode_len();
    let mut start = from;
    if from < n && s.get_char(from) == '+' {
        start = from + 1;
    }
    let ghost d = s@.subrange(start as int, n as int);
    assert(d =~= (if t.len() > 0 && t[0] == '+' { t.drop_first() } else { t }));
    if start == n {
        return None;
    }
    let mut v: usize = 0;
    let mut i: usize = start;
    while i < n
        invariant
            start <= i <= n,
            n == s@.len(),
            d == s@.subrange(start as int, n as int),
            from <= start,
            t == s@.subrange(from as int, s@.len() as int),
            d == (if t.len() > 0 && t[0] == '+' { t.drop_first() } else { t }),
            all_digits(d.take(i - start)),
            v as int == digits_value(d.take(i - start)),
        decreases n - i,
    {
        let c = s.get_char(i);
        let ghost k = (i - start) as int;
        assert(d.take(k + 1).drop_last() =~= d.take(k));
        if !((c as u32) >= 48 && (c as u32) <= 57) {
            assert(!all_digits(d) ) by {
                assert(d[k] == c);
            }
            return None;
        }
        let dig = (c as u32 - 48) as usize;
        if v > (usize::MAX - dig) / 10 {
            assert(v * 10 + dig > usize::MAX) by (nonlinear_arith)
                requires
                    v > (usize::MAX - dig) / 10,
                    dig <= 9,
            ;
            proof {
                if all_digits(d) {
                    lemma_prefix_value_le(d, k + 1);
                }
            }
            return None;
        }
        assert(v * 10 + dig <= usize::MAX) by (nonlinear_arith)
            requires
                v <= (usize::MAX - dig) / 10,
                dig <= 9,
        ;
        v = v * 10 + dig;
        i = i + 1;
        assert(all_digits(d.take(i - start))) by {
            assert forall|j: int| 0 <= j < d.take(i - start).len() implies is_digit(
                #[trigger] d.take(i - start)[j],
            ) by {
                if j < k {
                    assert(d.take(i - start)[j] == d.take(k)[j]);
                }
            }
        }
    }
    assert(d.take(n - start) =~= d);
    Some(v)
}

/// Whether `s` begins with `p`.
pub(crate) fn has_prefix(s: &str, p: &str) -> (r: bool)
    ensures
        r == (p@.len() <= s@.len() && s@.subrange(0, p@.len() as int) == p@),
{
    let n = s.unicode_len();
    let m = p.unicode_len();
    if m > n {
        return false;
    }
    let mut i: usize = 0;
    while i < m
        invariant
            i <= m <= n,
            n == s@.len(),
            m == p@.len(),
            s@.subrange(0, i as int) == p@.subrange(0, i as int),
        decreases m - i,
    {
        if s.get_char(i) != p.get_char(i) {
            assert(s@.subrange(0, m as int)[i as int] != p@[i as int]);
            return false;
        }
        i = i + 1;
        assert(s@.subrange(0, i as int) =~= p@.subrange(0, i as int)) by {
            assert(s@.subrange(0, (i - 1) as int) == p@.subrange(0, (i - 1) as int));
            assert forall|j: int| 0 <= j < i implies s@.subrange(0, i as int)[j] == p@.subrange(0, i as int)[j] by {
                if j < i - 1 {
                    assert(s@.subrange(0, (i - 1) as int)[j] == p@.subrange(0, (i - 1) as int)[j]);
                }
            }
        }
    }
    assert(p@.subrange(0, m as int) =~= p@);
    true
}

/// Whether `s` and `p` hold the same text.
pub(crate) fn same_text(s: &str, p: &str) -> (r: bool)
    ensures
        r == (s@ == p@),
{
    let n = s.unicode_len();
    let m = p.unicode_len();
    if n != m {
        return false;
    }
    let r = has_prefix(s, p);
    assert(s@.subrange(0, n as int) =~= s@);
    r
}

/// The strategy that a name selects, if any.
pub open spec fn strategy_named(s: Seq<char>) -> Option<RoomIdStrategy> {
    if s == "api"@ {
        Some(RoomIdStrategy::Explicit)
    } else if s == "implicit"@ {
        Some(RoomIdStrategy::Implicit)
    } else if s == "short"@ {
        Some(RoomIdStrategy::Generator(GeneratorKind::Short(4)))
    } else if s == "uuid"@ {
        Some(RoomIdStrategy::Generator(GeneratorKind::Uuid))
    } else if s == "singleton"@ {
        Some(RoomIdStrategy::Singleton)
    } else if "short"@.len() <= s.len() && s.subrange(0, "short"@.len() as int) == "short"@ {
        match usize_text(s.subrange("short"@.len() as int, s.len() as int)) {
            Some(n) => Some(RoomIdStrategy::Generator(GeneratorKind::Short(n as usize))),
            None => None,
        }
    } else {
        None
    }
}

impl RoomIdStrategy {
    /// Reads a strategy from its name: `api`, `implicit`, `short` (four
    /// letters), `short<n>`, `uuid` or `singleton`.
    pub fn from_str(s: &str) -> (r: Result<RoomIdStrategy, BadGeneratorName>)
        ensures
            r is Ok <==> strategy_named(s@) is Some,
            r is Ok ==> r->Ok_0 == strategy_named(s@)->Some_0,
            r is Err ==> r->Err_0.0@ == s@,
    {
        if same_text(s, "api") {
            Ok(RoomIdStrategy::Explicit)
        } else if same_text(s, "implicit") {
            Ok(RoomIdStrategy::Implicit)
        } else if same_text(s, "short") {
            Ok(RoomIdStrategy::Generator(GeneratorKind::Short(4)))
        } else if same_text(s, "uuid") {
            Ok(RoomIdStrategy::Generator(GeneratorKind::Uuid))
        } else if same_text(s, "singleton") {
            Ok(RoomIdStrategy::Singleton)
        } else if has_prefix(s, "short") {
            match parse_usize(s, "short".unicode_len()) {
                Some(n) => Ok(RoomIdStrategy::Generator(GeneratorKind::Short(n))),
                None => Err(BadGeneratorName(s.to_owned())),
            }
        } else {
            Err(BadGeneratorName(s.to_owned()))
        }
    }

    /// The id of a room created through the API: from the generator, a UUID
    /// under the implicit strategy, and `None` where the strategy creates no
    /// rooms this way.
    pub fn new_room_id(&self) -> (r: Option<String>)
        ensures
            r is Some <==> (self is Implicit || self is Generator),
            (*self == RoomIdStrategy::Implicit || *self == RoomIdStrategy::Generator(GeneratorKind::Uuid))
                ==> r is Some && is_v4_uuid_text(r->Some_0@),
            forall|n: usize| *self == RoomIdStrategy::Generator(GeneratorKind::Short(n)) ==> r is Some
                && r->Some_0@.len() == n && forall|i: int| 0 <= i < n ==> is_short_id_letter(#[trigger] r->Some_0@[i]),
    {
        match self {
            RoomIdStrategy::Generator(GeneratorKind::Short(n)) => Some(ShortRoomIdGenerator(*n).generate_id()),
            RoomIdStrategy::Generator(GeneratorKind::Uuid) => Some(UuidRoomIdGenerator.generate_id()),
            RoomIdStrategy::Implicit => Some(UuidRoomIdGenerator.generate_id()),
            _ => None,
        }
    }
}

impl BadGeneratorName {
    /// The message shown for the bad name.
    pub fn message(&self) -> (r: String)
        ensures
            r@ == "Bad room ID generator '"@ + self.0@
                + "', expected one of {singleton,short,uuid,api,implicit}."@,
    {
        let mut m = String::from_str("Bad room ID generator '");
        m.append(self.0.as_str());
        m.append("', expected one of {singleton,short,uuid,api,implicit}.");
        m
    }
}

impl std::str::FromStr for RoomIdStrategy {
    type Err = BadGeneratorName;

    fn from_str(s: &str) -> Result<Self, Self::Err> {
        RoomIdStrategy::from_str(s)
    }
}

} // verus!
