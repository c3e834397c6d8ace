use vstd::prelude::*;
use vstd::string::*;

verus! {

/// The hardened flag of a BIP32 child number.
pub const HARDENED: u32 = 0x8000_0000;

/// The BIP44 purpose level.
pub const BIP44_PURPOSE: u32 = 44;

/// A BIP44 path down to a coin, written `m/44'/<coin_type>'`.
#[derive(Clone, Copy, Debug, PartialEq, Eq, Structural)]
pub struct StandardHDPathToCoin {
    pub coin_type: u32,
}

pub open spec fn is_digit(c: char) -> bool {
    '0' <= c && c <= '9'
}

/// The value of a string of decimal digits.
pub open spec fn digits_value(d: Seq<char>) -> nat
    decreases d.len(),
{
    if d.len() == 0 {
        0
    } else {
        digits_value(d.drop_last()) * 10 + (d.last() as nat - '0' as nat) as nat
    }
}

pub open spec fn path_prefix() -> Seq<char> {
    seq!['m', '/', '4', '4', '\'', '/']
}

/// The digits between the prefix `m/44'/` and the final `'`.
pub open spec fn coin_digits(s: Seq<char>) -> Seq<char> {
    s.subrange(6, s.len() - 1)
}

/// The path that a string names: `m/44'/` then a non-empty run of decimal digits whose
/// value is a child index below the hardened flag, then `'`.
pub open spec fn parse_path_spec(s: Seq<char>) -> Option<StandardHDPathToCoin> {
    if s.len() >= 8 && s.subrange(0, 6) == path_prefix() && s.last() == '\''
        && (forall|i: int| 0 <= i < coin_digits(s).len() ==> is_digit(#[trigger] coin_digits(s)[i]))
        && digits_value(coin_digits(s)) < HARDENED {
        Some(StandardHDPathToCoin { coin_type: digits_value(coin_digits(s)) as u32 })
    } else {
        None
    }
}

/// The child numbers of the account key at `<path>/0'/0/0`: first account, external
/// chain, first address.
pub open spec fn account_path_spec(p: StandardHDPathToCoin) -> Seq<u32> {
    seq![(BIP44_PURPOSE + HARDENED) as u32, (p.coin_type + HARDENED) as u32, HARDENED, 0u32, 0u32]
}

impl StandardHDPathToCoin {
    /// Parses a path written `m/44'/<coin_type>'`.
    pub fn parse(s: &str) -> (r: Option<StandardHDPathToCoin>)
        ensures
            r == parse_path_spec(s@),
    {
        let n = s.unicode_len();
        if n < 8 || s.get_char(n - 1) != '\'' {
            return None;
        }
        let prefix = ['m', '/', '4', '4', '\'', '/'];
        let mut i: usize = 0;
        while i < 6
            invariant
                n == s@.len(),
                n >= 8,
                prefix@ == path_prefix(),
                i <= 6,
                forall|j: int| 0 <= j < i ==> #[trigger] s@[j] == path_prefix()[j],
            decreases 6 - i,
        {
            if s.get_char(i) != prefix[i] {
                assert(s@.subrange(0, 6)[i as int] != path_prefix()[i as int]);
                return None;
            }
            i = i + 1;
        }
        assert(s@.subrange(0, 6) =~= path_prefix());
        let ghost d = coin_digits(s@);
        let mut value: u64 = 0;
        let mut k: usize = 6;
        while k < n - 1
            invariant
                n == s@.len(),
                n >= 8,
                d == coin_digits(s@),
                6 <= k <= n - 1,
                forall|j: int| 0 <= j < k - 6 ==> is_digit(#[trigger] d[j]),
                value == digits_value(d.subrange(0, k - 6)),
                value < HARDENED,
            decreases n - 1 - k,
        {
            let c = s.get_char(k);
            assert(c == d[k - 6]);
            if !('0' <= c && c <= '9') {
                return None;
            }
            let next = value * 10 + (c as u64 - '0' as u64);
            assert(d.subrange(0, k - 6 + 1).drop_last() =~= d.subrange(0, k - 6));
            if next >= HARDENED as u64 {
                assert(d.subrange(0, k - 5).last() == c);
                assert(digits_value(d.subrange(0, k - 5)) == next);
                proof {
                    lemma_digits_value_grows(d, k - 5, d.len() as int);
                }
                assert(d.subrange(0, d.len() as int) =~= d);
                return None;
            }
            value = next;
            k = k + 1;
        }
        assert(d.subrange(0, k - 6) =~= d);
        Some(StandardHDPathToCoin { coin_type: value as u32 })
    }

    /// The child numbers of the account key below this path.
    pub fn account_path(&self) -> (r: Vec<u32>)
        requires
            self.coin_type < HARDENED,
        ensures
            r@ == account_path_spec(*self),
    {
        let v = vec![BIP44_PURPOSE + HARDENED, self.coin_type + HARDENED, HARDENED, 0u32, 0u32];
        assert(v@ =~= account_path_spec(*self));
        v
    }
}

/// A longer run of digits is worth at least as much as its start.
proof fn lemma_digits_value_grows(d: Seq<char>, a: int, b: int)
    requires
        0 <= a <= b <= d.len(),
    ensures
        digits_value(d.subrange(0, a)) <= digits_value(d.subrange(0, b)),
    decreases b - a,
{
    if a < b {
        lemma_digits_value_grows(d, a, b - 1);
        assert(d.subrange(0, b).drop_last() =~= d.subrange(0, b - 1));
    }
}

} // verus!
