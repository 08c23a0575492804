use vstd::prelude::*;

verus! {

/// A bridge amount: a 256-bit unsigned integer held as four 64-bit limbs,
/// least significant first. It is wide enough for either chain's native
/// width, and every operation on it is checked, so no amount arithmetic in a
/// scenario can overflow silently.
#[derive(Clone, Copy, Debug, PartialEq, Eq, Structural, Hash)]
pub struct AssetAmount {
    pub limb0: u64,
    pub limb1: u64,
    pub limb2: u64,
    pub limb3: u64,
}

/// One more than the largest value an `AssetAmount` can hold.
pub open spec fn amount_bound() -> nat {
    0x1_0000_0000_0000_0000_0000_0000_0000_0000_0000_0000_0000_0000_0000_0000_0000_0000nat
}

impl AssetAmount {
    /// The mathematical value of this amount.
    pub open spec fn value(self) -> nat {
        self.limb0 as nat
            + self.limb1 as nat * 0x1_0000_0000_0000_0000nat
            + self.limb2 as nat * 0x1_0000_0000_0000_0000_0000_0000_0000_0000nat
            + self.limb3 as nat
                * 0x1_0000_0000_0000_0000_0000_0000_0000_0000_0000_0000_0000_0000nat
    }

    /// Every representable amount lies below `amount_bound()`.
    pub proof fn lemma_value_bound(self)
        ensures
            self.value() < amount_bound(),
    {
    }

    /// Two amounts are structurally equal exactly when their values agree:
    /// the limb representation is unique.
    pub proof fn lemma_value_injective(self, other: AssetAmount)
        ensures
            (self.value() == other.value()) <==> (self == other),
    {
        if self.value() == other.value() {
            let a0 = self.limb0 as int;
            let a1 = self.limb1 as int;
            let a2 = self.limb2 as int;
            let a3 = self.limb3 as int;
            let b0 = other.limb0 as int;
            let b1 = other.limb1 as int;
            let b2 = other.limb2 as int;
            let b3 = other.limb3 as int;
            let k1 = (b1 - a1) + 0x1_0000_0000_0000_0000 * (b2 - a2)
                + 0x1_0000_0000_0000_0000_0000_0000_0000_0000 * (b3 - a3);
            assert(a0 - b0 == 0x1_0000_0000_0000_0000 * k1);
            assert(k1 == 0);
            assert(a0 == b0);
            let k2 = (b2 - a2) + 0x1_0000_0000_0000_0000 * (b3 - a3);
            assert(a1 - b1 == 0x1_0000_0000_0000_0000 * k2);
            assert(k2 == 0);
            assert(a1 == b1);
            assert(a2 - b2 == 0x1_0000_0000_0000_0000 * (b3 - a3));
            assert(a3 == b3);
            assert(a2 == b2);
        }
    }

    pub fn zero() -> (r: AssetAmount)
        ensures
            r.value() == 0,
    {
        AssetAmount { limb0: 0, limb1: 0, limb2: 0, limb3: 0 }
    }

    pub fn from_u64(x: u64) -> (r: AssetAmount)
        ensures
            r.value() == x,
    {
        AssetAmount { limb0: x, limb1: 0, limb2: 0, limb3: 0 }
    }

    pub fn is_zero(&self) -> (r: bool)
        ensures
            r == (self.value() == 0),
    {
        self.limb0 == 0 && self.limb1 == 0 && self.limb2 == 0 && self.limb3 == 0
    }

    /// The sum, or `None` when it does not fit in 256 bits.
    pub fn checked_add(&self, other: &AssetAmount) -> (r: Option<AssetAmount>)
        ensures
            match r {
                Some(s) => s.value() == self.value() + other.value(),
                None => self.value() + other.value() >= amount_bound(),
            },
    {
        let (r0, c1) = add_limb(self.limb0, other.limb0, 0);
        let (r1, c2) = add_limb(self.limb1, other.limb1, c1);
        let (r2, c3) = add_limb(self.limb2, other.limb2, c2);
        let (r3, c4) = add_limb(self.limb3, other.limb3, c3);
        let s = AssetAmount { limb0: r0, limb1: r1, limb2: r2, limb3: r3 };
        if c4 == 0 {
            Some(s)
        } else {
            None
        }
    }

    /// The difference, or `None` when `other` exceeds `self`.
    pub fn checked_sub(&self, other: &AssetAmount) -> (r: Option<AssetAmount>)
        ensures
            match r {
                Some(d) => {
                    &&& self.value() >= other.value()
                    &&& d.value() == self.value() - other.value()
                },
                None => self.value() < other.value(),
            },
    {
        let (r0, b1) = sub_limb(self.limb0, other.limb0, 0);
        let (r1, b2) = sub_limb(self.limb1, other.limb1, b1);
        let (r2, b3) = sub_limb(self.limb2, other.limb2, b2);
        let (r3, b4) = sub_limb(self.limb3, other.limb3, b3);
        let d = AssetAmount { limb0: r0, limb1: r1, limb2: r2, limb3: r3 };
        if b4 == 0 {
            Some(d)
        } else {
            None
        }
    }
}

/// The numeric value of a decimal digit byte; other bytes count zero.
pub open spec fn digit_val(c: u8) -> nat {
    if 0x30 <= c <= 0x39 {
        (c - 0x30) as nat
    } else {
        0
    }
}

/// Whether `s` is a nonempty run of decimal digit bytes.
pub open spec fn dec_digits(s: Seq<u8>) -> bool {
    s.len() > 0 && forall|i: int| 0 <= i < s.len() ==> 0x30 <= #[trigger] s[i] <= 0x39
}

/// The number written in decimal in `s`.
pub open spec fn dec_value(s: Seq<u8>) -> nat
    decreases s.len(),
{
    if s.len() == 0 {
        0
    } else {
        dec_value(s.drop_last()) * 10 + digit_val(s.last())
    }
}

/// A longer prefix of a byte run never has a smaller decimal value.
pub proof fn lemma_dec_value_monotonic(s: Seq<u8>, j: int, k: int)
    requires
        0 <= j <= k <= s.len(),
    ensures
        dec_value(s.take(j)) <= dec_value(s.take(k)),
    decreases k - j,
{
    if j < k {
        lemma_dec_value_monotonic(s, j, k - 1);
        assert(s.take(k).drop_last() =~= s.take(k - 1));
    }
}

/// Whether `c` spells a hexadecimal digit, in either letter case.
pub open spec fn is_hex_digit(c: u8) -> bool {
    (0x30 <= c <= 0x39) || (0x61 <= c <= 0x66) || (0x41 <= c <= 0x46)
}

/// The numeric value of a hexadecimal digit byte; other bytes count zero.
pub open spec fn hex_digit_val(c: u8) -> nat {
    if 0x30 <= c <= 0x39 {
        (c - 0x30) as nat
    } else if 0x61 <= c <= 0x66 {
        (c - 0x61 + 10) as nat
    } else if 0x41 <= c <= 0x46 {
        (c - 0x41 + 10) as nat
    } else {
        0
    }
}

/// Whether `s` is a nonempty run of hexadecimal digit bytes.
pub open spec fn hex_digits(s: Seq<u8>) -> bool {
    s.len() > 0 && forall|i: int| 0 <= i < s.len() ==> #[trigger] is_hex_digit(s[i])
}

/// The number written in hexadecimal in `s`.
pub open spec fn hex_value(s: Seq<u8>) -> nat
    decreases s.len(),
{
    if s.len() == 0 {
        0
    } else {
        hex_value(s.drop_last()) * 16 + hex_digit_val(s.last())
    }
}

/// A longer prefix of a byte run never has a smaller hexadecimal value.
pub proof fn lemma_hex_value_monotonic(s: Seq<u8>, j: int, k: int)
    requires
        0 <= j <= k <= s.len(),
    ensures
        hex_value(s.take(j)) <= hex_value(s.take(k)),
    decreases k - j,
{
    if j < k {
        lemma_hex_value_monotonic(s, j, k - 1);
        assert(s.take(k).drop_last() =~= s.take(k - 1));
    }
}

/// Whether a wire amount is written in hexadecimal: a "0x" prefix.
pub open spec fn has_hex_prefix(s: Seq<u8>) -> bool {
    s.len() >= 2 && s[0] == 0x30 && s[1] == 0x78
}

/// Whether `s` is a well-formed wire amount: a decimal digit run, or a
/// hexadecimal digit run under a "0x" prefix.
pub open spec fn amount_wire_ok(s: Seq<u8>) -> bool {
    if has_hex_prefix(s) {
        hex_digits(s.skip(2))
    } else {
        dec_digits(s)
    }
}

/// The number a well-formed wire amount denotes.
pub open spec fn amount_wire_value(s: Seq<u8>) -> nat {
    if has_hex_prefix(s) {
        hex_value(s.skip(2))
    } else {
        dec_value(s)
    }
}

impl AssetAmount {
    /// Ten times this amount plus one digit, or `None` when the result
    /// leaves 256 bits.
    pub fn mul10_add(&self, digit: u64) -> (r: Option<AssetAmount>)
        requires
            digit <= 9,
        ensures
            match r {
                Some(s) => s.value() == self.value() * 10 + digit,
                None => self.value() * 10 + digit >= amount_bound(),
            },
    {
        let (r0, c1) = mul10_limb(self.limb0, digit);
        let (r1, c2) = mul10_limb(self.limb1, c1);
        let (r2, c3) = mul10_limb(self.limb2, c2);
        let (r3, c4) = mul10_limb(self.limb3, c3);
        let s = AssetAmount { limb0: r0, limb1: r1, limb2: r2, limb3: r3 };
        if c4 == 0 {
            Some(s)
        } else {
            None
        }
    }

    /// Sixteen times this amount plus one hexadecimal digit, or `None`
    /// when the result leaves 256 bits.
    pub fn mul16_add(&self, digit: u64) -> (r: Option<AssetAmount>)
        requires
            digit <= 15,
        ensures
            match r {
                Some(s) => s.value() == self.value() * 16 + digit,
                None => self.value() * 16 + digit >= amount_bound(),
            },
    {
        let (r0, c1) = mul16_limb(self.limb0, digit);
        let (r1, c2) = mul16_limb(self.limb1, c1);
        let (r2, c3) = mul16_limb(self.limb2, c2);
        let (r3, c4) = mul16_limb(self.limb3, c3);
        let s = AssetAmount { limb0: r0, limb1: r1, limb2: r2, limb3: r3 };
        if c4 == 0 {
            Some(s)
        } else {
            None
        }
    }
}

/// Parse an amount from its decimal wire form: the value of a nonempty run
/// of digit bytes. Returns `None` on any other input, and on a value that
/// does not fit in 256 bits.
pub fn parse_dec_amount(s: &Vec<u8>) -> (r: Option<AssetAmount>)
    ensures
        match r {
            Some(a) => dec_digits(s@) && a.value() == dec_value(s@),
            None => !dec_digits(s@) || dec_value(s@) >= amount_bound(),
        },
{
    if s.len() == 0 {
        return None;
    }
    let mut acc = AssetAmount::zero();
    let mut i: usize = 0;
    while i < s.len()
        invariant
            0 <= i <= s@.len(),
            s@.len() > 0,
            acc.value() == dec_value(s@.take(i as int)),
            forall|j: int| 0 <= j < i ==> 0x30 <= #[trigger] s@[j] <= 0x39,
        decreases s@.len() - i,
    {
        let c = s[i];
        if c < 0x30 || c > 0x39 {
            return None;
        }
        let d = (c - 0x30) as u64;
        match acc.mul10_add(d) {
            Some(next) => {
                proof {
                    assert(s@.take(i as int + 1).drop_last() =~= s@.take(i as int));
                    assert(s@.take(i as int + 1).last() == s@[i as int]);
                }
                acc = next;
            },
            None => {
                proof {
                    assert(s@.take(i as int + 1).drop_last() =~= s@.take(i as int));
                    assert(s@.take(i as int + 1).last() == s@[i as int]);
                    lemma_dec_value_monotonic(s@, i as int + 1, s@.len() as int);
                    assert(s@.take(s@.len() as int) =~= s@);
                }
                return None;
            },
        }
        i = i + 1;
    }
    proof {
        assert(s@.take(s@.len() as int) =~= s@);
    }
    Some(acc)
}

/// Parse an amount from a nonempty run of hexadecimal digit bytes, in
/// either letter case. Returns `None` on any other input, and on a value
/// that does not fit in 256 bits.
pub fn parse_hex_amount(s: &Vec<u8>) -> (r: Option<AssetAmount>)
    ensures
        match r {
            Some(a) => hex_digits(s@) && a.value() == hex_value(s@),
            None => !hex_digits(s@) || hex_value(s@) >= amount_bound(),
        },
{
    if s.len() == 0 {
        return None;
    }
    let mut acc = AssetAmount::zero();
    let mut i: usize = 0;
    while i < s.len()
        invariant
            0 <= i <= s@.len(),
            s@.len() > 0,
            acc.value() == hex_value(s@.take(i as int)),
            forall|j: int| 0 <= j < i ==> #[trigger] is_hex_digit(s@[j]),
        decreases s@.len() - i,
    {
        let c = s[i];
        let d: u64 = if c >= 0x30 && c <= 0x39 {
            (c - 0x30) as u64
        } else if c >= 0x61 && c <= 0x66 {
            (c - 0x61 + 10) as u64
        } else if c >= 0x41 && c <= 0x46 {
            (c - 0x41 + 10) as u64
        } else {
            proof {
                assert(!is_hex_digit(s@[i as int]));
            }
            return None;
        };
        proof {
            assert(is_hex_digit(s@[i as int]));
            assert(d == hex_digit_val(s@[i as int]));
        }
        match acc.mul16_add(d) {
            Some(next) => {
                proof {
                    assert(s@.take(i as int + 1).drop_last() =~= s@.take(i as int));
                    assert(s@.take(i as int + 1).last() == s@[i as int]);
                }
                acc = next;
            },
            None => {
                proof {
                    assert(s@.take(i as int + 1).drop_last() =~= s@.take(i as int));
                    assert(s@.take(i as int + 1).last() == s@[i as int]);
                    lemma_hex_value_monotonic(s@, i as int + 1, s@.len() as int);
                    assert(s@.take(s@.len() as int) =~= s@);
                }
                return None;
            },
        }
        i = i + 1;
    }
    proof {
        assert(s@.take(s@.len() as int) =~= s@);
    }
    Some(acc)
}

/// Parse a wire amount the way the bridge's typed client reads one: as a
/// decimal number, or as a hexadecimal number under a "0x" prefix. Returns
/// `None` on any other input, and on a value that does not fit in 256
/// bits.
pub fn parse_amount_wire(s: &Vec<u8>) -> (r: Option<AssetAmount>)
    ensures
        match r {
            Some(a) => amount_wire_ok(s@) && a.value() == amount_wire_value(s@),
            None => !amount_wire_ok(s@) || amount_wire_value(s@) >= amount_bound(),
        },
{
    if s.len() >= 2 && s[0] == 0x30 && s[1] == 0x78 {
        let mut tail: Vec<u8> = Vec::new();
        let mut i: usize = 2;
        while i < s.len()
            invariant
                2 <= i <= s@.len(),
                s@.len() >= 2,
                tail@ == s@.subrange(2, i as int),
            decreases s@.len() - i,
        {
            let c = s[i];
            proof {
                assert(s@.subrange(2, i as int + 1) =~= s@.subrange(2, i as int).push(
                    s@[i as int],
                ));
            }
            tail.push(c);
            i = i + 1;
        }
        proof {
            assert(tail@ =~= s@.skip(2));
        }
        parse_hex_amount(&tail)
    } else {
        parse_dec_amount(s)
    }
}

/// One limb of the times-sixteen step: returns the low 64 bits of
/// `a * 16 + carry_in` and the carry out.
fn mul16_limb(a: u64, cin: u64) -> (r: (u64, u64))
    requires
        cin <= 15,
    ensures
        r.0 + r.1 * 0x1_0000_0000_0000_0000 == a * 16 + cin,
        r.1 <= 15,
{
    let t: u128 = a as u128 * 16 + cin as u128;
    proof {
        assert(t == 0x1_0000_0000_0000_0000u128 * (t / 0x1_0000_0000_0000_0000u128) + t
            % 0x1_0000_0000_0000_0000u128) by (nonlinear_arith);
        assert(t / 0x1_0000_0000_0000_0000u128 <= 15) by (nonlinear_arith)
            requires
                t < 16 * 0x1_0000_0000_0000_0000u128,
        ;
    }
    ((t % 0x1_0000_0000_0000_0000u128) as u64, (t / 0x1_0000_0000_0000_0000u128) as u64)
}

/// One limb of the times-ten step: returns the low 64 bits of
/// `a * 10 + carry_in` and the carry out.
fn mul10_limb(a: u64, cin: u64) -> (r: (u64, u64))
    requires
        cin <= 9,
    ensures
        r.0 + r.1 * 0x1_0000_0000_0000_0000 == a * 10 + cin,
        r.1 <= 9,
{
    let t: u128 = a as u128 * 10 + cin as u128;
    proof {
        assert(t == 0x1_0000_0000_0000_0000u128 * (t / 0x1_0000_0000_0000_0000u128) + t
            % 0x1_0000_0000_0000_0000u128) by (nonlinear_arith);
        assert(t / 0x1_0000_0000_0000_0000u128 <= 9) by (nonlinear_arith)
            requires
                t < 10 * 0x1_0000_0000_0000_0000u128,
        ;
    }
    ((t % 0x1_0000_0000_0000_0000u128) as u64, (t / 0x1_0000_0000_0000_0000u128) as u64)
}

/// One limb of a carrying addition: returns the low 64 bits of
/// `a + b + carry_in` and the carry out.
fn add_limb(a: u64, b: u64, cin: u64) -> (r: (u64, u64))
    requires
        cin <= 1,
    ensures
        r.0 + r.1 * 0x1_0000_0000_0000_0000 == a + b + cin,
        r.1 <= 1,
{
    let t: u128 = a as u128 + b as u128 + cin as u128;
    if t >= 0x1_0000_0000_0000_0000u128 {
        ((t - 0x1_0000_0000_0000_0000u128) as u64, 1)
    } else {
        (t as u64, 0)
    }
}

/// One limb of a borrowing subtraction: returns the low 64 bits of
/// `a - b - borrow_in` and the borrow out.
fn sub_limb(a: u64, b: u64, bin: u64) -> (r: (u64, u64))
    requires
        bin <= 1,
    ensures
        r.0 - r.1 * 0x1_0000_0000_0000_0000 == a - b - bin,
        r.1 <= 1,
{
    let t: u128 = 0x1_0000_0000_0000_0000u128 + a as u128 - b as u128 - bin as u128;
    if t >= 0x1_0000_0000_0000_0000u128 {
        ((t - 0x1_0000_0000_0000_0000u128) as u64, 0)
    } else {
        (t as u64, 1)
    }
}

} // verus!
