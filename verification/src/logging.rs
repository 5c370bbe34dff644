//! The diagnostic channel: newline-terminated, level-prefixed text lines.
//!
//! Two tiers, as the system has from its first instruction on: a
//! zero-dependency byte writer usable before anything else is up
//! ([`DebugSerial`]), and a buffered writer with a runtime enable switch
//! ([`SerialLogger`]). Both are modelled as owned state: they accumulate the
//! exact bytes that the platform's port writer will emit, so every line's
//! framing is pinned down here while the port access itself stays outside
//! the library.

use vstd::prelude::*;
use vstd::string::StringSliceAdditionalSpecFns;

verus! {

/// One hexadecimal digit, upper case, as its glyph byte.
pub open spec fn spec_hex_digit(d: u64) -> u8 {
    if d < 10 {
        (0x30 + d) as u8
    } else {
        (0x41 + (d - 10)) as u8
    }
}

/// The hexadecimal digits of `v`, most significant first, empty for 0.
pub open spec fn spec_hex_digits(v: u64) -> Seq<u8>
    decreases v,
{
    if v == 0 {
        Seq::empty()
    } else {
        spec_hex_digits(v / 16) + seq![spec_hex_digit(v % 16)]
    }
}

/// What the hexadecimal writer emits for `v`: its digits, or "0".
pub open spec fn spec_hex_bytes(v: u64) -> Seq<u8> {
    if v == 0 {
        seq![0x30u8]
    } else {
        spec_hex_digits(v)
    }
}

/// The decimal digits of `v`, most significant first, "0" for 0.
pub open spec fn spec_dec_bytes(v: u64) -> Seq<u8> {
    if v == 0 {
        seq![0x30u8]
    } else {
        spec_dec_digits(v)
    }
}

/// The decimal digits of `v`, most significant first, empty for 0.
pub open spec fn spec_dec_digits(v: u64) -> Seq<u8>
    decreases v,
{
    if v == 0 {
        Seq::empty()
    } else {
        spec_dec_digits(v / 10) + seq![(0x30 + v % 10) as u8]
    }
}

/// Renders `value` in hexadecimal, upper case, no prefix, "0" for zero.
pub fn hex_bytes(value: u64) -> (out: Vec<u8>)
    ensures
        out@ == spec_hex_bytes(value),
{
    if value == 0 {
        let mut out: Vec<u8> = Vec::new();
        out.push(0x30);
        proof {
            assert(out@ =~= spec_hex_bytes(0));
        }
        return out;
    }
    let mut buf: Vec<u8> = Vec::new();
    let mut k: usize = 0;
    while k < 16
        invariant
            k <= 16,
            buf.len() == k,
        decreases 16 - k,
    {
        buf.push(0);
        k += 1;
    }
    let mut i: usize = 16;
    let mut v: u64 = value;
    while v != 0
        invariant
            i <= 16,
            buf.len() == 16,
            spec_hex_digits(value) == spec_hex_digits(v) + buf@.subrange(i as int, 16),
            v != 0 ==> spec_hex_digits(v).len() >= 1,
            i as int >= 16 - spec_hex_digits(value).len() + spec_hex_digits(v).len(),
        decreases v,
    {
        proof {
            lemma_hex_digits_len(value);
            assert(spec_hex_digits(v).len() >= 1);
        }
        i = i - 1;
        let d = v % 16;
        let glyph: u8 = if d < 10 {
            0x30 + d as u8
        } else {
            0x41 + (d as u8 - 10)
        };
        buf.set(i, glyph);
        proof {
            assert(buf@.subrange(i as int, 16) =~= seq![spec_hex_digit(v % 16)] + buf@.subrange(
                i + 1,
                16,
            ));
        }
        v = v / 16;
    }
    let mut out: Vec<u8> = Vec::new();
    let mut j: usize = i;
    while j < 16
        invariant
            i <= j <= 16,
            buf.len() == 16,
            out@ == buf@.subrange(i as int, j as int),
        decreases 16 - j,
    {
        out.push(buf[j]);
        proof {
            assert(buf@.subrange(i as int, j + 1) =~= buf@.subrange(i as int, j as int).push(
                buf@[j as int],
            ));
        }
        j += 1;
    }
    proof {
        assert(out@ =~= spec_hex_digits(value));
    }
    out
}

/// The digit count of `v` in hexadecimal is at most 16.
proof fn lemma_hex_digits_len(v: u64)
    ensures
        spec_hex_digits(v).len() <= 16,
{
    assert(pow16(16) == 0x10000000000000000) by {
        reveal_with_fuel(pow16, 17);
    }
    lemma_hex_digits_len_bound(v, 16);
}

/// If `v` lies below the `k`-th power of sixteen, it has at most `k` digits.
proof fn lemma_hex_digits_len_bound(v: u64, k: nat)
    requires
        v < pow16(k),
    ensures
        spec_hex_digits(v).len() <= k,
    decreases k,
{
    if v != 0 {
        vstd::arithmetic::div_mod::lemma_multiply_divide_lt(
            v as int,
            16,
            pow16((k - 1) as nat),
        );
        lemma_hex_digits_len_bound(v / 16, (k - 1) as nat);
    }
}

/// Sixteen to the `k`-th power.
pub open spec fn pow16(k: nat) -> int
    decreases k,
{
    if k == 0 {
        1
    } else {
        16 * pow16((k - 1) as nat)
    }
}

/// Renders `value` in decimal, "0" for zero.
pub fn dec_bytes(value: u64) -> (out: Vec<u8>)
    ensures
        out@ == spec_dec_bytes(value),
{
    if value == 0 {
        let mut out: Vec<u8> = Vec::new();
        out.push(0x30);
        proof {
            assert(out@ =~= spec_dec_bytes(0));
        }
        return out;
    }
    let mut buf: Vec<u8> = Vec::new();
    let mut k: usize = 0;
    while k < 20
        invariant
            k <= 20,
            buf.len() == k,
        decreases 20 - k,
    {
        buf.push(0);
        k += 1;
    }
    let mut i: usize = 20;
    let mut v: u64 = value;
    while v != 0
        invariant
            i <= 20,
            buf.len() == 20,
            spec_dec_digits(value) == spec_dec_digits(v) + buf@.subrange(i as int, 20),
            i as int >= 20 - spec_dec_digits(value).len() + spec_dec_digits(v).len(),
        decreases v,
    {
        proof {
            lemma_dec_digits_len(value);
            assert(spec_dec_digits(v).len() >= 1);
        }
        i = i - 1;
        let glyph: u8 = 0x30 + (v % 10) as u8;
        buf.set(i, glyph);
        proof {
            assert(buf@.subrange(i as int, 20) =~= seq![(0x30 + v % 10) as u8] + buf@.subrange(
                i + 1,
                20,
            ));
        }
        v = v / 10;
    }
    let mut out: Vec<u8> = Vec::new();
    let mut j: usize = i;
    while j < 20
        invariant
            i <= j <= 20,
            buf.len() == 20,
            out@ == buf@.subrange(i as int, j as int),
        decreases 20 - j,
    {
        out.push(buf[j]);
        proof {
            assert(buf@.subrange(i as int, j + 1) =~= buf@.subrange(i as int, j as int).push(
                buf@[j as int],
            ));
        }
        j += 1;
    }
    proof {
        assert(out@ =~= spec_dec_digits(value));
    }
    out
}

/// The digit count of `v` in decimal is at most 20.
proof fn lemma_dec_digits_len(v: u64)
    ensures
        spec_dec_digits(v).len() <= 20,
{
    assert(pow10(20) == 100000000000000000000) by {
        reveal_with_fuel(pow10, 21);
    }
    lemma_dec_digits_len_bound(v, 20);
}

/// If `v` lies below the `k`-th power of ten, it has at most `k` digits.
proof fn lemma_dec_digits_len_bound(v: u64, k: nat)
    requires
        v < pow10(k),
    ensures
        spec_dec_digits(v).len() <= k,
    decreases k,
{
    if v != 0 {
        vstd::arithmetic::div_mod::lemma_multiply_divide_lt(
            v as int,
            10,
            pow10((k - 1) as nat),
        );
        lemma_dec_digits_len_bound(v / 10, (k - 1) as nat);
    }
}

/// Ten to the `k`-th power.
pub open spec fn pow10(k: nat) -> int
    decreases k,
{
    if k == 0 {
        1
    } else {
        10 * pow10((k - 1) as nat)
    }
}

/// The minimal always-available byte writer: what it is handed, it emits,
/// with no buffering, locking or enable switch.
pub struct DebugSerial {
    /// Every byte handed to the writer, in order.
    pub out: Vec<u8>,
}

impl DebugSerial {
    /// A fresh writer that has emitted nothing.
    pub fn new() -> (s: DebugSerial)
        ensures
            s.out@ == Seq::<u8>::empty(),
    {
        DebugSerial { out: Vec::new() }
    }

    /// Emits a single byte.
    pub fn put_byte(&mut self, b: u8)
        ensures
            final(self).out@ == old(self).out@.push(b),
    {
        self.out.push(b);
    }

    /// Emits a byte buffer as it stands.
    pub fn write_bytes(&mut self, v: &Vec<u8>)
        ensures
            final(self).out@ == old(self).out@ + v@,
    {
        let n = v.len();
        let mut i: usize = 0;
        while i < n
            invariant
                i <= n,
                n == v.len(),
                self.out@ == old(self).out@ + v@.take(i as int),
            decreases n - i,
        {
            self.out.push(v[i]);
            proof {
                assert(v@.take(i + 1) =~= v@.take(i as int).push(v@[i as int]));
            }
            i += 1;
        }
        proof {
            assert(v@.take(n as int) =~= v@);
        }
    }

    /// Emits a string, byte by byte.
    pub fn write_str(&mut self, s: &str)
        ensures
            final(self).out@ == old(self).out@ + s.spec_bytes(),
    {
        let bytes = s.as_bytes();
        let n = bytes.len();
        let mut i: usize = 0;
        while i < n
            invariant
                i <= n,
                n == s.spec_bytes().len(),
                bytes@ == s.spec_bytes(),
                self.out@ == old(self).out@ + s.spec_bytes().take(i as int),
            decreases n - i,
        {
            self.out.push(bytes[i]);
            proof {
                assert(s.spec_bytes().take(i + 1) =~= s.spec_bytes().take(i as int).push(
                    s.spec_bytes()[i as int],
                ));
            }
            i += 1;
        }
        proof {
            assert(s.spec_bytes().take(n as int) =~= s.spec_bytes());
        }
    }
}

/// What one logger call appends: `bytes` while enabled, nothing otherwise,
/// with the switch untouched.
pub open spec fn logger_appended(
    pre: SerialLogger,
    post: SerialLogger,
    bytes: Seq<u8>,
) -> bool {
    &&& post.enabled == pre.enabled
    &&& post.out@ == pre.out@ + if pre.enabled {
        bytes
    } else {
        Seq::<u8>::empty()
    }
}

/// The buffered diagnostic writer used once the kernel is up: every line is
/// level-prefixed and newline-terminated, and a runtime switch can silence
/// it entirely.
pub struct SerialLogger {
    /// Whether output is currently emitted or swallowed.
    pub enabled: bool,
    /// Every byte emitted so far, in order.
    pub out: Vec<u8>,
}

impl SerialLogger {
    /// A fresh logger: enabled, nothing emitted.
    pub fn new() -> (s: SerialLogger)
        ensures
            s.enabled,
            s.out@ == Seq::<u8>::empty(),
    {
        SerialLogger { enabled: true, out: Vec::new() }
    }

    /// Turns output on.
    pub fn enable_serial_logging(&mut self)
        ensures
            final(self).enabled,
            final(self).out == old(self).out,
    {
        self.enabled = true;
    }

    /// Turns output off: later writes are swallowed.
    pub fn disable_serial_logging(&mut self)
        ensures
            !final(self).enabled,
            final(self).out == old(self).out,
    {
        self.enabled = false;
    }

    /// Whether output is currently emitted.
    pub fn is_serial_logging_enabled(&self) -> (r: bool)
        ensures
            r == self.enabled,
    {
        self.enabled
    }

    /// Emits one byte, if enabled.
    pub fn serial_write_byte(&mut self, byte: u8)
        ensures
            logger_appended(*old(self), *final(self), seq![byte]),
    {
        if self.enabled {
            self.out.push(byte);
            proof {
                assert(self.out@ =~= old(self).out@ + seq![byte]);
            }
        } else {
            proof {
                assert(self.out@ =~= old(self).out@ + Seq::<u8>::empty());
            }
        }
    }

    /// Emits a string, if enabled.
    pub fn serial_write_str(&mut self, s: &str)
        ensures
            logger_appended(*old(self), *final(self), s.spec_bytes()),
    {
        if self.enabled {
            let bytes = s.as_bytes();
            let n = bytes.len();
            let mut i: usize = 0;
            while i < n
                invariant
                    i <= n,
                    bytes@ == s.spec_bytes(),
                    n == s.spec_bytes().len(),
                    self.enabled == old(self).enabled,
                    self.out@ == old(self).out@ + s.spec_bytes().take(i as int),
                decreases n - i,
            {
                self.out.push(bytes[i]);
                proof {
                    assert(s.spec_bytes().take(i + 1) =~= s.spec_bytes().take(i as int).push(
                        s.spec_bytes()[i as int],
                    ));
                }
                i += 1;
            }
            proof {
                assert(s.spec_bytes().take(n as int) =~= s.spec_bytes());
            }
        } else {
            proof {
                assert(self.out@ =~= old(self).out@ + Seq::<u8>::empty());
            }
        }
    }

    /// Emits `value` in hexadecimal without a prefix, "0" for zero, if
    /// enabled.
    pub fn serial_write_hex(&mut self, value: u64)
        ensures
            logger_appended(*old(self), *final(self), spec_hex_bytes(value)),
    {
        if self.enabled {
            let digits = hex_bytes(value);
            let n = digits.len();
            let mut i: usize = 0;
            while i < n
                invariant
                    i <= n,
                    digits@ == spec_hex_bytes(value),
                    n == digits.len(),
                    self.enabled == old(self).enabled,
                    self.out@ == old(self).out@ + digits@.take(i as int),
                decreases n - i,
            {
                self.out.push(digits[i]);
                proof {
                    assert(digits@.take(i + 1) =~= digits@.take(i as int).push(digits@[i as int]));
                }
                i += 1;
            }
            proof {
                assert(digits@.take(n as int) =~= digits@);
            }
        } else {
            proof {
                assert(self.out@ =~= old(self).out@ + Seq::<u8>::empty());
            }
        }
    }

    /// Emits an info-level line: `[INFO] `, the text, `\r\n`.
    pub fn info(&mut self, text: &str)
        ensures
            logger_appended(
                *old(self),
                *final(self),
                ("[INFO] ").spec_bytes() + text.spec_bytes() + ("\r\n").spec_bytes(),
            ),
    {
        self.serial_write_str("[INFO] ");
        self.serial_write_str(text);
        self.serial_write_str("\r\n");
        proof {
            if old(self).enabled {
                assert(self.out@ =~= old(self).out@ + (("[INFO] ").spec_bytes() + text.spec_bytes()
                    + ("\r\n").spec_bytes()));
            } else {
                assert(self.out@ =~= old(self).out@ + Seq::<u8>::empty());
            }
        }
    }

    /// Emits an info-level line holding one hexadecimal value: `[INFO] `,
    /// `0x`, the digits, `\r\n`.
    pub fn info_hex(&mut self, value: u64)
        ensures
            logger_appended(
                *old(self),
                *final(self),
                ("[INFO] ").spec_bytes() + ("0x").spec_bytes() + spec_hex_bytes(value) + (
                "\r\n").spec_bytes(),
            ),
    {
        self.serial_write_str("[INFO] ");
        self.serial_write_str("0x");
        self.serial_write_hex(value);
        self.serial_write_str("\r\n");
        proof {
            if old(self).enabled {
                assert(self.out@ =~= old(self).out@ + (("[INFO] ").spec_bytes() + (
                "0x").spec_bytes() + spec_hex_bytes(value) + ("\r\n").spec_bytes()));
            } else {
                assert(self.out@ =~= old(self).out@ + Seq::<u8>::empty());
            }
        }
    }

    /// Emits an error-level line: `[ERROR] `, the text, `\r\n`.
    pub fn error(&mut self, text: &str)
        ensures
            logger_appended(
                *old(self),
                *final(self),
                ("[ERROR] ").spec_bytes() + text.spec_bytes() + ("\r\n").spec_bytes(),
            ),
    {
        self.serial_write_str("[ERROR] ");
        self.serial_write_str(text);
        self.serial_write_str("\r\n");
        proof {
            if old(self).enabled {
                assert(self.out@ =~= old(self).out@ + (("[ERROR] ").spec_bytes() + text.spec_bytes()
                    + ("\r\n").spec_bytes()));
            } else {
                assert(self.out@ =~= old(self).out@ + Seq::<u8>::empty());
            }
        }
    }

    /// Emits a warning-level line: `[WARNING] `, the text, `\r\n`.
    pub fn warn(&mut self, text: &str)
        ensures
            logger_appended(
                *old(self),
                *final(self),
                ("[WARNING] ").spec_bytes() + text.spec_bytes() + ("\r\n").spec_bytes(),
            ),
    {
        self.serial_write_str("[WARNING] ");
        self.serial_write_str(text);
        self.serial_write_str("\r\n");
        proof {
            if old(self).enabled {
                assert(self.out@ =~= old(self).out@ + (("[WARNING] ").spec_bytes() + text.spec_bytes()
                    + ("\r\n").spec_bytes()));
            } else {
                assert(self.out@ =~= old(self).out@ + Seq::<u8>::empty());
            }
        }
    }
}

/// One hexadecimal digit, lower case, as its glyph byte.
pub open spec fn spec_hex_lower_digit(d: u64) -> u8 {
    if d < 10 {
        (0x30 + d) as u8
    } else {
        (0x61 + (d - 10)) as u8
    }
}

/// The lower-case hexadecimal digits of `v`, most significant first, empty
/// for 0.
pub open spec fn spec_hex_lower_digits(v: u64) -> Seq<u8>
    decreases v,
{
    if v == 0 {
        Seq::empty()
    } else {
        spec_hex_lower_digits(v / 16) + seq![spec_hex_lower_digit(v % 16)]
    }
}

/// Lower-case hexadecimal rendering of `v` without a prefix, "0" for zero:
/// the shape the kernel's formatter gives a `{:#x}` argument after the
/// `0x`.
pub open spec fn spec_hex_lower_bytes(v: u64) -> Seq<u8> {
    if v == 0 {
        seq![0x30u8]
    } else {
        spec_hex_lower_digits(v)
    }
}

/// Renders `value` in lower-case hexadecimal, no prefix, "0" for zero.
pub fn hex_lower_bytes(value: u64) -> (out: Vec<u8>)
    ensures
        out@ == spec_hex_lower_bytes(value),
{
    if value == 0 {
        let mut out: Vec<u8> = Vec::new();
        out.push(0x30);
        proof {
            assert(out@ =~= spec_hex_lower_bytes(0));
        }
        return out;
    }
    let mut buf: Vec<u8> = Vec::new();
    let mut k: usize = 0;
    while k < 16
        invariant
            k <= 16,
            buf.len() == k,
        decreases 16 - k,
    {
        buf.push(0);
        k += 1;
    }
    let mut i: usize = 16;
    let mut v: u64 = value;
    while v != 0
        invariant
            i <= 16,
            buf.len() == 16,
            spec_hex_lower_digits(value) == spec_hex_lower_digits(v) + buf@.subrange(i as int, 16),
            i as int >= 16 - spec_hex_lower_digits(value).len() + spec_hex_lower_digits(v).len(),
        decreases v,
    {
        proof {
            lemma_hex_lower_digits_len(value);
            assert(spec_hex_lower_digits(v).len() >= 1);
        }
        i = i - 1;
        let d = v % 16;
        let glyph: u8 = if d < 10 {
            0x30 + d as u8
        } else {
            0x61 + (d as u8 - 10)
        };
        buf.set(i, glyph);
        proof {
            assert(buf@.subrange(i as int, 16) =~= seq![spec_hex_lower_digit(v % 16)]
                + buf@.subrange(i + 1, 16));
        }
        v = v / 16;
    }
    let mut out: Vec<u8> = Vec::new();
    let mut j: usize = i;
    while j < 16
        invariant
            i <= j <= 16,
            buf.len() == 16,
            out@ == buf@.subrange(i as int, j as int),
        decreases 16 - j,
    {
        out.push(buf[j]);
        proof {
            assert(buf@.subrange(i as int, j + 1) =~= buf@.subrange(i as int, j as int).push(
                buf@[j as int],
            ));
        }
        j += 1;
    }
    proof {
        assert(out@ =~= spec_hex_lower_digits(value));
    }
    out
}

/// The digit count of `v` in lower-case hexadecimal is at most 16.
proof fn lemma_hex_lower_digits_len(v: u64)
    ensures
        spec_hex_lower_digits(v).len() <= 16,
{
    assert(pow16(16) == 0x10000000000000000) by {
        reveal_with_fuel(pow16, 17);
    }
    lemma_hex_lower_digits_len_bound(v, 16);
}

/// If `v` lies below the `k`-th power of sixteen, it has at most `k`
/// lower-case digits.
proof fn lemma_hex_lower_digits_len_bound(v: u64, k: nat)
    requires
        v < pow16(k),
    ensures
        spec_hex_lower_digits(v).len() <= k,
    decreases k,
{
    if v != 0 {
        vstd::arithmetic::div_mod::lemma_multiply_divide_lt(
            v as int,
            16,
            pow16((k - 1) as nat),
        );
        lemma_hex_lower_digits_len_bound(v / 16, (k - 1) as nat);
    }
}

/// Two lower-case hexadecimal digits for one byte, zero padded: the shape
/// the kernel's formatter gives a `{:02x}` argument.
pub open spec fn spec_hex2_lower(b: u8) -> Seq<u8> {
    seq![spec_hex_lower_digit((b >> 4) as u64), spec_hex_lower_digit((b & 0xf) as u64)]
}

/// Renders one byte as two zero-padded lower-case hexadecimal digits.
pub fn hex2_lower(b: u8) -> (out: Vec<u8>)
    ensures
        out@ == spec_hex2_lower(b),
{
    let hi = b >> 4;
    let lo = b & 0xf;
    proof {
        assert(b >> 4 < 16 && b & 0xf < 16) by (bit_vector);
    }
    let mut out: Vec<u8> = Vec::new();
    out.push(if hi < 10 { 0x30 + hi } else { 0x61 + (hi - 10) });
    out.push(if lo < 10 { 0x30 + lo } else { 0x61 + (lo - 10) });
    proof {
        assert(out@ =~= spec_hex2_lower(b));
    }
    out
}

/// Three decimal digits for a value below a thousand, zero padded: the
/// shape the kernel's formatter gives a `{:03}` argument.
pub open spec fn spec_dec3(v: u64) -> Seq<u8> {
    seq![(0x30 + (v / 100) % 10) as u8, (0x30 + (v / 10) % 10) as u8, (0x30 + v % 10) as u8]
}

/// Renders a value below a thousand as three zero-padded decimal digits.
pub fn dec3(v: u64) -> (out: Vec<u8>)
    requires
        v < 1000,
    ensures
        out@ == spec_dec3(v),
{
    let mut out: Vec<u8> = Vec::new();
    out.push(0x30 + ((v / 100) % 10) as u8);
    out.push(0x30 + ((v / 10) % 10) as u8);
    out.push(0x30 + (v % 10) as u8);
    proof {
        assert(out@ =~= spec_dec3(v));
    }
    out
}


/// Appends a string's bytes to a byte buffer under construction.
pub fn append_str(v: &mut Vec<u8>, s: &str)
    ensures
        final(v)@ == old(v)@ + s.spec_bytes(),
{
    let bytes = s.as_bytes();
    let n = bytes.len();
    let mut i: usize = 0;
    while i < n
        invariant
            i <= n,
            bytes@ == s.spec_bytes(),
            n == s.spec_bytes().len(),
            v@ == old(v)@ + s.spec_bytes().take(i as int),
        decreases n - i,
    {
        v.push(bytes[i]);
        proof {
            assert(s.spec_bytes().take(i + 1) =~= s.spec_bytes().take(i as int).push(
                s.spec_bytes()[i as int],
            ));
        }
        i += 1;
    }
    proof {
        assert(s.spec_bytes().take(n as int) =~= s.spec_bytes());
    }
}

/// Appends one byte buffer to another.
pub fn append_bytes(v: &mut Vec<u8>, w: &Vec<u8>)
    ensures
        final(v)@ == old(v)@ + w@,
{
    let n = w.len();
    let mut i: usize = 0;
    while i < n
        invariant
            i <= n,
            n == w.len(),
            v@ == old(v)@ + w@.take(i as int),
        decreases n - i,
    {
        v.push(w[i]);
        proof {
            assert(w@.take(i + 1) =~= w@.take(i as int).push(w@[i as int]));
        }
        i += 1;
    }
    proof {
        assert(w@.take(n as int) =~= w@);
    }
}

/// The space-separated lower-case hexadecimal pairs of a byte run, one
/// "xx " group per byte.
pub open spec fn spec_hex_pairs(b: Seq<u8>) -> Seq<u8>
    decreases b.len(),
{
    if b.len() == 0 {
        Seq::empty()
    } else {
        spec_hex_pairs(b.drop_last()) + spec_hex2_lower(b.last()) + seq![0x20u8]
    }
}

/// Renders `buf[start..end]` as space-separated hexadecimal pairs.
pub fn hex_pairs(buf: &Vec<u8>, start: usize, end: usize) -> (out: Vec<u8>)
    requires
        start <= end <= buf.len(),
    ensures
        out@ == spec_hex_pairs(buf@.subrange(start as int, end as int)),
{
    let mut out: Vec<u8> = Vec::new();
    let mut j: usize = start;
    while j < end
        invariant
            start <= j <= end,
            end <= buf.len(),
            out@ == spec_hex_pairs(buf@.subrange(start as int, j as int)),
        decreases end - j,
    {
        let pair = hex2_lower(buf[j]);
        append_bytes(&mut out, &pair);
        out.push(0x20);
        proof {
            let sub = buf@.subrange(start as int, j + 1);
            assert(sub.drop_last() =~= buf@.subrange(start as int, j as int));
            assert(sub.last() == buf@[j as int]);
            assert(out@ =~= spec_hex_pairs(sub));
        }
        j += 1;
    }
    out
}

/// One line of a hexadecimal dump: the info prefix, the caller's heading,
/// the zero-padded chunk bounds, and sixteen byte pairs.
pub open spec fn spec_dump_line(head: Seq<u8>, b: Seq<u8>, i: int) -> Seq<u8> {
    ("[INFO] ").spec_bytes() + head + spec_dec3(i as u64) + seq![0x2du8] + spec_dec3(
        (i + 15) as u64,
    ) + ("]: ").spec_bytes() + spec_hex_pairs(b.subrange(i, i + 16)) + ("\r\n").spec_bytes()
}

/// A dump of `b[start..end]` in sixteen-byte lines, last line first in the
/// recursion but emitted in address order.
pub open spec fn spec_hex_dump(head: Seq<u8>, b: Seq<u8>, start: int, end: int) -> Seq<u8>
    decreases end - start,
{
    if end - start < 16 {
        Seq::empty()
    } else {
        spec_hex_dump(head, b, start, end - 16) + spec_dump_line(head, b, end - 16)
    }
}

impl SerialLogger {
    /// Emits an info-level line whose text is handed over as raw bytes:
    /// `[INFO] `, the bytes, `\r\n`.
    pub fn info_bytes(&mut self, msg: &Vec<u8>)
        ensures
            logger_appended(
                *old(self),
                *final(self),
                ("[INFO] ").spec_bytes() + msg@ + ("\r\n").spec_bytes(),
            ),
    {
        if self.enabled {
            let ghost pre = self.out@;
            self.serial_write_str("[INFO] ");
            let n = msg.len();
            let mut i: usize = 0;
            while i < n
                invariant
                    i <= n,
                    n == msg.len(),
                    self.enabled == old(self).enabled,
                    old(self).enabled,
                    self.out@ == old(self).out@ + ("[INFO] ").spec_bytes() + msg@.take(i as int),
                decreases n - i,
            {
                self.out.push(msg[i]);
                proof {
                    assert(msg@.take(i + 1) =~= msg@.take(i as int).push(msg@[i as int]));
                }
                i += 1;
            }
            proof {
                assert(msg@.take(n as int) =~= msg@);
            }
            self.serial_write_str("\r\n");
            proof {
                assert(self.out@ =~= old(self).out@ + (("[INFO] ").spec_bytes() + msg@ + (
                "\r\n").spec_bytes()));
            }
        } else {
            proof {
                assert(self.out@ =~= old(self).out@ + Seq::<u8>::empty());
            }
        }
    }

    /// Emits a hexadecimal dump of `buf[start..end]` as info-level lines:
    /// sixteen bytes per line, each line headed by `head` and the chunk's
    /// bounds.
    #[verifier::rlimit(100)]
    #[verifier::spinoff_prover]
    pub fn log_hex_dump(&mut self, head: &str, buf: &Vec<u8>, start: usize, end: usize)
        requires
            start <= end <= buf.len(),
            (end - start) % 16 == 0,
            end < 985,
        ensures
            logger_appended(
                *old(self),
                *final(self),
                spec_hex_dump(head.spec_bytes(), buf@, start as int, end as int),
            ),
    {
        let mut i: usize = start;
        proof {
            assert(self.out@ =~= old(self).out@ + Seq::<u8>::empty());
        }
        while i < end
            invariant
                start <= i <= end,
                end <= buf.len(),
                end < 985,
                (end - start) % 16 == 0,
                (i - start) % 16 == 0,
                self.enabled == old(self).enabled,
                self.out@ == old(self).out@ + if old(self).enabled {
                    spec_hex_dump(head.spec_bytes(), buf@, start as int, i as int)
                } else {
                    Seq::<u8>::empty()
                },
            decreases end - i,
        {
            let ghost pre = self.out@;
            let line = dump_line_body(head, buf, i);
            self.info_bytes(&line);
            proof {
                assert(spec_hex_dump(head.spec_bytes(), buf@, start as int, i + 16)
                    == spec_hex_dump(head.spec_bytes(), buf@, start as int, i as int)
                    + spec_dump_line(head.spec_bytes(), buf@, i as int));
                if old(self).enabled {
                    assert(("[INFO] ").spec_bytes() + line@ + ("\r\n").spec_bytes()
                        =~= spec_dump_line(head.spec_bytes(), buf@, i as int));
                    assert(self.out@ =~= old(self).out@ + spec_hex_dump(
                        head.spec_bytes(),
                        buf@,
                        start as int,
                        i + 16,
                    ));
                } else {
                    assert(self.out@ =~= old(self).out@ + Seq::<u8>::empty());
                }
            }
            i += 16;
        }
    }
}

/// Builds the text of one dump line, without the info framing: the
/// heading, the zero-padded chunk bounds, and the chunk's byte pairs.
fn dump_line_body(head: &str, buf: &Vec<u8>, i: usize) -> (line: Vec<u8>)
    requires
        i + 16 <= buf.len(),
        i + 15 < 1000,
    ensures
        line@ == head.spec_bytes() + spec_dec3(i as u64) + seq![0x2du8] + spec_dec3(
            (i + 15) as u64,
        ) + ("]: ").spec_bytes() + spec_hex_pairs(buf@.subrange(i as int, i + 16)),
{
    let mut line: Vec<u8> = Vec::new();
    append_str(&mut line, head);
    let lo = dec3(i as u64);
    append_bytes(&mut line, &lo);
    line.push(0x2d);
    let hi = dec3((i + 15) as u64);
    append_bytes(&mut line, &hi);
    append_str(&mut line, "]: ");
    let pairs = hex_pairs(buf, i, i + 16);
    append_bytes(&mut line, &pairs);
    proof {
        assert(line@ =~= head.spec_bytes() + spec_dec3(i as u64) + seq![0x2du8] + spec_dec3(
            (i + 15) as u64,
        ) + ("]: ").spec_bytes() + spec_hex_pairs(buf@.subrange(i as int, i + 16)));
    }
    line
}

} // verus!
