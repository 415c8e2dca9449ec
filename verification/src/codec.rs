use vstd::prelude::*;
use crate::config::{Config, ThemeName, spec_default_config};

verus! {

// The preference file holds one JSON object with the five configuration
// fields in a fixed order, the theme as a quoted name and the intervals as
// decimal numbers. The writer emits exactly that shape and the parser
// accepts exactly it; anything else is treated as corrupt and the caller
// falls back to the defaults.

/// `{"theme":"`
pub open spec fn lit_head() -> Seq<u8> {
    seq![123u8, 34u8, 116u8, 104u8, 101u8, 109u8, 101u8, 34u8, 58u8, 34u8]
}

/// `","work_duration":`
pub open spec fn lit_work() -> Seq<u8> {
    seq![34u8, 44u8, 34u8, 119u8, 111u8, 114u8, 107u8, 95u8, 100u8, 117u8, 114u8, 97u8, 116u8,
        105u8, 111u8, 110u8, 34u8, 58u8]
}

/// `,"short_break":`
pub open spec fn lit_short() -> Seq<u8> {
    seq![44u8, 34u8, 115u8, 104u8, 111u8, 114u8, 116u8, 95u8, 98u8, 114u8, 101u8, 97u8, 107u8,
        34u8, 58u8]
}

/// `,"long_break":`
pub open spec fn lit_long() -> Seq<u8> {
    seq![44u8, 34u8, 108u8, 111u8, 110u8, 103u8, 95u8, 98u8, 114u8, 101u8, 97u8, 107u8, 34u8,
        58u8]
}

/// `,"cycles_before_long":`
pub open spec fn lit_cycles() -> Seq<u8> {
    seq![44u8, 34u8, 99u8, 121u8, 99u8, 108u8, 101u8, 115u8, 95u8, 98u8, 101u8, 102u8, 111u8,
        114u8, 101u8, 95u8, 108u8, 111u8, 110u8, 103u8, 34u8, 58u8]
}

/// `}`
pub open spec fn lit_tail() -> Seq<u8> {
    seq![125u8]
}

/// The bytes of a theme's name as it stands in the file.
pub open spec fn theme_name_bytes(t: ThemeName) -> Seq<u8> {
    match t {
        ThemeName::Blue => seq![98u8, 108u8, 117u8, 101u8],
        ThemeName::Purple => seq![112u8, 117u8, 114u8, 112u8, 108u8, 101u8],
        ThemeName::Green => seq![103u8, 114u8, 101u8, 101u8, 110u8],
        ThemeName::Red => seq![114u8, 101u8, 100u8],
        ThemeName::Orange => seq![111u8, 114u8, 97u8, 110u8, 103u8, 101u8],
        ThemeName::Cyan => seq![99u8, 121u8, 97u8, 110u8],
    }
}

/// The decimal digits of `n`, most significant first, without leading
/// zeros (a single `0` for zero).
pub open spec fn spec_dec_digits(n: nat) -> Seq<u8>
    decreases n,
{
    if n < 10 {
        seq![(48 + n) as u8]
    } else {
        spec_dec_digits(n / 10).push((48 + n % 10) as u8)
    }
}

/// `{\n  "theme": "`
pub open spec fn pretty_head() -> Seq<u8> {
    seq![123u8, 10u8, 32u8, 32u8, 34u8, 116u8, 104u8, 101u8, 109u8, 101u8, 34u8, 58u8, 32u8,
        34u8]
}

/// `",\n  "work_duration": `
pub open spec fn pretty_work() -> Seq<u8> {
    seq![34u8, 44u8, 10u8, 32u8, 32u8, 34u8, 119u8, 111u8, 114u8, 107u8, 95u8, 100u8, 117u8,
        114u8, 97u8, 116u8, 105u8, 111u8, 110u8, 34u8, 58u8, 32u8]
}

/// `,\n  "short_break": `
pub open spec fn pretty_short() -> Seq<u8> {
    seq![44u8, 10u8, 32u8, 32u8, 34u8, 115u8, 104u8, 111u8, 114u8, 116u8, 95u8, 98u8, 114u8,
        101u8, 97u8, 107u8, 34u8, 58u8, 32u8]
}

/// `,\n  "long_break": `
pub open spec fn pretty_long() -> Seq<u8> {
    seq![44u8, 10u8, 32u8, 32u8, 34u8, 108u8, 111u8, 110u8, 103u8, 95u8, 98u8, 114u8, 101u8,
        97u8, 107u8, 34u8, 58u8, 32u8]
}

/// `,\n  "cycles_before_long": `
pub open spec fn pretty_cycles() -> Seq<u8> {
    seq![44u8, 10u8, 32u8, 32u8, 34u8, 99u8, 121u8, 99u8, 108u8, 101u8, 115u8, 95u8, 98u8, 101u8,
        102u8, 111u8, 114u8, 101u8, 95u8, 108u8, 111u8, 110u8, 103u8, 34u8, 58u8, 32u8]
}

/// `\n}`
pub open spec fn pretty_tail() -> Seq<u8> {
    seq![10u8, 125u8]
}

/// The compact token stream of a configuration: what the parser sees after
/// whitespace is stripped.
pub open spec fn spec_compact_bytes(c: Config) -> Seq<u8> {
    lit_head() + theme_name_bytes(c.theme) + lit_work() + spec_dec_digits(c.work_duration as nat)
        + lit_short() + spec_dec_digits(c.short_break as nat) + lit_long() + spec_dec_digits(
        c.long_break as nat,
    ) + lit_cycles() + spec_dec_digits(c.cycles_before_long as nat) + lit_tail()
}

/// The exact byte content of the preference file for a configuration: the
/// pretty-printed form with one field per two-space-indented line.
pub open spec fn spec_json_bytes(c: Config) -> Seq<u8> {
    pretty_head() + theme_name_bytes(c.theme) + pretty_work() + spec_dec_digits(
        c.work_duration as nat,
    ) + pretty_short() + spec_dec_digits(c.short_break as nat) + pretty_long() + spec_dec_digits(
        c.long_break as nat,
    ) + pretty_cycles() + spec_dec_digits(c.cycles_before_long as nat) + pretty_tail()
}

pub open spec fn spec_is_digit(b: u8) -> bool {
    48 <= b && b <= 57
}

/// Space, tab, newline or carriage return.
pub open spec fn spec_is_ws(b: u8) -> bool {
    b == 32 || b == 9 || b == 10 || b == 13
}

/// `s` with every whitespace byte removed. The parser works on the
/// stripped bytes, so a file may be laid out with any indentation.
pub open spec fn spec_strip_ws(s: Seq<u8>) -> Seq<u8>
    decreases s.len(),
{
    if s.len() == 0 {
        Seq::empty()
    } else if spec_is_ws(s[0]) {
        spec_strip_ws(s.drop_first())
    } else {
        seq![s[0]] + spec_strip_ws(s.drop_first())
    }
}

/// Strip `lit` off the front of `s`, or fail if it is not there.
pub open spec fn spec_match_lit(s: Seq<u8>, lit: Seq<u8>) -> Option<Seq<u8>> {
    if lit.len() <= s.len() && s.take(lit.len() as int) == lit {
        Some(s.skip(lit.len() as int))
    } else {
        None
    }
}

/// How many decimal digits stand at the front of `s`.
pub open spec fn spec_digit_count(s: Seq<u8>) -> nat
    decreases s.len(),
{
    if s.len() > 0 && spec_is_digit(s[0]) {
        1 + spec_digit_count(s.drop_first())
    } else {
        0
    }
}

/// The value of a sequence of decimal digit bytes.
pub open spec fn spec_digits_val(d: Seq<u8>) -> int
    decreases d.len(),
{
    if d.len() == 0 {
        0
    } else {
        spec_digits_val(d.drop_last()) * 10 + (d.last() as int - 48)
    }
}

/// Read an unsigned decimal number (at most 10 digits, at most `u32::MAX`)
/// off the front of `s`.
pub open spec fn spec_parse_num(s: Seq<u8>) -> Option<(u32, Seq<u8>)> {
    let k: nat = spec_digit_count(s);
    if k == 0 || k > 10 {
        None
    } else if spec_digits_val(s.take(k as int)) > 4294967295 {
        None
    } else {
        Some((spec_digits_val(s.take(k as int)) as u32, s.skip(k as int)))
    }
}

/// Read a theme name off the front of `s`.
pub open spec fn spec_parse_theme(s: Seq<u8>) -> Option<(ThemeName, Seq<u8>)> {
    match spec_match_lit(s, theme_name_bytes(ThemeName::Blue)) {
        Some(rest) => Some((ThemeName::Blue, rest)),
        None => match spec_match_lit(s, theme_name_bytes(ThemeName::Purple)) {
            Some(rest) => Some((ThemeName::Purple, rest)),
            None => match spec_match_lit(s, theme_name_bytes(ThemeName::Green)) {
                Some(rest) => Some((ThemeName::Green, rest)),
                None => match spec_match_lit(s, theme_name_bytes(ThemeName::Red)) {
                    Some(rest) => Some((ThemeName::Red, rest)),
                    None => match spec_match_lit(s, theme_name_bytes(ThemeName::Orange)) {
                        Some(rest) => Some((ThemeName::Orange, rest)),
                        None => match spec_match_lit(s, theme_name_bytes(ThemeName::Cyan)) {
                            Some(rest) => Some((ThemeName::Cyan, rest)),
                            None => None,
                        },
                    },
                },
            },
        },
    }
}

/// The whole document: the fixed frame with a theme name and the four
/// numbers in it, and nothing after the closing brace.
pub open spec fn spec_parse_config(s: Seq<u8>) -> Option<Config> {
    match spec_match_lit(s, lit_head()) {
        None => None,
        Some(s1) => match spec_parse_theme(s1) {
            None => None,
            Some((theme, s2)) => match spec_match_lit(s2, lit_work()) {
                None => None,
                Some(s3) => match spec_parse_num(s3) {
                    None => None,
                    Some((work_duration, s4)) => match spec_match_lit(s4, lit_short()) {
                        None => None,
                        Some(s5) => match spec_parse_num(s5) {
                            None => None,
                            Some((short_break, s6)) => match spec_match_lit(s6, lit_long()) {
                                None => None,
                                Some(s7) => match spec_parse_num(s7) {
                                    None => None,
                                    Some((long_break, s8)) => match spec_match_lit(
                                        s8,
                                        lit_cycles(),
                                    ) {
                                        None => None,
                                        Some(s9) => match spec_parse_num(s9) {
                                            None => None,
                                            Some((cycles_before_long, s10)) => match spec_match_lit(
                                                s10,
                                                lit_tail(),
                                            ) {
                                                None => None,
                                                Some(s11) => if s11.len() == 0 {
                                                    Some(
                                                        Config {
                                                            theme,
                                                            work_duration,
                                                            short_break,
                                                            long_break,
                                                            cycles_before_long,
                                                        },
                                                    )
                                                } else {
                                                    None
                                                },
                                            },
                                        },
                                    },
                                },
                            },
                        },
                    },
                },
            },
        },
    }
}

fn lit_head_vec() -> (r: Vec<u8>)
    ensures
        r@ == lit_head(),
{
    let mut v: Vec<u8> = Vec::new();
    v.push(123);
    v.push(34);
    v.push(116);
    v.push(104);
    v.push(101);
    v.push(109);
    v.push(101);
    v.push(34);
    v.push(58);
    v.push(34);
    proof {
        assert(v@ =~= lit_head());
    }
    v
}

fn lit_work_vec() -> (r: Vec<u8>)
    ensures
        r@ == lit_work(),
{
    let mut v: Vec<u8> = Vec::new();
    v.push(34);
    v.push(44);
    v.push(34);
    v.push(119);
    v.push(111);
    v.push(114);
    v.push(107);
    v.push(95);
    v.push(100);
    v.push(117);
    v.push(114);
    v.push(97);
    v.push(116);
    v.push(105);
    v.push(111);
    v.push(110);
    v.push(34);
    v.push(58);
    proof {
        assert(v@ =~= lit_work());
    }
    v
}

fn lit_short_vec() -> (r: Vec<u8>)
    ensures
        r@ == lit_short(),
{
    let mut v: Vec<u8> = Vec::new();
    v.push(44);
    v.push(34);
    v.push(115);
    v.push(104);
    v.push(111);
    v.push(114);
    v.push(116);
    v.push(95);
    v.push(98);
    v.push(114);
    v.push(101);
    v.push(97);
    v.push(107);
    v.push(34);
    v.push(58);
    proof {
        assert(v@ =~= lit_short());
    }
    v
}

fn lit_long_vec() -> (r: Vec<u8>)
    ensures
        r@ == lit_long(),
{
    let mut v: Vec<u8> = Vec::new();
    v.push(44);
    v.push(34);
    v.push(108);
    v.push(111);
    v.push(110);
    v.push(103);
    v.push(95);
    v.push(98);
    v.push(114);
    v.push(101);
    v.push(97);
    v.push(107);
    v.push(34);
    v.push(58);
    proof {
        assert(v@ =~= lit_long());
    }
    v
}

fn lit_cycles_vec() -> (r: Vec<u8>)
    ensures
        r@ == lit_cycles(),
{
    let mut v: Vec<u8> = Vec::new();
    v.push(44);
    v.push(34);
    v.push(99);
    v.push(121);
    v.push(99);
    v.push(108);
    v.push(101);
    v.push(115);
    v.push(95);
    v.push(98);
    v.push(101);
    v.push(102);
    v.push(111);
    v.push(114);
    v.push(101);
    v.push(95);
    v.push(108);
    v.push(111);
    v.push(110);
    v.push(103);
    v.push(34);
    v.push(58);
    proof {
        assert(v@ =~= lit_cycles());
    }
    v
}

fn theme_name_vec(t: ThemeName) -> (r: Vec<u8>)
    ensures
        r@ == theme_name_bytes(t),
{
    let mut v: Vec<u8> = Vec::new();
    match t {
        ThemeName::Blue => {
            v.push(98);
            v.push(108);
            v.push(117);
            v.push(101);
        },
        ThemeName::Purple => {
            v.push(112);
            v.push(117);
            v.push(114);
            v.push(112);
            v.push(108);
            v.push(101);
        },
        ThemeName::Green => {
            v.push(103);
            v.push(114);
            v.push(101);
            v.push(101);
            v.push(110);
        },
        ThemeName::Red => {
            v.push(114);
            v.push(101);
            v.push(100);
        },
        ThemeName::Orange => {
            v.push(111);
            v.push(114);
            v.push(97);
            v.push(110);
            v.push(103);
            v.push(101);
        },
        ThemeName::Cyan => {
            v.push(99);
            v.push(121);
            v.push(97);
            v.push(110);
        },
    }
    proof {
        assert(v@ =~= theme_name_bytes(t));
    }
    v
}

fn pretty_head_vec() -> (r: Vec<u8>)
    ensures
        r@ == pretty_head(),
{
    let mut v: Vec<u8> = Vec::new();
    v.push(123);
    v.push(10);
    v.push(32);
    v.push(32);
    v.push(34);
    v.push(116);
    v.push(104);
    v.push(101);
    v.push(109);
    v.push(101);
    v.push(34);
    v.push(58);
    v.push(32);
    v.push(34);
    proof {
        assert(v@ =~= pretty_head());
    }
    v
}

fn pretty_work_vec() -> (r: Vec<u8>)
    ensures
        r@ == pretty_work(),
{
    let mut v: Vec<u8> = Vec::new();
    v.push(34);
    v.push(44);
    v.push(10);
    v.push(32);
    v.push(32);
    v.push(34);
    v.push(119);
    v.push(111);
    v.push(114);
    v.push(107);
    v.push(95);
    v.push(100);
    v.push(117);
    v.push(114);
    v.push(97);
    v.push(116);
    v.push(105);
    v.push(111);
    v.push(110);
    v.push(34);
    v.push(58);
    v.push(32);
    proof {
        assert(v@ =~= pretty_work());
    }
    v
}

fn pretty_short_vec() -> (r: Vec<u8>)
    ensures
        r@ == pretty_short(),
{
    let mut v: Vec<u8> = Vec::new();
    v.push(44);
    v.push(10);
    v.push(32);
    v.push(32);
    v.push(34);
    v.push(115);
    v.push(104);
    v.push(111);
    v.push(114);
    v.push(116);
    v.push(95);
    v.push(98);
    v.push(114);
    v.push(101);
    v.push(97);
    v.push(107);
    v.push(34);
    v.push(58);
    v.push(32);
    proof {
        assert(v@ =~= pretty_short());
    }
    v
}

fn pretty_long_vec() -> (r: Vec<u8>)
    ensures
        r@ == pretty_long(),
{
    let mut v: Vec<u8> = Vec::new();
    v.push(44);
    v.push(10);
    v.push(32);
    v.push(32);
    v.push(34);
    v.push(108);
    v.push(111);
    v.push(110);
    v.push(103);
    v.push(95);
    v.push(98);
    v.push(114);
    v.push(101);
    v.push(97);
    v.push(107);
    v.push(34);
    v.push(58);
    v.push(32);
    proof {
        assert(v@ =~= pretty_long());
    }
    v
}

fn pretty_cycles_vec() -> (r: Vec<u8>)
    ensures
        r@ == pretty_cycles(),
{
    let mut v: Vec<u8> = Vec::new();
    v.push(44);
    v.push(10);
    v.push(32);
    v.push(32);
    v.push(34);
    v.push(99);
    v.push(121);
    v.push(99);
    v.push(108);
    v.push(101);
    v.push(115);
    v.push(95);
    v.push(98);
    v.push(101);
    v.push(102);
    v.push(111);
    v.push(114);
    v.push(101);
    v.push(95);
    v.push(108);
    v.push(111);
    v.push(110);
    v.push(103);
    v.push(34);
    v.push(58);
    v.push(32);
    proof {
        assert(v@ =~= pretty_cycles());
    }
    v
}

/// Append the decimal digits of `n` to `out`.
fn write_u32(out: &mut Vec<u8>, n: u32)
    ensures
        final(out)@ == old(out)@ + spec_dec_digits(n as nat),
    decreases n,
{
    if n >= 10 {
        write_u32(out, n / 10);
    }
    out.push(48 + (n % 10) as u8);
    proof {
        assert(final(out)@ =~= old(out)@ + spec_dec_digits(n as nat));
    }
}

impl Config {
    /// The exact byte content this configuration is persisted as.
    pub fn to_json_bytes(&self) -> (r: Vec<u8>)
        ensures
            r@ == spec_json_bytes(*self),
    {
        let mut out = pretty_head_vec();
        let mut piece = theme_name_vec(self.theme);
        out.append(&mut piece);
        let mut piece = pretty_work_vec();
        out.append(&mut piece);
        write_u32(&mut out, self.work_duration);
        let mut piece = pretty_short_vec();
        out.append(&mut piece);
        write_u32(&mut out, self.short_break);
        let mut piece = pretty_long_vec();
        out.append(&mut piece);
        write_u32(&mut out, self.long_break);
        let mut piece = pretty_cycles_vec();
        out.append(&mut piece);
        write_u32(&mut out, self.cycles_before_long);
        out.push(10);
        out.push(125);
        proof {
            assert(out@ =~= spec_json_bytes(*self));
        }
        out
    }
}

/// Match `pat` at position `i` of `s`, returning the position after it.
fn match_lit(s: &Vec<u8>, i: usize, pat: &Vec<u8>) -> (r: Option<usize>)
    requires
        i <= s@.len(),
    ensures
        match r {
            Some(j) => i <= j && j <= s@.len() && spec_match_lit(s@.skip(i as int), pat@)
                == Some(s@.skip(j as int)),
            None => spec_match_lit(s@.skip(i as int), pat@) is None,
        },
{
    if s.len() - i < pat.len() {
        return None;
    }
    let slen: usize = s.len();
    let mut k: usize = 0;
    while k < pat.len()
        invariant
            slen == s@.len(),
            i <= s@.len(),
            k <= pat@.len(),
            pat@.len() <= s@.len() - i,
            forall|m: int| 0 <= m < k ==> s@[i + m] == pat@[m],
        decreases pat@.len() - k,
    {
        if s[i + k] != pat[k] {
            proof {
                assert(s@.skip(i as int).take(pat@.len() as int)[k as int] == s@[i + k]);
            }
            return None;
        }
        k = k + 1;
    }
    proof {
        assert(s@.skip(i as int).take(pat@.len() as int) =~= pat@);
        assert(s@.skip(i as int).skip(pat@.len() as int) =~= s@.skip(i as int + pat@.len()));
    }
    Some(i + pat.len())
}

spec fn spec_pow10(k: nat) -> nat
    decreases k,
{
    if k == 0 {
        1
    } else {
        10 * spec_pow10((k - 1) as nat)
    }
}

proof fn lemma_pow10_mono(a: nat, b: nat)
    requires
        a <= b,
    ensures
        spec_pow10(a) <= spec_pow10(b),
    decreases b,
{
    if a < b {
        lemma_pow10_mono(a, (b - 1) as nat);
    }
}

/// Read a decimal number at position `i` of `s`.
fn parse_num(s: &Vec<u8>, i: usize) -> (r: Option<(u32, usize)>)
    requires
        i <= s@.len(),
    ensures
        match r {
            Some(p) => i <= p.1 && p.1 <= s@.len() && spec_parse_num(s@.skip(i as int))
                == Some((p.0, s@.skip(p.1 as int))),
            None => spec_parse_num(s@.skip(i as int)) is None,
        },
{
    let mut j: usize = i;
    while j < s.len() && 48 <= s[j] && s[j] <= 57
        invariant
            i <= j <= s@.len(),
            spec_digit_count(s@.skip(i as int)) == (j - i) + spec_digit_count(s@.skip(j as int)),
            forall|q: int| i <= q < j ==> spec_is_digit(s@[q]),
        decreases s@.len() - j,
    {
        proof {
            assert(s@.skip(j as int).drop_first() =~= s@.skip(j as int + 1));
        }
        j = j + 1;
    }
    proof {
        assert(spec_digit_count(s@.skip(j as int)) == 0);
    }
    let k: usize = j - i;
    if k == 0 || k > 10 {
        return None;
    }
    let mut acc: u64 = 0;
    let mut m: usize = i;
    while m < j
        invariant
            i <= m <= j <= s@.len(),
            j - i <= 10,
            forall|q: int| i <= q < j ==> spec_is_digit(s@[q]),
            acc == spec_digits_val(s@.subrange(i as int, m as int)),
            acc < spec_pow10((m - i) as nat),
        decreases j - m,
    {
        let d: u8 = s[m] - 48;
        proof {
            assert(s@.subrange(i as int, m as int + 1).drop_last() =~= s@.subrange(
                i as int,
                m as int,
            ));
            lemma_pow10_mono((m - i) as nat, 9);
            assert(spec_pow10(9) == 1000000000) by {
                reveal_with_fuel(spec_pow10, 11);
            }
        }
        acc = acc * 10 + d as u64;
        m = m + 1;
    }
    proof {
        assert(s@.subrange(i as int, j as int) =~= s@.skip(i as int).take(k as int));
    }
    if acc > 4294967295 {
        return None;
    }
    proof {
        assert(s@.skip(i as int).skip(k as int) =~= s@.skip(j as int));
    }
    Some((acc as u32, j))
}

/// Read a theme name at position `i` of `s`.
fn parse_theme(s: &Vec<u8>, i: usize) -> (r: Option<(ThemeName, usize)>)
    requires
        i <= s@.len(),
    ensures
        match r {
            Some(p) => i <= p.1 && p.1 <= s@.len() && spec_parse_theme(s@.skip(i as int))
                == Some((p.0, s@.skip(p.1 as int))),
            None => spec_parse_theme(s@.skip(i as int)) is None,
        },
{
    let pat = theme_name_vec(ThemeName::Blue);
    if let Some(j) = match_lit(s, i, &pat) {
        return Some((ThemeName::Blue, j));
    }
    let pat = theme_name_vec(ThemeName::Purple);
    if let Some(j) = match_lit(s, i, &pat) {
        return Some((ThemeName::Purple, j));
    }
    let pat = theme_name_vec(ThemeName::Green);
    if let Some(j) = match_lit(s, i, &pat) {
        return Some((ThemeName::Green, j));
    }
    let pat = theme_name_vec(ThemeName::Red);
    if let Some(j) = match_lit(s, i, &pat) {
        return Some((ThemeName::Red, j));
    }
    let pat = theme_name_vec(ThemeName::Orange);
    if let Some(j) = match_lit(s, i, &pat) {
        return Some((ThemeName::Orange, j));
    }
    let pat = theme_name_vec(ThemeName::Cyan);
    if let Some(j) = match_lit(s, i, &pat) {
        return Some((ThemeName::Cyan, j));
    }
    None
}

/// Stripping whitespace distributes over concatenation.
proof fn lemma_strip_concat(a: Seq<u8>, b: Seq<u8>)
    ensures
        spec_strip_ws(a + b) == spec_strip_ws(a) + spec_strip_ws(b),
    decreases a.len(),
{
    if a.len() == 0 {
        assert(a + b =~= b);
        assert(spec_strip_ws(a) + spec_strip_ws(b) =~= spec_strip_ws(b));
    } else {
        assert((a + b)[0] == a[0]);
        assert((a + b).drop_first() =~= a.drop_first() + b);
        lemma_strip_concat(a.drop_first(), b);
        if !spec_is_ws(a[0]) {
            assert(seq![a[0]] + (spec_strip_ws(a.drop_first()) + spec_strip_ws(b)) =~= (seq![a[0]]
                + spec_strip_ws(a.drop_first())) + spec_strip_ws(b));
        }
    }
}

/// A sequence without whitespace is left as it is.
proof fn lemma_strip_ws_free(s: Seq<u8>)
    requires
        forall|i: int| 0 <= i < s.len() ==> !spec_is_ws(s[i]),
    ensures
        spec_strip_ws(s) == s,
    decreases s.len(),
{
    if s.len() > 0 {
        lemma_strip_ws_free(s.drop_first());
        assert(seq![s[0]] + s.drop_first() =~= s);
    }
}

/// A sequence of nothing but whitespace strips to nothing.
proof fn lemma_strip_all_ws(s: Seq<u8>)
    requires
        forall|i: int| 0 <= i < s.len() ==> spec_is_ws(s[i]),
    ensures
        spec_strip_ws(s) == Seq::<u8>::empty(),
    decreases s.len(),
{
    if s.len() > 0 {
        lemma_strip_all_ws(s.drop_first());
    }
}

/// Copy `s` with every whitespace byte dropped.
fn strip_ws(s: &Vec<u8>) -> (r: Vec<u8>)
    ensures
        r@ == spec_strip_ws(s@),
{
    let mut out: Vec<u8> = Vec::new();
    let mut i: usize = 0;
    while i < s.len()
        invariant
            i <= s@.len(),
            out@ == spec_strip_ws(s@.take(i as int)),
        decreases s@.len() - i,
    {
        let b = s[i];
        proof {
            assert(s@.take(i as int + 1) =~= s@.take(i as int) + seq![s@[i as int]]);
            lemma_strip_concat(s@.take(i as int), seq![s@[i as int]]);
            assert(seq![s@[i as int]].drop_first() =~= Seq::<u8>::empty());
            assert(spec_strip_ws(Seq::<u8>::empty()) =~= Seq::<u8>::empty());
            assert(seq![s@[i as int]] + Seq::<u8>::empty() =~= seq![s@[i as int]]);
        }
        if !(b == 32 || b == 9 || b == 10 || b == 13) {
            out.push(b);
            proof {
                assert(spec_strip_ws(seq![s@[i as int]]) =~= seq![s@[i as int]]);
                assert(out@ =~= spec_strip_ws(s@.take(i as int + 1)));
            }
        } else {
            proof {
                assert(spec_strip_ws(seq![s@[i as int]]) =~= Seq::<u8>::empty());
                assert(out@ =~= spec_strip_ws(s@.take(i as int + 1)));
            }
        }
        i = i + 1;
    }
    proof {
        assert(s@.take(s@.len() as int) =~= s@);
    }
    out
}

impl Config {
    /// The strict parse of an already-stripped token stream.
    fn parse_tokens(bytes: &Vec<u8>) -> (r: Option<Config>)
        ensures
            r == spec_parse_config(bytes@),
    {
        proof {
            assert(bytes@.skip(0) =~= bytes@);
        }
        let pat = lit_head_vec();
        let i = match match_lit(bytes, 0, &pat) {
            Some(i) => i,
            None => {
                return None;
            },
        };
        let (theme, i) = match parse_theme(bytes, i) {
            Some(p) => p,
            None => {
                return None;
            },
        };
        let pat = lit_work_vec();
        let i = match match_lit(bytes, i, &pat) {
            Some(i) => i,
            None => {
                return None;
            },
        };
        let (work_duration, i) = match parse_num(bytes, i) {
            Some(p) => p,
            None => {
                return None;
            },
        };
        let pat = lit_short_vec();
        let i = match match_lit(bytes, i, &pat) {
            Some(i) => i,
            None => {
                return None;
            },
        };
        let (short_break, i) = match parse_num(bytes, i) {
            Some(p) => p,
            None => {
                return None;
            },
        };
        let pat = lit_long_vec();
        let i = match match_lit(bytes, i, &pat) {
            Some(i) => i,
            None => {
                return None;
            },
        };
        let (long_break, i) = match parse_num(bytes, i) {
            Some(p) => p,
            None => {
                return None;
            },
        };
        let pat = lit_cycles_vec();
        let i = match match_lit(bytes, i, &pat) {
            Some(i) => i,
            None => {
                return None;
            },
        };
        let (cycles_before_long, i) = match parse_num(bytes, i) {
            Some(p) => p,
            None => {
                return None;
            },
        };
        let mut pat: Vec<u8> = Vec::new();
        pat.push(125);
        proof {
            assert(pat@ =~= lit_tail());
        }
        let i = match match_lit(bytes, i, &pat) {
            Some(i) => i,
            None => {
                return None;
            },
        };
        if i != bytes.len() {
            return None;
        }
        Some(Config { theme, work_duration, short_break, long_break, cycles_before_long })
    }

    /// Parse a preference file. Whitespace may stand anywhere; what is left
    /// after stripping it must be exactly the persisted token stream, or the
    /// file does not parse.
    pub fn parse_json_bytes(bytes: &Vec<u8>) -> (r: Option<Config>)
        ensures
            r == spec_parse_config(spec_strip_ws(bytes@)),
    {
        let stripped = strip_ws(bytes);
        Config::parse_tokens(&stripped)
    }

    /// Load a configuration from file bytes, falling back to the built-in
    /// defaults when the bytes do not parse.
    pub fn from_json_bytes_or_default(bytes: &Vec<u8>) -> (r: Config)
        ensures
            r == match spec_parse_config(spec_strip_ws(bytes@)) {
                Some(c) => c,
                None => spec_default_config(),
            },
    {
        match Config::parse_json_bytes(bytes) {
            Some(c) => c,
            None => Config::default(),
        }
    }
}

proof fn lemma_match_prefix(lit: Seq<u8>, rest: Seq<u8>)
    ensures
        spec_match_lit(lit + rest, lit) == Some(rest),
{
    assert((lit + rest).take(lit.len() as int) =~= lit);
    assert((lit + rest).skip(lit.len() as int) =~= rest);
}

proof fn lemma_match_none_first(s: Seq<u8>, lit: Seq<u8>)
    requires
        s.len() > 0,
        lit.len() > 0,
        s[0] != lit[0],
    ensures
        spec_match_lit(s, lit) is None,
{
    if lit.len() <= s.len() {
        assert(s.take(lit.len() as int)[0] == s[0]);
    }
}

proof fn lemma_dec_digits_digits(n: nat)
    ensures
        spec_dec_digits(n).len() >= 1,
        forall|i: int| 0 <= i < spec_dec_digits(n).len() ==> spec_is_digit(spec_dec_digits(n)[i]),
    decreases n,
{
    if n >= 10 {
        lemma_dec_digits_digits(n / 10);
    }
}

proof fn lemma_dec_digits_len(n: nat, k: nat)
    requires
        1 <= k,
        n < spec_pow10(k),
    ensures
        spec_dec_digits(n).len() <= k,
    decreases n,
{
    if n < 10 {
    } else {
        assert(spec_pow10(k) == 10 * spec_pow10((k - 1) as nat));
        if k == 1 {
            assert(spec_pow10(1) == 10) by {
                reveal_with_fuel(spec_pow10, 2);
            }
        } else {
            vstd::arithmetic::div_mod::lemma_fundamental_div_mod(n as int, 10);
            lemma_dec_digits_len(n / 10, (k - 1) as nat);
        }
    }
}

proof fn lemma_digits_val_of_dec_digits(n: nat)
    ensures
        spec_digits_val(spec_dec_digits(n)) == n,
    decreases n,
{
    let d = spec_dec_digits(n);
    if n < 10 {
        assert(d.len() == 1);
        assert(d.drop_last() =~= Seq::<u8>::empty());
        assert(spec_digits_val(Seq::<u8>::empty()) == 0);
        assert(spec_digits_val(d) == spec_digits_val(d.drop_last()) * 10 + (d.last() as int - 48));
        assert(d.last() == (48 + n) as u8);
        assert(((48 + n) as u8) as int == 48 + n);
    } else {
        lemma_digits_val_of_dec_digits(n / 10);
        assert(d.drop_last() =~= spec_dec_digits(n / 10));
        vstd::arithmetic::div_mod::lemma_fundamental_div_mod(n as int, 10);
        assert(d.last() == (48 + n % 10) as u8);
        assert(((48 + n % 10) as u8) as int == 48 + (n % 10));
        assert(spec_digits_val(d) == (n / 10) * 10 + (n % 10));
    }
}

proof fn lemma_digit_count_exact(d: Seq<u8>, rest: Seq<u8>)
    requires
        forall|i: int| 0 <= i < d.len() ==> spec_is_digit(d[i]),
        rest.len() > 0,
        !spec_is_digit(rest[0]),
    ensures
        spec_digit_count(d + rest) == d.len(),
    decreases d.len(),
{
    if d.len() == 0 {
        assert(d + rest =~= rest);
    } else {
        assert((d + rest)[0] == d[0]);
        assert((d + rest).drop_first() =~= d.drop_first() + rest);
        lemma_digit_count_exact(d.drop_first(), rest);
    }
}

/// A serialized number followed by anything that does not begin with a
/// digit parses back to exactly that number.
proof fn lemma_parse_num_of_dec_digits(n: nat, rest: Seq<u8>)
    requires
        n <= 4294967295,
        rest.len() > 0,
        !spec_is_digit(rest[0]),
    ensures
        spec_parse_num(spec_dec_digits(n) + rest) == Some((n as u32, rest)),
{
    let d = spec_dec_digits(n);
    lemma_dec_digits_digits(n);
    lemma_digit_count_exact(d, rest);
    assert(spec_pow10(10) == 10000000000) by {
        reveal_with_fuel(spec_pow10, 11);
    }
    lemma_dec_digits_len(n, 10);
    assert((d + rest).take(d.len() as int) =~= d);
    lemma_digits_val_of_dec_digits(n);
    assert((d + rest).skip(d.len() as int) =~= rest);
}

/// A serialized theme name parses back to exactly that theme. The six
/// names begin with six distinct letters, so no other name can match.
#[verifier::rlimit(50)]
proof fn lemma_parse_theme_of_name(t: ThemeName, rest: Seq<u8>)
    ensures
        spec_parse_theme(theme_name_bytes(t) + rest) == Some((t, rest)),
{
    let s = theme_name_bytes(t) + rest;
    assert(s[0] == theme_name_bytes(t)[0]);
    lemma_match_prefix(theme_name_bytes(t), rest);
    match t {
        ThemeName::Blue => {
        },
        ThemeName::Purple => {
            lemma_match_none_first(s, theme_name_bytes(ThemeName::Blue));
        },
        ThemeName::Green => {
            lemma_match_none_first(s, theme_name_bytes(ThemeName::Blue));
            lemma_match_none_first(s, theme_name_bytes(ThemeName::Purple));
        },
        ThemeName::Red => {
            lemma_match_none_first(s, theme_name_bytes(ThemeName::Blue));
            lemma_match_none_first(s, theme_name_bytes(ThemeName::Purple));
            lemma_match_none_first(s, theme_name_bytes(ThemeName::Green));
        },
        ThemeName::Orange => {
            lemma_match_none_first(s, theme_name_bytes(ThemeName::Blue));
            lemma_match_none_first(s, theme_name_bytes(ThemeName::Purple));
            lemma_match_none_first(s, theme_name_bytes(ThemeName::Green));
            lemma_match_none_first(s, theme_name_bytes(ThemeName::Red));
        },
        ThemeName::Cyan => {
            lemma_match_none_first(s, theme_name_bytes(ThemeName::Blue));
            lemma_match_none_first(s, theme_name_bytes(ThemeName::Purple));
            lemma_match_none_first(s, theme_name_bytes(ThemeName::Green));
            lemma_match_none_first(s, theme_name_bytes(ThemeName::Red));
            lemma_match_none_first(s, theme_name_bytes(ThemeName::Orange));
        },
    }
}

/// The compact token stream of a configuration parses back to exactly that
/// configuration.
#[verifier::rlimit(100)]
proof fn lemma_compact_round_trip(c: Config)
    ensures
        spec_parse_config(spec_compact_bytes(c)) == Some(c),
{
    let r10 = lit_tail();
    let r9 = spec_dec_digits(c.cycles_before_long as nat) + r10;
    let r8 = lit_cycles() + r9;
    let r7 = spec_dec_digits(c.long_break as nat) + r8;
    let r6 = lit_long() + r7;
    let r5 = spec_dec_digits(c.short_break as nat) + r6;
    let r4 = lit_short() + r5;
    let r3 = spec_dec_digits(c.work_duration as nat) + r4;
    let r2 = lit_work() + r3;
    let r1 = theme_name_bytes(c.theme) + r2;
    let s = lit_head() + r1;
    assert(spec_compact_bytes(c) =~= s);
    lemma_match_prefix(lit_head(), r1);
    lemma_parse_theme_of_name(c.theme, r2);
    lemma_match_prefix(lit_work(), r3);
    assert(r4[0] == 44);
    lemma_parse_num_of_dec_digits(c.work_duration as nat, r4);
    lemma_match_prefix(lit_short(), r5);
    assert(r6[0] == 44);
    lemma_parse_num_of_dec_digits(c.short_break as nat, r6);
    lemma_match_prefix(lit_long(), r7);
    assert(r8[0] == 44);
    lemma_parse_num_of_dec_digits(c.long_break as nat, r8);
    lemma_match_prefix(lit_cycles(), r9);
    assert(r10[0] == 125);
    lemma_parse_num_of_dec_digits(c.cycles_before_long as nat, r10);
    assert(r10 =~= lit_tail() + Seq::<u8>::empty());
    lemma_match_prefix(lit_tail(), Seq::<u8>::empty());
}

/// Stripping a sequence of non-whitespace, whitespace and non-whitespace
/// stretches keeps exactly the non-whitespace ones.
proof fn lemma_strip_piece(n1: Seq<u8>, w1: Seq<u8>, n2: Seq<u8>, w2: Seq<u8>, n3: Seq<u8>)
    requires
        forall|i: int| 0 <= i < n1.len() ==> !spec_is_ws(n1[i]),
        forall|i: int| 0 <= i < w1.len() ==> spec_is_ws(w1[i]),
        forall|i: int| 0 <= i < n2.len() ==> !spec_is_ws(n2[i]),
        forall|i: int| 0 <= i < w2.len() ==> spec_is_ws(w2[i]),
        forall|i: int| 0 <= i < n3.len() ==> !spec_is_ws(n3[i]),
    ensures
        spec_strip_ws(n1 + w1 + n2 + w2 + n3) == n1 + n2 + n3,
{
    lemma_strip_concat(n1 + w1 + n2 + w2, n3);
    lemma_strip_concat(n1 + w1 + n2, w2);
    lemma_strip_concat(n1 + w1, n2);
    lemma_strip_concat(n1, w1);
    lemma_strip_ws_free(n1);
    lemma_strip_all_ws(w1);
    lemma_strip_ws_free(n2);
    lemma_strip_all_ws(w2);
    lemma_strip_ws_free(n3);
    assert(spec_strip_ws(n1 + w1 + n2 + w2 + n3) =~= n1 + n2 + n3);
}

proof fn lemma_strip_pretty_head()
    ensures
        spec_strip_ws(pretty_head()) == lit_head(),
{
    let n1 = seq![123u8];
    let w1 = seq![10u8, 32u8, 32u8];
    let n2 = seq![34u8, 116u8, 104u8, 101u8, 109u8, 101u8, 34u8, 58u8];
    let w2 = seq![32u8];
    let n3 = seq![34u8];
    assert(pretty_head() =~= n1 + w1 + n2 + w2 + n3);
    lemma_strip_piece(n1, w1, n2, w2, n3);
    assert(n1 + n2 + n3 =~= lit_head());
}

proof fn lemma_strip_pretty_work()
    ensures
        spec_strip_ws(pretty_work()) == lit_work(),
{
    let n1 = seq![34u8, 44u8];
    let w1 = seq![10u8, 32u8, 32u8];
    let n2 = seq![34u8, 119u8, 111u8, 114u8, 107u8, 95u8, 100u8, 117u8, 114u8, 97u8, 116u8,
        105u8, 111u8, 110u8, 34u8, 58u8];
    let w2 = seq![32u8];
    let n3 = Seq::<u8>::empty();
    assert(pretty_work() =~= n1 + w1 + n2 + w2 + n3);
    lemma_strip_piece(n1, w1, n2, w2, n3);
    assert(n1 + n2 + n3 =~= lit_work());
}

proof fn lemma_strip_pretty_short()
    ensures
        spec_strip_ws(pretty_short()) == lit_short(),
{
    let n1 = seq![44u8];
    let w1 = seq![10u8, 32u8, 32u8];
    let n2 = seq![34u8, 115u8, 104u8, 111u8, 114u8, 116u8, 95u8, 98u8, 114u8, 101u8, 97u8,
        107u8, 34u8, 58u8];
    let w2 = seq![32u8];
    let n3 = Seq::<u8>::empty();
    assert(pretty_short() =~= n1 + w1 + n2 + w2 + n3);
    lemma_strip_piece(n1, w1, n2, w2, n3);
    assert(n1 + n2 + n3 =~= lit_short());
}

proof fn lemma_strip_pretty_long()
    ensures
        spec_strip_ws(pretty_long()) == lit_long(),
{
    let n1 = seq![44u8];
    let w1 = seq![10u8, 32u8, 32u8];
    let n2 = seq![34u8, 108u8, 111u8, 110u8, 103u8, 95u8, 98u8, 114u8, 101u8, 97u8, 107u8, 34u8,
        58u8];
    let w2 = seq![32u8];
    let n3 = Seq::<u8>::empty();
    assert(pretty_long() =~= n1 + w1 + n2 + w2 + n3);
    lemma_strip_piece(n1, w1, n2, w2, n3);
    assert(n1 + n2 + n3 =~= lit_long());
}

proof fn lemma_strip_pretty_cycles()
    ensures
        spec_strip_ws(pretty_cycles()) == lit_cycles(),
{
    let n1 = seq![44u8];
    let w1 = seq![10u8, 32u8, 32u8];
    let n2 = seq![34u8, 99u8, 121u8, 99u8, 108u8, 101u8, 115u8, 95u8, 98u8, 101u8, 102u8, 111u8,
        114u8, 101u8, 95u8, 108u8, 111u8, 110u8, 103u8, 34u8, 58u8];
    let w2 = seq![32u8];
    let n3 = Seq::<u8>::empty();
    assert(pretty_cycles() =~= n1 + w1 + n2 + w2 + n3);
    lemma_strip_piece(n1, w1, n2, w2, n3);
    assert(n1 + n2 + n3 =~= lit_cycles());
}

proof fn lemma_strip_pretty_tail()
    ensures
        spec_strip_ws(pretty_tail()) == lit_tail(),
{
    let n1 = Seq::<u8>::empty();
    let w1 = seq![10u8];
    let n2 = seq![125u8];
    let w2 = Seq::<u8>::empty();
    let n3 = Seq::<u8>::empty();
    assert(pretty_tail() =~= n1 + w1 + n2 + w2 + n3);
    lemma_strip_piece(n1, w1, n2, w2, n3);
    assert(n1 + n2 + n3 =~= lit_tail());
}

proof fn lemma_theme_name_ws_free(t: ThemeName)
    ensures
        forall|i: int| 0 <= i < theme_name_bytes(t).len() ==> !spec_is_ws(theme_name_bytes(t)[i]),
{
}

proof fn lemma_dec_digits_ws_free(n: nat)
    ensures
        forall|i: int| 0 <= i < spec_dec_digits(n).len() ==> !spec_is_ws(spec_dec_digits(n)[i]),
{
    lemma_dec_digits_digits(n);
}

/// Stripping the whitespace out of the pretty-printed file leaves the
/// compact token stream.
proof fn lemma_strip_json(c: Config)
    ensures
        spec_strip_ws(spec_json_bytes(c)) == spec_compact_bytes(c),
{
    let t = theme_name_bytes(c.theme);
    let d1 = spec_dec_digits(c.work_duration as nat);
    let d2 = spec_dec_digits(c.short_break as nat);
    let d3 = spec_dec_digits(c.long_break as nat);
    let d4 = spec_dec_digits(c.cycles_before_long as nat);
    let a1 = pretty_head();
    let a2 = a1 + t;
    let a3 = a2 + pretty_work();
    let a4 = a3 + d1;
    let a5 = a4 + pretty_short();
    let a6 = a5 + d2;
    let a7 = a6 + pretty_long();
    let a8 = a7 + d3;
    let a9 = a8 + pretty_cycles();
    let a10 = a9 + d4;
    lemma_strip_concat(a1, t);
    lemma_strip_concat(a2, pretty_work());
    lemma_strip_concat(a3, d1);
    lemma_strip_concat(a4, pretty_short());
    lemma_strip_concat(a5, d2);
    lemma_strip_concat(a6, pretty_long());
    lemma_strip_concat(a7, d3);
    lemma_strip_concat(a8, pretty_cycles());
    lemma_strip_concat(a9, d4);
    lemma_strip_concat(a10, pretty_tail());
    lemma_strip_pretty_head();
    lemma_strip_pretty_work();
    lemma_strip_pretty_short();
    lemma_strip_pretty_long();
    lemma_strip_pretty_cycles();
    lemma_strip_pretty_tail();
    lemma_theme_name_ws_free(c.theme);
    lemma_strip_ws_free(t);
    lemma_dec_digits_ws_free(c.work_duration as nat);
    lemma_strip_ws_free(d1);
    lemma_dec_digits_ws_free(c.short_break as nat);
    lemma_strip_ws_free(d2);
    lemma_dec_digits_ws_free(c.long_break as nat);
    lemma_strip_ws_free(d3);
    lemma_dec_digits_ws_free(c.cycles_before_long as nat);
    lemma_strip_ws_free(d4);
    assert(spec_strip_ws(spec_json_bytes(c)) =~= spec_compact_bytes(c));
}

/// Writing a configuration and parsing the bytes back yields exactly the
/// configuration that was written, for every configuration.
pub proof fn lemma_json_round_trip(c: Config)
    ensures
        spec_parse_config(spec_strip_ws(spec_json_bytes(c))) == Some(c),
{
    lemma_strip_json(c);
    lemma_compact_round_trip(c);
}

} // verus!
