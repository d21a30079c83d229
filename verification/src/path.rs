use vstd::prelude::*;
use vstd::string::StringExecFns;

verus! {

/// The path of the loop control device.
pub const LOOP_CONTROL: &'static str = "/dev/loop-control";
/// The prefix of the loop device nodes: `/dev/loop0`, `/dev/loop1`, ...
pub const LOOP_PREFIX: &'static str = "/dev/loop";
/// The prefix of the loop device nodes on Android.
pub const ANDROID_LOOP_PREFIX: &'static str = "/dev/block/loop";
/// The directory whose entries link each open file descriptor of the
/// process to the file it was opened on.
pub const PROC_SELF_FD: &'static str = "/proc/self/fd/";

/// The character of the decimal digit `d`.
pub open spec fn digit_char(d: int) -> char {
    seq!['0', '1', '2', '3', '4', '5', '6', '7', '8', '9'][d]
}

/// The decimal digits of `n`, most significant first, without leading zeros.
pub open spec fn decimal_digits(n: nat) -> Seq<char>
    decreases n,
{
    if n < 10 {
        seq![digit_char(n as int)]
    } else {
        decimal_digits(n / 10).push(digit_char((n % 10) as int))
    }
}

/// How Rust writes the integer `n`: a minus sign before negative numbers,
/// then the decimal digits of its magnitude.
pub open spec fn decimal(n: int) -> Seq<char> {
    if n < 0 {
        seq!['-'] + decimal_digits((-n) as nat)
    } else {
        decimal_digits(n as nat)
    }
}

/// The one-character string of the digit `d`.
fn digit_str(d: u32) -> (r: &'static str)
    requires
        d < 10,
    ensures
        r@ == seq![digit_char(d as int)],
{
    proof {
        reveal_strlit("0");
        reveal_strlit("1");
        reveal_strlit("2");
        reveal_strlit("3");
        reveal_strlit("4");
        reveal_strlit("5");
        reveal_strlit("6");
        reveal_strlit("7");
        reveal_strlit("8");
        reveal_strlit("9");
    }
    match d {
        0 => "0",
        1 => "1",
        2 => "2",
        3 => "3",
        4 => "4",
        5 => "5",
        6 => "6",
        7 => "7",
        8 => "8",
        _ => "9",
    }
}

/// Appends the decimal digits of `n` to `s`.
fn push_decimal_digits(s: &mut String, n: u32)
    ensures
        final(s)@ == old(s)@ + decimal_digits(n as nat),
    decreases n,
{
    if n >= 10 {
        push_decimal_digits(s, n / 10);
    }
    s.append(digit_str(n % 10));
}

/// Appends `n`, written as Rust writes integers, to `s`.
fn push_decimal(s: &mut String, n: i32)
    ensures
        final(s)@ == old(s)@ + decimal(n as int),
{
    if n < 0 {
        proof {
            reveal_strlit("-");
        }
        s.append("-");
        let magnitude: u32 = (0i64 - (n as i64)) as u32;
        push_decimal_digits(s, magnitude);
    } else {
        push_decimal_digits(s, n as u32);
    }
}

/// The path of the loop device node of number `dev_num` under `prefix`,
/// as `format!("{}{}", prefix, dev_num)` writes it.
pub fn loop_device_path(prefix: &str, dev_num: i32) -> (r: String)
    ensures
        r@ == prefix@ + decimal(dev_num as int),
{
    let mut s = String::from_str(prefix);
    push_decimal(&mut s, dev_num);
    s
}

/// The path of the link `/proc/self/fd/<fd>`, which names the file that the
/// descriptor `fd` of this process is open on.
pub fn fd_link_path(fd: i32) -> (r: String)
    ensures
        r@ == PROC_SELF_FD@ + decimal(fd as int),
{
    let mut s = String::from_str(PROC_SELF_FD);
    push_decimal(&mut s, fd);
    s
}

proof fn lemma_digit_char_injective(a: int, b: int)
    requires
        0 <= a < 10,
        0 <= b < 10,
        digit_char(a) == digit_char(b),
    ensures
        a == b,
{
}

proof fn lemma_decimal_digits_shape(n: nat)
    ensures
        decimal_digits(n).len() >= 1,
        n >= 10 ==> decimal_digits(n).len() >= 2,
        forall|i: int| 0 <= i < decimal_digits(n).len() ==> #[trigger] decimal_digits(n)[i] != '-',
    decreases n,
{
    if n >= 10 {
        lemma_decimal_digits_shape(n / 10);
        let d = decimal_digits(n / 10);
        assert forall|i: int| 0 <= i < decimal_digits(n).len() implies #[trigger] decimal_digits(
            n,
        )[i] != '-' by {
            if i < d.len() {
                assert(decimal_digits(n)[i] == d[i]);
            }
        }
    }
}

proof fn lemma_decimal_digits_injective(n: nat, m: nat)
    requires
        decimal_digits(n) == decimal_digits(m),
    ensures
        n == m,
    decreases n,
{
    lemma_decimal_digits_shape(n);
    lemma_decimal_digits_shape(m);
    if n < 10 && m < 10 {
        assert(decimal_digits(n)[0] == digit_char(n as int));
        assert(decimal_digits(m)[0] == digit_char(m as int));
        lemma_digit_char_injective(n as int, m as int);
    } else if n >= 10 && m >= 10 {
        let dn = decimal_digits(n);
        let dm = decimal_digits(m);
        assert(dn.last() == dm.last());
        lemma_digit_char_injective((n % 10) as int, (m % 10) as int);
        assert(dn.drop_last() =~= decimal_digits(n / 10));
        assert(dm.drop_last() =~= decimal_digits(m / 10));
        lemma_decimal_digits_injective(n / 10, m / 10);
    }
}

proof fn lemma_decimal_injective(a: int, b: int)
    requires
        decimal(a) == decimal(b),
    ensures
        a == b,
{
    if a < 0 {
        lemma_decimal_digits_shape((-a) as nat);
    }
    if b < 0 {
        lemma_decimal_digits_shape((-b) as nat);
    }
    if a < 0 && b < 0 {
        assert(decimal(a).drop_first() =~= decimal_digits((-a) as nat));
        assert(decimal(b).drop_first() =~= decimal_digits((-b) as nat));
        lemma_decimal_digits_injective((-a) as nat, (-b) as nat);
    } else if a >= 0 && b >= 0 {
        lemma_decimal_digits_injective(a as nat, b as nat);
    } else if a < 0 {
        lemma_decimal_digits_shape(b as nat);
        assert(decimal(a)[0] == '-');
        assert(decimal(b)[0] != '-');
    } else {
        lemma_decimal_digits_shape(a as nat);
        assert(decimal(b)[0] == '-');
        assert(decimal(a)[0] != '-');
    }
}

/// Different device numbers name different device nodes: under one prefix,
/// the paths of two loop devices are equal only if their numbers are.
pub proof fn law_device_paths_are_distinct(prefix: Seq<char>, a: int, b: int)
    requires
        prefix + decimal(a) == prefix + decimal(b),
    ensures
        a == b,
{
    assert((prefix + decimal(a)).skip(prefix.len() as int) =~= decimal(a));
    assert((prefix + decimal(b)).skip(prefix.len() as int) =~= decimal(b));
    lemma_decimal_injective(a, b);
}

/// The number that a string of decimal digits stands for, reading each
/// character by its character code (`'0'` is 48).
pub open spec fn digits_value(s: Seq<char>) -> int
    decreases s.len(),
{
    if s.len() == 0 {
        0
    } else {
        digits_value(s.drop_last()) * 10 + (s.last() as int - 48)
    }
}

/// Every character is an ASCII decimal digit, `'0'` to `'9'`.
pub open spec fn all_ascii_digits(s: Seq<char>) -> bool {
    forall|i: int| 0 <= i < s.len() ==> 48 <= #[trigger] (s[i] as int) <= 57
}

/// The digit characters are the ASCII digits: the digit `d` is the
/// character of code `48 + d`.
pub proof fn law_digit_chars_are_ascii(d: int)
    requires
        0 <= d < 10,
    ensures
        digit_char(d) as int == 48 + d,
{
    assert('0' as int == 48);
    assert('9' as int == 57);
}

/// The decimal form of a natural number is a string of ASCII digits that
/// reads back as that number, so a number below ten is the one character of
/// code `48 + n`.
pub proof fn law_decimal_digits_read_back(n: nat)
    ensures
        all_ascii_digits(decimal_digits(n)),
        digits_value(decimal_digits(n)) == n,
        n < 10 ==> decimal_digits(n) == seq![(48 + n) as char],
    decreases n,
{
    let s = decimal_digits(n);
    if n < 10 {
        law_digit_chars_are_ascii(n as int);
        assert(s.drop_last() =~= Seq::<char>::empty());
        assert(s =~= seq![(48 + n) as char]);
        assert(digits_value(s.drop_last()) == 0);
        assert(s.last() == digit_char(n as int));
    } else {
        law_decimal_digits_read_back(n / 10);
        law_digit_chars_are_ascii((n % 10) as int);
        assert(s.drop_last() =~= decimal_digits(n / 10));
        assert(s.last() == digit_char((n % 10) as int));
        assert(digits_value(s) == digits_value(decimal_digits(n / 10)) * 10 + (n % 10));
        assert forall|i: int| 0 <= i < s.len() implies 48 <= #[trigger] (s[i] as int) <= 57 by {
            if i < s.len() - 1 {
                assert(s[i] == decimal_digits(n / 10)[i]);
            }
        }
    }
}

/// How an integer is written: a non-negative number as ASCII digits that
/// read back as the number; a negative one as `'-'` followed by the digits of
/// its magnitude.
pub proof fn law_decimal_reads_back(n: int)
    ensures
        n >= 0 ==> all_ascii_digits(decimal(n)) && digits_value(decimal(n)) == n,
        n < 0 ==> decimal(n)[0] == '-' && all_ascii_digits(decimal(n).drop_first())
            && digits_value(decimal(n).drop_first()) == -n,
{
    if n >= 0 {
        law_decimal_digits_read_back(n as nat);
    } else {
        law_decimal_digits_read_back((-n) as nat);
        assert(decimal(n).drop_first() =~= decimal_digits((-n) as nat));
    }
}

/// A device path names its number: after the prefix comes the number in
/// ASCII decimal digits that read back as the number (for the non-negative
/// numbers that the loop driver hands out).
pub proof fn law_device_path_names_number(prefix: Seq<char>, n: int)
    requires
        n >= 0,
    ensures
        (prefix + decimal(n)).take(prefix.len() as int) == prefix,
        all_ascii_digits((prefix + decimal(n)).skip(prefix.len() as int)),
        digits_value((prefix + decimal(n)).skip(prefix.len() as int)) == n,
{
    law_decimal_reads_back(n);
    assert((prefix + decimal(n)).take(prefix.len() as int) =~= prefix);
    assert((prefix + decimal(n)).skip(prefix.len() as int) =~= decimal(n));
}

} // verus!
