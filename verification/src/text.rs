//! Text primitives: decimal rendering, whitespace trimming, and substring
//! search, each over sequences of characters.

use vstd::prelude::*;

verus! {

/// The decimal digit for a value below ten.
pub open spec fn digit_char(d: nat) -> char {
    if d == 0 {
        '0'
    } else if d == 1 {
        '1'
    } else if d == 2 {
        '2'
    } else if d == 3 {
        '3'
    } else if d == 4 {
        '4'
    } else if d == 5 {
        '5'
    } else if d == 6 {
        '6'
    } else if d == 7 {
        '7'
    } else if d == 8 {
        '8'
    } else {
        '9'
    }
}

/// `n` in decimal, without sign or leading zeros.
pub open spec fn decimal(n: nat) -> Seq<char>
    decreases n,
{
    if n < 10 {
        seq![digit_char(n)]
    } else {
        decimal(n / 10).push(digit_char(n % 10))
    }
}

/// A count of hundredths as a number with exactly two decimal places:
/// `1234` reads `12.34`, and `5` reads `0.05`.
pub open spec fn two_places(hundredths: nat) -> Seq<char> {
    decimal(hundredths / 100) + seq!['.', digit_char((hundredths / 10) % 10), digit_char(hundredths % 10)]
}

/// Whether `c` has the Unicode property `White_Space`.
pub open spec fn is_whitespace(c: char) -> bool {
    let u = c as u32;
    ||| 0x09 <= u <= 0x0D
    ||| u == 0x20
    ||| u == 0x85
    ||| u == 0xA0
    ||| u == 0x1680
    ||| 0x2000 <= u <= 0x200A
    ||| u == 0x2028
    ||| u == 0x2029
    ||| u == 0x202F
    ||| u == 0x205F
    ||| u == 0x3000
}

/// `s` without its leading whitespace.
pub open spec fn trim_start(s: Seq<char>) -> Seq<char>
    decreases s.len(),
{
    if s.len() > 0 && is_whitespace(s[0]) {
        trim_start(s.drop_first())
    } else {
        s
    }
}

/// `s` without its trailing whitespace.
pub open spec fn trim_end(s: Seq<char>) -> Seq<char>
    decreases s.len(),
{
    if s.len() > 0 && is_whitespace(s.last()) {
        trim_end(s.drop_last())
    } else {
        s
    }
}

/// `s` without its leading and trailing whitespace.
pub open spec fn trimmed(s: Seq<char>) -> Seq<char> {
    trim_end(trim_start(s))
}

/// Whether `pat` stands in `s` at position `at`.
pub open spec fn occurs_at(s: Seq<char>, pat: Seq<char>, at: int) -> bool {
    0 <= at && at + pat.len() <= s.len() && s.subrange(at, at + pat.len()) == pat
}

/// Whether `pat` stands somewhere in `s`.
pub open spec fn contains(s: Seq<char>, pat: Seq<char>) -> bool {
    exists|at: int| occurs_at(s, pat, at)
}

/// Whether `s` begins with `prefix`.
pub open spec fn starts_with(s: Seq<char>, prefix: Seq<char>) -> bool {
    occurs_at(s, prefix, 0)
}

/// The characters of `s`, in order.
pub fn chars_of(s: &str) -> (v: Vec<char>)
    ensures
        v@ == s@,
{
    broadcast use vstd::string::group_string_axioms;

    let mut v: Vec<char> = Vec::new();
    for c in it: s.chars()
        invariant
            it.seq() == s@,
            v@ == s@.subrange(0, it.index() as int),
    {
        v.push(c);
        assert(v@ =~= s@.subrange(0, it.index() + 1));
    }
    assert(s@.subrange(0, s@.len() as int) =~= s@);
    v
}

/// The one-character text of a decimal digit.
fn digit_str(d: u8) -> (s: &'static str)
    requires
        d < 10,
    ensures
        s@ == seq![digit_char(d as nat)],
{
    proof {
        reveal_strlit("0");
        reveal_strlit("1");
        reveal_strlit("2");
        reveal_strlit("3");
        reveal_strlit("4");
        reveal_strlit("5");
        reveal_strlit("6");
        reveal_strlit("7");
        reveal_strlit("8");
        reveal_strlit("9");
    }
    let s: &'static str = if d == 0 {
        "0"
    } else if d == 1 {
        "1"
    } else if d == 2 {
        "2"
    } else if d == 3 {
        "3"
    } else if d == 4 {
        "4"
    } else if d == 5 {
        "5"
    } else if d == 6 {
        "6"
    } else if d == 7 {
        "7"
    } else if d == 8 {
        "8"
    } else {
        "9"
    };
    assert(s@ =~= seq![digit_char(d as nat)]);
    s
}

/// Appends `n` in decimal to `out`.
pub fn push_decimal(out: &mut String, n: u128)
    ensures
        final(out)@ == old(out)@ + decimal(n as nat),
    decreases n,
{
    if n >= 10 {
        push_decimal(out, n / 10);
    }
    out.append(digit_str((n % 10) as u8));
    assert(final(out)@ =~= old(out)@ + decimal(n as nat));
}

/// Appends `hundredths` as a number with exactly two decimal places to `out`.
pub fn push_two_places(out: &mut String, hundredths: u128)
    ensures
        final(out)@ == old(out)@ + two_places(hundredths as nat),
{
    push_decimal(out, hundredths / 100);
    out.append(".");
    out.append(digit_str(((hundredths / 10) % 10) as u8));
    out.append(digit_str((hundredths % 10) as u8));
    proof {
        reveal_strlit(".");
        assert("."@ =~= seq!['.']);
        assert(final(out)@ =~= old(out)@ + two_places(hundredths as nat));
    }
}

/// Whether `a` and `b` hold the same characters.
pub fn str_eq(a: &str, b: &str) -> (same: bool)
    ensures
        same == (a@ == b@),
{
    let av: Vec<char> = chars_of(a);
    let bv: Vec<char> = chars_of(b);
    if av.len() != bv.len() {
        return false;
    }
    let mut i: usize = 0;
    while i < av.len()
        invariant
            av@ == a@,
            bv@ == b@,
            av.len() == bv.len(),
            i <= av.len(),
            forall|k: int| 0 <= k < i ==> av@[k] == bv@[k],
        decreases av.len() - i,
    {
        if av[i] != bv[i] {
            return false;
        }
        i += 1;
    }
    assert(av@ =~= bv@);
    true
}

/// Whether `c` has the Unicode property `White_Space`.
pub fn char_is_whitespace(c: char) -> (b: bool)
    ensures
        b == is_whitespace(c),
{
    let u: u32 = c as u32;
    (0x09 <= u && u <= 0x0D) || u == 0x20 || u == 0x85 || u == 0xA0 || u == 0x1680 || (0x2000 <= u
        && u <= 0x200A) || u == 0x2028 || u == 0x2029 || u == 0x202F || u == 0x205F || u == 0x3000
}

/// Dropping `lead` whitespace characters from the front, where the next
/// character is none, is trimming the start.
pub proof fn lemma_trim_start_at(s: Seq<char>, lead: int)
    requires
        0 <= lead <= s.len(),
        forall|k: int| 0 <= k < lead ==> is_whitespace(s[k]),
        lead < s.len() ==> !is_whitespace(s[lead]),
    ensures
        trim_start(s) == s.subrange(lead, s.len() as int),
    decreases lead,
{
    if lead == 0 {
        assert(s.subrange(0, s.len() as int) =~= s);
    } else {
        let rest = s.drop_first();
        assert forall|k: int| 0 <= k < lead - 1 implies is_whitespace(rest[k]) by {
            assert(rest[k] == s[k + 1]);
        }
        lemma_trim_start_at(rest, lead - 1);
        assert(rest.subrange(lead - 1, rest.len() as int) =~= s.subrange(lead, s.len() as int));
    }
}

/// Keeping the first `keep` characters, where the last of them is no
/// whitespace and all behind them are, is trimming the end.
pub proof fn lemma_trim_end_at(s: Seq<char>, keep: int)
    requires
        0 <= keep <= s.len(),
        forall|k: int| keep <= k < s.len() ==> is_whitespace(s[k]),
        keep > 0 ==> !is_whitespace(s[keep - 1]),
    ensures
        trim_end(s) == s.subrange(0, keep),
    decreases s.len() - keep,
{
    if keep == s.len() {
        assert(s.subrange(0, s.len() as int) =~= s);
    } else {
        let rest = s.drop_last();
        lemma_trim_end_at(rest, keep);
        assert(rest.subrange(0, keep) =~= s.subrange(0, keep));
    }
}

/// Whether `s`, without its leading and trailing whitespace, is `token`.
pub fn trimmed_equals(s: &str, token: &str) -> (b: bool)
    ensures
        b == (trimmed(s@) == token@),
{
    let sv: Vec<char> = chars_of(s);
    let tv: Vec<char> = chars_of(token);
    let n: usize = sv.len();
    let mut lead: usize = 0;
    while lead < n && char_is_whitespace(sv[lead])
        invariant
            n == sv.len(),
            lead <= n,
            forall|k: int| 0 <= k < lead ==> is_whitespace(sv@[k]),
        decreases n - lead,
    {
        lead += 1;
    }
    let mut keep: usize = n;
    while keep > lead && char_is_whitespace(sv[keep - 1])
        invariant
            n == sv.len(),
            lead <= keep <= n,
            forall|k: int| keep <= k < n ==> is_whitespace(sv@[k]),
        decreases keep,
    {
        keep -= 1;
    }
    proof {
        lemma_trim_start_at(sv@, lead as int);
        let front = sv@.subrange(lead as int, n as int);
        assert forall|k: int| keep - lead <= k < front.len() implies is_whitespace(front[k]) by {
            assert(front[k] == sv@[k + lead]);
        }
        lemma_trim_end_at(front, keep - lead);
        assert(front.subrange(0, keep - lead) =~= sv@.subrange(lead as int, keep as int));
        assert(trimmed(s@) == sv@.subrange(lead as int, keep as int));
    }
    if keep - lead != tv.len() {
        return false;
    }
    let mut i: usize = 0;
    while i < tv.len()
        invariant
            lead <= keep <= n,
            n == sv.len(),
            keep - lead == tv.len(),
            i <= tv.len(),
            tv@ == token@,
            trimmed(s@) == sv@.subrange(lead as int, keep as int),
            forall|k: int| 0 <= k < i ==> sv@[lead + k] == tv@[k],
        decreases tv.len() - i,
    {
        if sv[lead + i] != tv[i] {
            assert(sv@.subrange(lead as int, keep as int)[i as int] != tv@[i as int]);
            return false;
        }
        i += 1;
    }
    assert(sv@.subrange(lead as int, keep as int) =~= tv@);
    true
}

/// Whether `pat` stands in `s` at position `at`.
fn matches_at(s: &Vec<char>, pat: &Vec<char>, at: usize) -> (b: bool)
    requires
        at + pat.len() <= s.len(),
    ensures
        b == occurs_at(s@, pat@, at as int),
{
    let mut i: usize = 0;
    while i < pat.len()
        invariant
            at + pat.len() <= s.len(),
            i <= pat.len(),
            forall|k: int| 0 <= k < i ==> s@[at + k] == pat@[k],
        decreases pat.len() - i,
    {
        if s[at + i] != pat[i] {
            assert(s@.subrange(at as int, at + pat.len())[i as int] != pat@[i as int]);
            return false;
        }
        i += 1;
    }
    assert(s@.subrange(at as int, at + pat.len()) =~= pat@);
    true
}

/// Whether `pat` stands somewhere in `s`.
pub fn str_contains(s: &str, pat: &str) -> (b: bool)
    ensures
        b == contains(s@, pat@),
{
    let sv: Vec<char> = chars_of(s);
    let pv: Vec<char> = chars_of(pat);
    if pv.len() > sv.len() {
        return false;
    }
    let last: usize = sv.len() - pv.len();
    let mut at: usize = 0;
    loop
        invariant
            sv@ == s@,
            pv@ == pat@,
            last == sv.len() - pv.len(),
            pv.len() <= sv.len(),
            at <= last,
            forall|k: int| 0 <= k < at ==> !occurs_at(sv@, pv@, k),
        decreases last - at,
    {
        if matches_at(&sv, &pv, at) {
            return true;
        }
        if at == last {
            return false;
        }
        at += 1;
    }
}

/// Whether `s` begins with `prefix`.
pub fn str_starts_with(s: &str, prefix: &str) -> (b: bool)
    ensures
        b == starts_with(s@, prefix@),
{
    let sv: Vec<char> = chars_of(s);
    let pv: Vec<char> = chars_of(prefix);
    if pv.len() > sv.len() {
        return false;
    }
    matches_at(&sv, &pv, 0)
}

} // verus!
