use vstd::prelude::*;

verus! {

/// ASCII whitespace: space, tab, line feed, vertical tab, form feed, carriage return.
pub open spec fn is_space(c: char) -> bool {
    c == ' ' || c == '\t' || c == '\n' || c == '\u{b}' || c == '\u{c}' || c == '\r'
}

/// Scanning `s` left to right: the tokens completed so far and the token being read.
pub open spec fn split_state(s: Seq<char>) -> (Seq<Seq<char>>, Seq<char>)
    decreases s.len(),
{
    if s.len() == 0 {
        (Seq::empty(), Seq::empty())
    } else {
        let (done, cur) = split_state(s.drop_last());
        let c = s.last();
        if is_space(c) {
            if cur.len() > 0 {
                (done.push(cur), Seq::empty())
            } else {
                (done, cur)
            }
        } else {
            (done, cur.push(c))
        }
    }
}

/// The maximal runs of non-whitespace characters of `s`, in order.
pub open spec fn tokens(s: Seq<char>) -> Seq<Seq<char>> {
    let (done, cur) = split_state(s);
    if cur.len() > 0 {
        done.push(cur)
    } else {
        done
    }
}

fn is_space_exec(c: char) -> (r: bool)
    ensures
        r == is_space(c),
{
    c == ' ' || c == '\t' || c == '\n' || c == '\u{b}' || c == '\u{c}' || c == '\r'
}

/// Splits `s` into its whitespace-separated tokens.
pub fn split_tokens(s: &str) -> (r: Vec<String>)
    ensures
        r@.map_values(|t: String| t@) == tokens(s@),
{
    let n = s.unicode_len();
    let mut done: Vec<String> = Vec::new();
    let mut start: usize = 0;
    let mut in_token = false;
    let mut i: usize = 0;
    while i < n
        invariant
            n == s@.len(),
            i <= n,
            start <= i,
            done@.map_values(|t: String| t@) == split_state(s@.subrange(0, i as int)).0,
            in_token ==> split_state(s@.subrange(0, i as int)).1 == s@.subrange(
                start as int,
                i as int,
            ) && start < i,
            !in_token ==> split_state(s@.subrange(0, i as int)).1 == Seq::<char>::empty(),
        decreases n - i,
    {
        let c = s.get_char(i);
        proof {
            let p = s@.subrange(0, i as int + 1);
            assert(p.drop_last() == s@.subrange(0, i as int));
            assert(p.last() == c);
        }
        if is_space_exec(c) {
            if in_token {
                let t = s.substring_char(start, i).to_owned();
                done.push(t);
                in_token = false;
                assert(done@.map_values(|t: String| t@) =~= split_state(
                    s@.subrange(0, i as int),
                ).0.push(s@.subrange(start as int, i as int)));
            }
        } else {
            if !in_token {
                start = i;
                in_token = true;
                assert(s@.subrange(start as int, i as int + 1) =~= Seq::<char>::empty().push(c));
            } else {
                assert(s@.subrange(start as int, i as int + 1) =~= s@.subrange(
                    start as int,
                    i as int,
                ).push(c));
            }
        }
        i = i + 1;
    }
    assert(s@.subrange(0, n as int) =~= s@);
    if in_token {
        let t = s.substring_char(start, n).to_owned();
        done.push(t);
        assert(done@.map_values(|t: String| t@) =~= tokens(s@));
    } else {
        assert(done@.map_values(|t: String| t@) =~= tokens(s@));
    }
    done
}

/// The value of `c` as a digit in `radix` (at most ten), if it is one.
pub open spec fn digit_of(c: char, radix: nat) -> Option<nat> {
    if '0' <= c && c <= '9' && (c as nat) - ('0' as nat) < radix {
        Some(((c as nat) - ('0' as nat)) as nat)
    } else {
        None
    }
}

/// Every character of `d` is a digit in `radix`.
pub open spec fn all_digits(d: Seq<char>, radix: nat) -> bool {
    forall|i: int| 0 <= i < d.len() ==> (#[trigger] digit_of(d[i], radix)) is Some
}

/// The number that the digit string `d` denotes in `radix`, most significant first.
pub open spec fn digits_value(d: Seq<char>, radix: nat) -> nat
    decreases d.len(),
{
    if d.len() == 0 {
        0
    } else {
        digits_value(d.drop_last(), radix) * radix + digit_of(d.last(), radix)->0
    }
}

/// The unsigned number that `s` holds as its only token, in `radix`.
pub open spec fn number_of(s: Seq<char>, radix: nat) -> Option<nat> {
    let t = tokens(s);
    if t.len() == 1 && all_digits(t[0], radix) {
        Some(digits_value(t[0], radix))
    } else {
        None
    }
}

proof fn lemma_value_grows(d: Seq<char>, radix: nat, j: int)
    requires
        radix >= 1,
        0 <= j <= d.len(),
    ensures
        digits_value(d.subrange(0, j), radix) <= digits_value(d, radix),
    decreases d.len() - j,
{
    if j < d.len() {
        lemma_value_grows(d, radix, j + 1);
        let p = d.subrange(0, j + 1);
        assert(p.drop_last() =~= d.subrange(0, j));
        let v = digits_value(d.subrange(0, j), radix);
        assert(v * radix >= v) by (nonlinear_arith)
            requires
                radix >= 1,
        ;
    } else {
        assert(d.subrange(0, j) =~= d);
    }
}

/// Parses the only token of `s` as an unsigned number in `radix`; `None` when `s` does not
/// hold exactly one token, the token has a character that is no digit, or the value is
/// over `limit`.
pub fn parse_number(s: &str, radix: u32, limit: u64) -> (r: Option<u64>)
    requires
        radix == 8 || radix == 10,
    ensures
        r is Some <==> (number_of(s@, radix as nat) is Some && number_of(s@, radix as nat)->0
            <= limit),
        r is Some ==> r->0 == number_of(s@, radix as nat)->0,
{
    let t = split_tokens(s);
    if t.len() != 1 {
        return None;
    }
    let d: &str = t[0].as_str();
    proof {
        assert(t@.map_values(|t: String| t@)[0] == d@);
        assert(tokens(s@)[0] == d@);
        assert(tokens(s@).len() == 1);
    }
    let n = d.unicode_len();
    let mut acc: u64 = 0;
    let mut i: usize = 0;
    while i < n
        invariant
            n == d@.len(),
            i <= n,
            radix == 8 || radix == 10,
            acc <= limit,
            tokens(s@).len() == 1,
            tokens(s@)[0] == d@,
            forall|k: int| 0 <= k < i ==> (#[trigger] digit_of(d@[k], radix as nat)) is Some,
            acc == digits_value(d@.subrange(0, i as int), radix as nat),
        decreases n - i,
    {
        let c = d.get_char(i);
        if !('0' <= c && c <= '9') || (c as u32) - ('0' as u32) >= radix {
            assert(d@[i as int] == c);
            assert(digit_of(d@[i as int], radix as nat) is None);
            assert(!all_digits(tokens(s@)[0], radix as nat));
            return None;
        }
        let dv: u64 = ((c as u32) - ('0' as u32)) as u64;
        let p = Ghost(d@.subrange(0, i as int + 1));
        proof {
            assert(p@.drop_last() =~= d@.subrange(0, i as int));
            assert(p@.last() == c);
        }
        if dv > limit || acc > (limit - dv) / (radix as u64) {
            proof {
                let rr = radix as int;
                let (a, l, e) = (acc as int, limit as int, dv as int);
                if e <= l {
                    assert(a * rr + e > l) by (nonlinear_arith)
                        requires
                            a > (l - e) / rr,
                            rr > 0,
                            e <= l,
                    ;
                }
                assert(a * rr + e > l) by (nonlinear_arith)
                    requires
                        a >= 0,
                        rr > 0,
                        e > l || a * rr + e > l,
                ;
                lemma_value_grows(d@, radix as nat, i as int + 1);
                assert(number_of(s@, radix as nat) is Some ==> number_of(s@, radix as nat)->0
                    == digits_value(d@, radix as nat));
            }
            return None;
        }
        proof {
            let rr = radix as int;
            let (a, l, e) = (acc as int, limit as int, dv as int);
            assert(a * rr + e <= l) by (nonlinear_arith)
                requires
                    a <= (l - e) / rr,
                    rr > 0,
                    e <= l,
            ;
        }
        acc = acc * (radix as u64) + dv;
        i = i + 1;
    }
    assert(d@.subrange(0, n as int) =~= d@);
    Some(acc)
}

} // verus!
