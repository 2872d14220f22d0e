use vstd::prelude::*;

verus! {

/// The character for a single decimal digit.
pub open spec fn digit_char(d: int) -> char {
    if d == 0 {
        '0'
    } else if d == 1 {
        '1'
    } else if d == 2 {
        '2'
    } else if d == 3 {
        '3'
    } else if d == 4 {
        '4'
    } else if d == 5 {
        '5'
    } else if d == 6 {
        '6'
    } else if d == 7 {
        '7'
    } else if d == 8 {
        '8'
    } else {
        '9'
    }
}

/// The decimal rendering of a non-negative integer, most significant digit
/// first, with no leading zeros (and `0` rendered as "0").
pub open spec fn dec_spec(n: int) -> Seq<char>
    decreases n,
{
    if n < 10 {
        seq![digit_char(n)]
    } else {
        dec_spec(n / 10) + seq![digit_char(n % 10)]
    }
}

fn digit_str(d: u64) -> (s: &'static str)
    requires
        d < 10,
    ensures
        s@ == seq![digit_char(d as int)],
{
    proof {
        reveal_strlit("0");
        reveal_strlit("1");
        reveal_strlit("2");
        reveal_strlit("3");
        reveal_strlit("4");
        reveal_strlit("5");
        reveal_strlit("6");
        reveal_strlit("7");
        reveal_strlit("8");
        reveal_strlit("9");
    }
    let s: &'static str = match d {
        0 => "0",
        1 => "1",
        2 => "2",
        3 => "3",
        4 => "4",
        5 => "5",
        6 => "6",
        7 => "7",
        8 => "8",
        _ => "9",
    };
    proof {
        assert(s@ =~= seq![digit_char(d as int)]);
    }
    s
}

/// Render `n` in decimal.
pub fn dec_string(n: u64) -> (s: String)
    ensures
        s@ == dec_spec(n as int),
    decreases n,
{
    if n < 10 {
        digit_str(n).to_owned()
    } else {
        let mut s = dec_string(n / 10);
        s.append(digit_str(n % 10));
        s
    }
}

/// Character-for-character equality of two string slices.
pub fn str_eq(a: &str, b: &str) -> (r: bool)
    ensures
        r == (a@ == b@),
{
    let la = a.unicode_len();
    let lb = b.unicode_len();
    if la != lb {
        proof {
            assert(a@ != b@) by {
                if a@ == b@ {
                    assert(a@.len() == b@.len());
                }
            }
        }
        return false;
    }
    let mut i: usize = 0;
    while i < la
        invariant
            la == a@.len(),
            la == b@.len(),
            i <= la,
            forall|j: int| 0 <= j < i ==> a@[j] == b@[j],
        decreases la - i,
    {
        if a.get_char(i) != b.get_char(i) {
            return false;
        }
        i += 1;
    }
    proof {
        assert(a@ =~= b@);
    }
    true
}

/// The first `k` values of `vals`, rendered in decimal and joined with a
/// single comma between neighbors.
pub open spec fn joined_dec(vals: Seq<u8>, k: nat) -> Seq<char>
    decreases k,
{
    if k == 0 {
        Seq::<char>::empty()
    } else if k == 1 {
        dec_spec(vals[0] as int)
    } else {
        joined_dec(vals, (k - 1) as nat) + ","@ + dec_spec(vals[k - 1] as int)
    }
}

/// Render all of `vals` as a comma-separated decimal list.
pub fn join_dec(vals: &Vec<u8>) -> (s: String)
    ensures
        s@ == joined_dec(vals@, vals@.len()),
{
    let mut s = String::new();
    let mut k: usize = 0;
    while k < vals.len()
        invariant
            k <= vals@.len(),
            s@ == joined_dec(vals@, k as nat),
        decreases vals@.len() - k,
    {
        if k > 0 {
            s.append(",");
        }
        let d = dec_string(vals[k] as u64);
        s.append(d.as_str());
        proof {
            assert(s@ =~= joined_dec(vals@, (k + 1) as nat));
        }
        k += 1;
    }
    s
}

/// `s` with every non-overlapping occurrence of `pat` replaced by `rep`,
/// scanning from the left. An empty pattern leaves the text unchanged.
pub open spec fn replace_spec(s: Seq<char>, pat: Seq<char>, rep: Seq<char>) -> Seq<char>
    decreases s.len(),
{
    if pat.len() == 0 || s.len() < pat.len() {
        s
    } else if s.subrange(0, pat.len() as int) == pat {
        rep + replace_spec(s.skip(pat.len() as int), pat, rep)
    } else {
        seq![s[0]] + replace_spec(s.skip(1), pat, rep)
    }
}

/// Whether `pat` occurs in `s` at position `i`.
pub fn match_at(s: &str, i: usize, pat: &str) -> (r: bool)
    requires
        i + pat@.len() <= s@.len(),
    ensures
        r == (s@.subrange(i as int, i as int + pat@.len()) == pat@),
{
    let slen = s.unicode_len();
    let plen = pat.unicode_len();
    let mut k: usize = 0;
    while k < plen
        invariant
            i + plen <= slen,
            slen == s@.len(),
            plen == pat@.len(),
            k <= plen,
            forall|j: int| 0 <= j < k ==> s@[i + j] == pat@[j],
        decreases plen - k,
    {
        if s.get_char(i + k) != pat.get_char(k) {
            proof {
                assert(s@.subrange(i as int, i as int + plen) != pat@) by {
                    if s@.subrange(i as int, i as int + plen as int) == pat@ {
                        assert(s@.subrange(i as int, i as int + plen as int)[k as int] == s@[i
                            + k]);
                    }
                }
            }
            return false;
        }
        k += 1;
    }
    proof {
        assert(s@.subrange(i as int, i as int + plen as int) =~= pat@);
    }
    true
}

/// Replace every non-overlapping occurrence of `pat` in `s` by `rep`,
/// scanning from the left.
pub fn replace_all(s: &str, pat: &str, rep: &str) -> (r: String)
    ensures
        r@ == replace_spec(s@, pat@, rep@),
{
    let slen = s.unicode_len();
    let plen = pat.unicode_len();
    if plen == 0 {
        return s.to_owned();
    }
    let mut out = String::new();
    let mut i: usize = 0;
    proof {
        assert(s@.skip(0) =~= s@);
        assert(Seq::<char>::empty() + replace_spec(s@, pat@, rep@) =~= replace_spec(
            s@,
            pat@,
            rep@,
        ));
    }
    while i < slen
        invariant
            slen == s@.len(),
            plen == pat@.len(),
            plen >= 1,
            i <= slen,
            replace_spec(s@, pat@, rep@) == out@ + replace_spec(s@.skip(i as int), pat@, rep@),
        decreases slen - i,
    {
        let ghost pre = out@;
        let ghost tail = s@.skip(i as int);
        proof {
            assert(tail.len() == slen - i);
        }
        if plen <= slen - i && match_at(s, i, pat) {
            out.append(rep);
            proof {
                assert(tail.subrange(0, plen as int) =~= s@.subrange(
                    i as int,
                    i as int + plen as int,
                ));
                assert(replace_spec(tail, pat@, rep@) == rep@ + replace_spec(
                    tail.skip(plen as int),
                    pat@,
                    rep@,
                ));
                assert(tail.skip(plen as int) =~= s@.skip(i as int + plen as int));
                assert(pre + (rep@ + replace_spec(s@.skip(i as int + plen as int), pat@, rep@))
                    =~= (pre + rep@) + replace_spec(s@.skip(i as int + plen as int), pat@, rep@));
            }
            i += plen;
        } else {
            let c = s.substring_char(i, i + 1);
            out.append(c);
            proof {
                if plen <= slen - i {
                    assert(tail.subrange(0, plen as int) =~= s@.subrange(
                        i as int,
                        i as int + plen as int,
                    ));
                    assert(replace_spec(tail, pat@, rep@) == seq![tail[0]] + replace_spec(
                        tail.skip(1),
                        pat@,
                        rep@,
                    ));
                } else {
                    assert(replace_spec(tail, pat@, rep@) == tail);
                    assert(replace_spec(tail.skip(1), pat@, rep@) == tail.skip(1));
                    assert(tail =~= seq![tail[0]] + tail.skip(1));
                }
                assert(c@ =~= seq![tail[0]]);
                assert(tail.skip(1) =~= s@.skip(i as int + 1));
                assert(pre + (seq![tail[0]] + replace_spec(s@.skip(i as int + 1), pat@, rep@))
                    =~= (pre + c@) + replace_spec(s@.skip(i as int + 1), pat@, rep@));
            }
            i += 1;
        }
    }
    proof {
        assert(s@.skip(slen as int) =~= Seq::<char>::empty());
        assert(replace_spec(Seq::<char>::empty(), pat@, rep@) == Seq::<char>::empty());
        assert(out@ + Seq::<char>::empty() =~= out@);
    }
    out
}

/// Where the line that starts at `i` ends: the index of the first newline at
/// or after `i`, or the end of the text if there is none.
pub open spec fn line_end(s: Seq<char>, i: int) -> int
    decreases s.len() - i,
{
    if i < 0 || i >= s.len() {
        s.len() as int
    } else if s[i] == '\n' {
        i
    } else {
        line_end(s, i + 1)
    }
}

pub proof fn lemma_line_end_bounds(s: Seq<char>, i: int)
    requires
        0 <= i <= s.len(),
    ensures
        i <= line_end(s, i) <= s.len(),
        line_end(s, i) < s.len() ==> s[line_end(s, i)] == '\n',
        forall|j: int| i <= j < line_end(s, i) ==> s[j] != '\n',
    decreases s.len() - i,
{
    if i < s.len() && s[i] != '\n' {
        lemma_line_end_bounds(s, i + 1);
    }
}

/// Find the end of the line that starts at `from`.
pub fn find_line_end(s: &str, from: usize) -> (r: usize)
    requires
        from <= s@.len(),
    ensures
        r == line_end(s@, from as int),
        from <= r <= s@.len(),
{
    proof {
        lemma_line_end_bounds(s@, from as int);
    }
    let len = s.unicode_len();
    let mut i: usize = from;
    while i < len
        invariant
            from <= i <= len,
            len == s@.len(),
            line_end(s@, from as int) == line_end(s@, i as int),
        decreases len - i,
    {
        if s.get_char(i) == '\n' {
            return i;
        }
        i += 1;
    }
    i
}

} // verus!
