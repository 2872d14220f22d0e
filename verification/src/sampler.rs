use vstd::prelude::*;

verus! {

/// The three-symbol projection of one cell value: blank for zero, filled
/// for one, an other-marker for anything else.
pub open spec fn symbol_spec(v: u8) -> char {
    if v == 0 {
        ' '
    } else if v == 1 {
        '#'
    } else {
        '~'
    }
}

/// The projection of a whole raw byte window.
pub open spec fn render_spec(w: Seq<u8>) -> Seq<char> {
    Seq::new(w.len(), |i: int| symbol_spec(w[i]))
}

/// The projection framed by one bar at each end, as sampled lines are
/// reported.
pub open spec fn framed_spec(w: Seq<u8>) -> Seq<char> {
    "|"@ + render_spec(w) + "|"@
}

/// Project a raw byte window onto its three-symbol rendering.
pub fn render_window(w: &Vec<u8>) -> (s: String)
    ensures
        s@ == render_spec(w@),
{
    let mut s = String::new();
    let mut i: usize = 0;
    while i < w.len()
        invariant
            i <= w@.len(),
            s@.len() == i,
            forall|j: int| 0 <= j < i ==> s@[j] == symbol_spec(w@[j]),
        decreases w@.len() - i,
    {
        proof {
            reveal_strlit(" ");
            reveal_strlit("#");
            reveal_strlit("~");
        }
        let v = w[i];
        if v == 0 {
            s.append(" ");
        } else if v == 1 {
            s.append("#");
        } else {
            s.append("~");
        }
        i += 1;
    }
    proof {
        assert(s@ =~= render_spec(w@));
    }
    s
}

/// Render a sampled window as one framed line.
pub fn render_line(w: &Vec<u8>) -> (s: String)
    ensures
        s@ == framed_spec(w@),
{
    let mut s = String::from_str("|");
    let r = render_window(w);
    s.append(r.as_str());
    s.append("|");
    s
}

/// Sample the live window of a halo-framed vector: everything strictly
/// between the two border bytes, rendered as one framed line.
pub fn sample_interior(d: &Vec<u8>) -> (s: String)
    requires
        d@.len() >= 2,
    ensures
        s@ == framed_spec(d@.subrange(1, d@.len() - 1)),
{
    let n = d.len();
    let mut w: Vec<u8> = Vec::new();
    let mut j: usize = 1;
    while j < n - 1
        invariant
            n == d@.len(),
            n >= 2,
            1 <= j <= n - 1,
            w@.len() == j - 1,
            forall|k: int| 0 <= k < j - 1 ==> w@[k] == d@[k + 1],
        decreases n - j,
    {
        w.push(d[j]);
        j += 1;
    }
    proof {
        assert(w@ =~= d@.subrange(1, d@.len() - 1));
    }
    render_line(&w)
}

} // verus!
