use vstd::prelude::*;

verus! {

/// The bytes of the text `Hotspot:` that marks a cursor hotspot in an SVG.
pub open spec fn hotspot_marker() -> Seq<u8> {
    seq![72u8, 111u8, 116u8, 115u8, 112u8, 111u8, 116u8, 58u8]
}

/// Whether the marker starts at byte `p` of `d`.
pub open spec fn marker_at(d: Seq<u8>, p: int) -> bool {
    0 <= p && p + 8 <= d.len() && d.subrange(p, p + 8) == hotspot_marker()
}

/// Where the line holding byte `p` of `d` starts: after the last newline
/// before `p`.
pub open spec fn line_start(d: Seq<u8>, p: int) -> int
    decreases p,
{
    if p <= 0 {
        0
    } else if d[p - 1] == 10 {
        p
    } else {
        line_start(d, p - 1)
    }
}

/// Whether the marker at `p` is the first one of its line, and the comma at
/// `c` is the first one after it, on the same line: then the text between
/// them is the hotspot's x coordinate.
pub open spec fn hotspot_at(d: Seq<u8>, p: int, c: int) -> bool {
    &&& marker_at(d, p)
    &&& forall|q: int| line_start(d, p) <= q < p ==> !#[trigger] marker_at(d, q)
    &&& p + 8 <= c < d.len()
    &&& d[c] == 44
    &&& forall|k: int| p + 8 <= k < c ==> #[trigger] d[k] != 44 && d[k] != 10
}

/// Whether `e` ends the line that holds byte `s`: the first newline at or
/// after `s`, or the end of the text.
pub open spec fn line_end_at(d: Seq<u8>, s: int, e: int) -> bool {
    &&& s <= e <= d.len()
    &&& (e == d.len() || d[e] == 10)
    &&& forall|k: int| s <= k < e ==> #[trigger] d[k] != 10
}

proof fn lemma_line_start_within(d: Seq<u8>, s: int, x: int)
    requires
        0 <= s <= x <= d.len(),
        s == 0 || d[s - 1] == 10,
        forall|k: int| s <= k < x ==> #[trigger] d[k] != 10,
    ensures
        line_start(d, x) == s,
    decreases x - s,
{
    if x > s {
        assert(d[x - 1] != 10);
        lemma_line_start_within(d, s, x - 1);
    }
}

fn marker_at_exec(d: &[u8], p: usize) -> (r: bool)
    requires
        p + 8 <= d@.len(),
    ensures
        r == marker_at(d@, p as int),
{
    let r = d[p] == 72 && d[p + 1] == 111 && d[p + 2] == 116 && d[p + 3] == 115 && d[p + 4] == 112
        && d[p + 5] == 111 && d[p + 6] == 116 && d[p + 7] == 58;
    proof {
        let sub = d@.subrange(p as int, p + 8);
        if r {
            assert(sub =~= hotspot_marker());
        } else {
            if sub == hotspot_marker() {
                assert(sub[0] == 72u8 && sub[1] == 111u8 && sub[2] == 116u8 && sub[3] == 115u8);
                assert(sub[4] == 112u8 && sub[5] == 111u8 && sub[6] == 116u8 && sub[7] == 58u8);
            }
        }
    }
    r
}

/// Finds the cursor hotspot written in an SVG as `Hotspot: x, y`.
///
/// Line by line, the first `Hotspot:` of a line is followed up to the first
/// comma after it on that line; the first line where there is one gives the
/// hotspot. Returns the byte ranges of the x text (from after the marker to
/// the comma) and of the y text (from after the comma to the end of the
/// line), both still to be trimmed, or `None` when no line gives a hotspot.
pub fn hotspot_fields(d: &[u8]) -> (r: Option<(usize, usize, usize, usize)>)
    ensures
        match r {
            None => forall|p: int, c: int| !#[trigger] hotspot_at(d@, p, c),
            Some((xs, xe, ys, ye)) => {
                &&& hotspot_at(d@, xs - 8, xe as int)
                &&& ys == xe + 1
                &&& line_end_at(d@, ys as int, ye as int)
                &&& forall|p: int, c: int| #[trigger] hotspot_at(d@, p, c) ==> xs - 8 <= p
            },
        },
{
    let len = d.len();
    let mut s: usize = 0;
    loop
        invariant
            len == d@.len(),
            s <= len,
            s == 0 || d@[s - 1] == 10,
            forall|p: int, c: int| #[trigger] hotspot_at(d@, p, c) ==> s <= p,
        decreases len - s,
    {
        // The end of the line.
        let mut e: usize = s;
        while e < len && d[e] != 10
            invariant
                len == d@.len(),
                s <= e <= len,
                forall|k: int| s <= k < e ==> #[trigger] d@[k] != 10,
            decreases len - e,
        {
            e = e + 1;
        }
        proof {
            assert forall|x: int| s <= x <= e implies line_start(d@, x) == s by {
                lemma_line_start_within(d@, s as int, x);
            }
        }
        // The first marker of the line.
        let mut p: usize = s;
        let mut found = false;
        while p <= e && e - p >= 8
            invariant_except_break
                !found,
            invariant
                len == d@.len(),
                s <= p <= e,
                e <= len,
                forall|q: int| s <= q < p ==> !#[trigger] marker_at(d@, q),
            ensures
                s <= p <= e,
                found ==> marker_at(d@, p as int) && p + 8 <= e,
                !found ==> p + 8 > e,
                forall|q: int| s <= q < p ==> !#[trigger] marker_at(d@, q),
            decreases e - p,
        {
            if marker_at_exec(d, p) {
                found = true;
                break;
            }
            p = p + 1;
        }
        proof {
            // No marker starts in the line after `p`'s scan without fitting in it.
            assert forall|q: int| !found && s <= q <= e implies !#[trigger] marker_at(d@, q) by {
                if marker_at(d@, q) && q >= p {
                    assert(q + 8 > e);
                    if e < len {
                        assert(d@.subrange(q, q + 8)[e - q] == d@[e as int]);
                        assert(hotspot_marker()[e - q] != 10);
                    }
                }
            }
        }
        if found {
            let mut c: usize = p + 8;
            while c < e && d[c] != 44
                invariant
                    len == d@.len(),
                    p + 8 <= c <= e,
                    e <= len,
                    forall|k: int| p + 8 <= k < c ==> #[trigger] d@[k] != 44,
                decreases e - c,
            {
                c = c + 1;
            }
            if c < e {
                proof {
                    assert(hotspot_at(d@, p as int, c as int));
                    assert forall|pp: int, cc: int| #[trigger] hotspot_at(d@, pp, cc) implies p <= pp by {
                        if pp < p {
                            assert(s <= pp);
                            assert(!marker_at(d@, pp));
                        }
                    }
                }
                let mut ye: usize = c + 1;
                while ye < len && d[ye] != 10
                    invariant
                        len == d@.len(),
                        c + 1 <= ye <= len,
                        forall|k: int| c + 1 <= k < ye ==> #[trigger] d@[k] != 10,
                    decreases len - ye,
                {
                    ye = ye + 1;
                }
                return Some((p + 8, c, c + 1, ye));
            }
        }
        proof {
            assert forall|pp: int, cc: int| #[trigger] hotspot_at(d@, pp, cc) implies e < pp by {
                assert(s <= pp);
                if pp <= e {
                    if found && pp > p {
                        assert(line_start(d@, pp) == s);
                        assert(marker_at(d@, p as int));
                    } else if found && pp == p {
                        // The first comma after the marker lies beyond the line.
                        if cc >= e {
                            assert(d@[e as int] == 10);
                        } else {
                            assert(d@[cc] != 44);
                        }
                    }
                }
            }
        }
        if e == len {
            return None;
        }
        s = e + 1;
    }
}

} // verus!
