//! Endpoint URL construction.
//!
//! A final URL is the base joined to a path with exactly one slash
//! between them, followed by the query pairs in the order supplied.
//! Keys and values are percent-encoded: unreserved ASCII characters
//! pass through, every other ASCII character becomes `%XX`; characters
//! beyond ASCII are left to the transport layer.

use vstd::prelude::*;

verus! {

/// A hexadecimal digit character, upper case.
pub open spec fn hchar(d: nat) -> char {
    if d == 0 {
        '0'
    } else if d == 1 {
        '1'
    } else if d == 2 {
        '2'
    } else if d == 3 {
        '3'
    } else if d == 4 {
        '4'
    } else if d == 5 {
        '5'
    } else if d == 6 {
        '6'
    } else if d == 7 {
        '7'
    } else if d == 8 {
        '8'
    } else if d == 9 {
        '9'
    } else if d == 10 {
        'A'
    } else if d == 11 {
        'B'
    } else if d == 12 {
        'C'
    } else if d == 13 {
        'D'
    } else if d == 14 {
        'E'
    } else {
        'F'
    }
}

/// Whether a character needs no encoding in a URL: the unreserved set.
pub open spec fn is_unreserved(c: char) -> bool {
    (65 <= c as u32 <= 90) || (97 <= c as u32 <= 122) || (48 <= c as u32 <= 57) || c as u32 == 45
        || c as u32 == 46 || c as u32 == 95 || c as u32 == 126
}

/// The encoding of one character: unreserved and non-ASCII characters
/// pass through, the rest become a percent escape of their code.
pub open spec fn pct_char(c: char) -> Seq<char> {
    if is_unreserved(c) || c as u32 >= 128 {
        seq![c]
    } else {
        seq!['%', hchar((c as u32 / 16) as nat), hchar((c as u32 % 16) as nat)]
    }
}

/// The encoding of a whole string, character by character.
pub open spec fn pct_encode(s: Seq<char>) -> Seq<char>
    decreases s,
{
    if s.len() == 0 {
        Seq::empty()
    } else {
        pct_encode(s.drop_last()).add(pct_char(s.last()))
    }
}

/// Percent-encodes a query key or value.
pub fn percent_encode(s: &str) -> (r: String)
    ensures
        r@ == pct_encode(s@),
{
    let hexdigits = "0123456789ABCDEF";
    proof {
        reveal_strlit("0123456789ABCDEF");
        reveal_strlit("%");
    }
    let len = s.unicode_len();
    let mut out = String::new();
    let mut i: usize = 0;
    while i < len
        invariant
            i <= len,
            len == s@.len(),
            out@ =~= pct_encode(s@.subrange(0, i as int)),
            hexdigits@ == "0123456789ABCDEF"@,
            hexdigits.is_ascii(),
            hexdigits@.len() == 16,
            forall|d: int| 0 <= d < 16 ==> #[trigger] hexdigits@[d] == hchar(d as nat),
        decreases len - i,
    {
        let c = s.get_char(i);
        let u = c as u32;
        proof {
            reveal_strlit("%");
            let pre = s@.subrange(0, i as int);
            let ext = s@.subrange(0, i as int + 1);
            assert(ext.drop_last() =~= pre);
            assert(ext.last() == s@[i as int]);
            assert(pct_encode(ext) == pct_encode(pre).add(pct_char(s@[i as int])));
        }
        let unreserved = (65 <= u && u <= 90) || (97 <= u && u <= 122) || (48 <= u && u <= 57)
            || u == 45 || u == 46 || u == 95 || u == 126;
        if unreserved || u >= 128 {
            let piece = s.substring_char(i, i + 1);
            proof {
                assert(piece@ =~= seq![s@[i as int]]);
            }
            out.append(piece);
        } else {
            out.append("%");
            let hi = (u / 16) as usize;
            let lo = (u % 16) as usize;
            let hp = hexdigits.substring_ascii(hi, hi + 1);
            proof {
                assert(hp@ =~= seq![hchar((s@[i as int] as u32 / 16) as nat)]);
            }
            out.append(hp);
            let lp = hexdigits.substring_ascii(lo, lo + 1);
            proof {
                assert(lp@ =~= seq![hchar((s@[i as int] as u32 % 16) as nat)]);
            }
            out.append(lp);
            proof {
                assert("%"@ =~= seq!['%']);
            }
        }
        i = i + 1;
    }
    proof {
        assert(s@.subrange(0, len as int) =~= s@);
    }
    out
}

/// The base and the path joined with exactly one slash between them.
pub open spec fn join_slash(base: Seq<char>, path: Seq<char>) -> Seq<char> {
    if base.len() > 0 && base.last() == '/' {
        if path.len() > 0 && path.first() == '/' {
            base.add(path.drop_first())
        } else {
            base.add(path)
        }
    } else {
        if path.len() > 0 && path.first() == '/' {
            base.add(path)
        } else {
            base.add(seq!['/']).add(path)
        }
    }
}

/// One encoded `key=value` pair.
pub open spec fn pair_str(k: Seq<char>, v: Seq<char>) -> Seq<char> {
    pct_encode(k).add(seq!['=']).add(pct_encode(v))
}

/// The serialization of the first `n` query pairs, `?` before the
/// first and `&` before each further one.
pub open spec fn query_partial(q: Seq<(Seq<char>, Seq<char>)>, n: int) -> Seq<char>
    decreases n,
{
    if n <= 0 {
        Seq::empty()
    } else {
        query_partial(q, n - 1).add(
            if n == 1 {
                seq!['?']
            } else {
                seq!['&']
            },
        ).add(pair_str(q[n - 1].0, q[n - 1].1))
    }
}

/// The full query suffix; empty when there are no pairs.
pub open spec fn query_suffix(q: Seq<(Seq<char>, Seq<char>)>) -> Seq<char> {
    query_partial(q, q.len() as int)
}

/// The views of a vector of exec query pairs.
pub open spec fn pairs_view(q: Seq<(String, String)>) -> Seq<(Seq<char>, Seq<char>)> {
    q.map_values(|p: (String, String)| (p.0@, p.1@))
}

/// The URL for `base`, `path` and `query`.
pub open spec fn spec_build(
    base: Seq<char>,
    path: Seq<char>,
    q: Seq<(Seq<char>, Seq<char>)>,
) -> Seq<char> {
    join_slash(base, path).add(query_suffix(q))
}

/// Composes the final request URL: the base joined to the path with
/// exactly one slash, then the query pairs in the order supplied, each
/// percent-encoded; no `?` at all when the query is empty.
pub fn build(base: &str, path: &str, query: &Vec<(String, String)>) -> (r: String)
    ensures
        r@ == spec_build(base@, path@, pairs_view(query@)),
{
    proof {
        reveal_strlit("/");
        reveal_strlit("?");
        reveal_strlit("&");
        reveal_strlit("=");
    }
    let base_len = base.unicode_len();
    let path_len = path.unicode_len();
    let base_slash = base_len > 0 && base.get_char(base_len - 1) == '/';
    let path_slash = path_len > 0 && path.get_char(0) == '/';
    let mut out = base.to_owned();
    if base_slash {
        if path_slash {
            let rest = path.substring_char(1, path_len);
            proof {
                assert(rest@ =~= path@.drop_first());
            }
            out.append(rest);
        } else {
            out.append(path);
        }
    } else {
        if path_slash {
            out.append(path);
        } else {
            out.append("/");
            out.append(path);
            proof {
                assert("/"@ =~= seq!['/']);
            }
        }
    }
    proof {
        assert(out@ =~= join_slash(base@, path@));
    }
    let ghost qv = pairs_view(query@);
    let mut i: usize = 0;
    while i < query.len()
        invariant
            i <= query@.len(),
            qv == pairs_view(query@),
            qv.len() == query@.len(),
            out@ =~= join_slash(base@, path@).add(query_partial(qv, i as int)),
        decreases query@.len() - i,
    {
        proof {
            reveal_strlit("?");
            reveal_strlit("&");
            reveal_strlit("=");
        }
        if i == 0 {
            out.append("?");
            proof {
                assert("?"@ =~= seq!['?']);
            }
        } else {
            out.append("&");
            proof {
                assert("&"@ =~= seq!['&']);
            }
        }
        let k = percent_encode(query[i].0.as_str());
        out.append(k.as_str());
        out.append("=");
        proof {
            assert("="@ =~= seq!['=']);
        }
        let v = percent_encode(query[i].1.as_str());
        out.append(v.as_str());
        proof {
            assert(qv[i as int] == (query@[i as int].0@, query@[i as int].1@));
        }
        i = i + 1;
    }
    proof {
        assert(query_partial(qv, qv.len() as int) == query_suffix(qv));
    }
    out
}

/// With no query pairs a URL is the joined base and path alone: no `?`
/// is ever appended.
pub proof fn lemma_build_empty_query(base: Seq<char>, path: Seq<char>)
    ensures
        spec_build(base, path, Seq::empty()) =~= join_slash(base, path),
{
}

/// Two query pairs serialize in the order supplied: the first after
/// `?`, the second after `&`.
pub proof fn lemma_build_two_pairs(
    base: Seq<char>,
    path: Seq<char>,
    k1: Seq<char>,
    v1: Seq<char>,
    k2: Seq<char>,
    v2: Seq<char>,
)
    ensures
        spec_build(base, path, seq![(k1, v1), (k2, v2)]) =~= join_slash(base, path).add(
            seq!['?'],
        ).add(pair_str(k1, v1)).add(seq!['&']).add(pair_str(k2, v2)),
{
    let q = seq![(k1, v1), (k2, v2)];
    assert(query_partial(q, 0) =~= Seq::<char>::empty());
    assert(query_partial(q, 1) =~= query_partial(q, 0).add(seq!['?']).add(pair_str(k1, v1)));
    assert(query_partial(q, 2) =~= query_partial(q, 1).add(seq!['&']).add(pair_str(k2, v2)));
    assert(query_suffix(q) == query_partial(q, 2));
}

} // verus!
