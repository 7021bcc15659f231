use vstd::prelude::*;

use crate::text::{chars_to_string, dec_str, find_char_from, index_of_from, matches_at,
    str_to_chars, u64_to_string};

verus! {

/// Left-to-right, non-overlapping replacement of every occurrence of
/// `pat` in `s` by `sub`.  Text that `sub` itself brings in is never
/// scanned again.
pub open spec fn spec_replace(s: Seq<char>, pat: Seq<char>, sub: Seq<char>) -> Seq<char>
    decreases s.len(),
{
    if pat.len() == 0 || s.len() < pat.len() {
        s
    } else if s.take(pat.len() as int) == pat {
        sub + spec_replace(s.skip(pat.len() as int), pat, sub)
    } else {
        seq![s[0]] + spec_replace(s.skip(1), pat, sub)
    }
}

fn push_all(out: &mut Vec<char>, v: &Vec<char>)
    ensures
        final(out)@ == old(out)@ + v@,
{
    let mut k: usize = 0;
    while k < v.len()
        invariant
            k <= v@.len(),
            out@ == old(out)@ + v@.take(k as int),
        decreases v@.len() - k,
    {
        out.push(v[k]);
        k = k + 1;
        proof {
            assert(out@ =~= old(out)@ + v@.take(k as int));
        }
    }
    proof {
        assert(old(out)@ + v@.take(v@.len() as int) =~= old(out)@ + v@);
    }
}

/// Replaces every occurrence of `pat` in `s` by `sub`, left to right,
/// never rescanning replaced text.
pub fn replace_chars(s: &Vec<char>, pat: &Vec<char>, sub: &Vec<char>) -> (r: Vec<char>)
    requires
        pat@.len() > 0,
    ensures
        r@ == spec_replace(s@, pat@, sub@),
{
    let mut out: Vec<char> = Vec::new();
    let mut i: usize = 0;
    proof {
        assert(s@.skip(0) =~= s@);
        assert(Seq::<char>::empty() + spec_replace(s@, pat@, sub@) =~= spec_replace(
            s@,
            pat@,
            sub@,
        ));
    }
    while i < s.len()
        invariant
            i <= s@.len(),
            pat@.len() > 0,
            spec_replace(s@, pat@, sub@) == out@ + spec_replace(
                s@.skip(i as int),
                pat@,
                sub@,
            ),
        decreases s@.len() - i,
    {
        let ghost rest = s@.skip(i as int);
        if matches_at(s, i, pat) {
            proof {
                assert(rest.take(pat@.len() as int) =~= s@.subrange(i as int, i + pat@.len()));
                assert(rest.skip(pat@.len() as int) =~= s@.skip(i + pat@.len()));
            }
            push_all(&mut out, sub);
            i = i + pat.len();
        } else {
            proof {
                if rest.len() >= pat@.len() {
                    assert(rest.take(pat@.len() as int) =~= s@.subrange(
                        i as int,
                        i + pat@.len(),
                    ));
                }
                assert(seq![rest[0]] + rest.skip(1) =~= rest);
                assert(rest.skip(1) =~= s@.skip(i + 1));
                if rest.len() < pat@.len() {
                    assert(spec_replace(rest, pat@, sub@) == rest);
                    assert(spec_replace(rest.skip(1), pat@, sub@) == rest.skip(1));
                }
            }
            out.push(s[i]);
            i = i + 1;
        }
    }
    proof {
        assert(s@.skip(i as int) =~= Seq::<char>::empty());
        assert(out@ + Seq::<char>::empty() =~= out@);
    }
    out
}

/// The first two dot-separated segments of an origin identifier, joined
/// by a dot: everything before the second dot, or the whole identifier
/// when it has fewer than two dots.
pub open spec fn spec_origin_prefix(s: Seq<char>) -> Seq<char> {
    let i = index_of_from(s, '.', 0);
    let j = index_of_from(s, '.', i + 1);
    if j < s.len() {
        s.take(j)
    } else {
        s
    }
}

/// The `app.proxy` prefix of an origin identifier.
pub fn origin_prefix(origin: &str) -> (r: String)
    ensures
        r@ == spec_origin_prefix(origin@),
{
    let v = str_to_chars(origin);
    let i = find_char_from(&v, '.', 0);
    if i >= v.len() {
        return chars_to_string(&v);
    }
    let j = find_char_from(&v, '.', i + 1);
    if j < v.len() {
        chars_to_string(&crate::text::sub_chars(&v, 0, j))
    } else {
        chars_to_string(&v)
    }
}

/// The placeholder pair `%c`.
fn pat2(c: char) -> (r: Vec<char>)
    ensures
        r@ == seq!['%', c],
{
    let mut r: Vec<char> = Vec::new();
    r.push('%');
    r.push(c);
    proof {
        assert(r@ =~= seq!['%', c]);
    }
    r
}

/// The filename a naming template resolves to: `%f` replaced by the
/// origin's `app.proxy` prefix, then `%t` by the arrival time in unix
/// seconds, then `%n` by the suggested name (or nothing).  The fixed
/// order keeps placeholders inside a suggested name from being
/// substituted again.
pub open spec fn spec_resolve(
    tpl: Seq<char>,
    origin: Seq<char>,
    t: nat,
    name: Option<Seq<char>>,
) -> Seq<char> {
    let s1 = spec_replace(tpl, seq!['%', 'f'], spec_origin_prefix(origin));
    let s2 = spec_replace(s1, seq!['%', 't'], dec_str(t));
    spec_replace(
        s2,
        seq!['%', 'n'],
        match name {
            Some(n) => n,
            None => Seq::empty(),
        },
    )
}

/// Expands a naming template against a received file's origin, arrival
/// time and suggested name.
pub fn resolve(template: &str, origin: &str, arrival_time: u64, suggested_name: Option<&str>) -> (r:
    String)
    ensures
        r@ == spec_resolve(
            template@,
            origin@,
            arrival_time as nat,
            match suggested_name {
                Some(n) => Some(n@),
                None => None,
            },
        ),
{
    let tpl = str_to_chars(template);
    let from = str_to_chars(origin_prefix(origin).as_str());
    let ts = str_to_chars(u64_to_string(arrival_time).as_str());
    let name = match suggested_name {
        Some(n) => str_to_chars(n),
        None => Vec::new(),
    };
    let s1 = replace_chars(&tpl, &pat2('f'), &from);
    let s2 = replace_chars(&s1, &pat2('t'), &ts);
    let s3 = replace_chars(&s2, &pat2('n'), &name);
    chars_to_string(&s3)
}

} // verus!
