use vstd::prelude::*;

use crate::error::FileError;
use crate::text::{
    chars_to_string, find_char_from, index_of_from, lemma_index_of_from_props, str_to_chars,
    sub_chars,
};

verus! {

/// A sequence of characters with no dot in it.
pub open spec fn dot_free(s: Seq<char>) -> bool {
    forall|i: int| 0 <= i < s.len() ==> s[i] != '.'
}

/// The identifier of an endpoint in the broker's addressing hierarchy:
/// a dotted triple `app.proxy.broker`.  The application and proxy parts
/// are single segments; the broker part is the whole remainder and may
/// itself be dotted (a broker is commonly named by a domain).
#[derive(Debug, Clone)]
pub struct BeamId {
    pub app: String,
    pub proxy: String,
    pub broker: String,
}

/// A well-formed identifier: every part nonempty, and the application
/// and proxy parts free of dots, so that the rendered form splits back
/// into the same three parts.
pub open spec fn beam_id_wf(id: &BeamId) -> bool {
    &&& id.app@.len() > 0
    &&& dot_free(id.app@)
    &&& id.proxy@.len() > 0
    &&& dot_free(id.proxy@)
    &&& id.broker@.len() > 0
}

/// The rendered form of an identifier: `app.proxy.broker`.
pub open spec fn id_chars(id: &BeamId) -> Seq<char> {
    id.app@ + seq!['.'] + id.proxy@ + seq!['.'] + id.broker@
}

/// How an identifier string splits: the application part before the
/// first dot, the proxy part between the first and the second dot, the
/// broker part after the second dot.  `None` when any part would be
/// empty or a dot is missing.
pub open spec fn spec_parse_beam_id(s: Seq<char>) -> Option<(Seq<char>, Seq<char>, Seq<char>)> {
    let i = index_of_from(s, '.', 0);
    let j = index_of_from(s, '.', i + 1);
    if 0 < i && i + 1 < j && j + 1 < s.len() {
        Some((s.subrange(0, i), s.subrange(i + 1, j), s.subrange(j + 1, s.len() as int)))
    } else {
        None
    }
}

impl BeamId {
    /// `app.proxy.broker`, as a string.
    pub fn render(&self) -> (r: String)
        ensures
            r@ == id_chars(self),
    {
        let mut r = self.app.clone();
        r.push('.');
        r.append(self.proxy.as_str());
        r.push('.');
        r.append(self.broker.as_str());
        proof {
            assert(r@ =~= id_chars(self));
        }
        r
    }
}

/// Splits an identifier string into its three parts.  Accepted exactly
/// when the string is `app.proxy.broker` with a nonempty, dot-free
/// application and proxy part and a nonempty broker part; the parts of
/// the result joined by dots give back the input.
pub fn parse_beam_id(s: &str) -> (r: Result<BeamId, FileError>)
    ensures
        r is Ok <==> spec_parse_beam_id(s@) is Some,
        r is Ok ==> {
            let (a, p, b) = spec_parse_beam_id(s@)->Some_0;
            &&& r->Ok_0.app@ == a
            &&& r->Ok_0.proxy@ == p
            &&& r->Ok_0.broker@ == b
        },
        r is Ok ==> beam_id_wf(&r->Ok_0) && id_chars(&r->Ok_0) == s@,
        r is Err ==> r->Err_0 == FileError::InvalidBeamId,
{
    let v = str_to_chars(s);
    let i = find_char_from(&v, '.', 0);
    proof {
        lemma_index_of_from_props(s@, '.', 0);
    }
    if i >= v.len() {
        return Err(FileError::InvalidBeamId);
    }
    let j = find_char_from(&v, '.', i + 1);
    proof {
        lemma_index_of_from_props(s@, '.', i + 1);
    }
    if !(0 < i && i + 1 < j && j < v.len() && j + 1 < v.len()) {
        return Err(FileError::InvalidBeamId);
    }
    let id = BeamId {
        app: chars_to_string(&sub_chars(&v, 0, i)),
        proxy: chars_to_string(&sub_chars(&v, i + 1, j)),
        broker: chars_to_string(&sub_chars(&v, j + 1, v.len())),
    };
    proof {
        assert(id_chars(&id) =~= s@);
    }
    Ok(id)
}

/// How a destination fragment combines with this instance's identifier:
/// a bare proxy name takes this instance's application part; an
/// `app.proxy` pair is taken as given; anything else is refused.  The
/// result is the `(app, proxy)` pair of the destination; the broker
/// part is always this instance's own.
pub open spec fn spec_compose(frag: Seq<char>, own_app: Seq<char>) -> Option<
    (Seq<char>, Seq<char>),
> {
    let i = index_of_from(frag, '.', 0);
    if frag.len() == 0 {
        None
    } else if i == frag.len() {
        Some((own_app, frag))
    } else if 0 < i && i + 1 < frag.len() && dot_free(frag.skip(i + 1)) {
        Some((frag.subrange(0, i), frag.skip(i + 1)))
    } else {
        None
    }
}

/// Builds the destination identifier for an outbound stream: the
/// caller's fragment (`proxy` or `app.proxy`) combined with the broker
/// part of this instance's own identifier.
pub fn compose_destination(frag: &str, own: &BeamId) -> (r: Result<BeamId, FileError>)
    requires
        beam_id_wf(own),
    ensures
        r is Ok <==> spec_compose(frag@, own.app@) is Some,
        r is Ok ==> {
            let (a, p) = spec_compose(frag@, own.app@)->Some_0;
            &&& r->Ok_0.app@ == a
            &&& r->Ok_0.proxy@ == p
            &&& r->Ok_0.broker@ == own.broker@
        },
        r is Ok ==> beam_id_wf(&r->Ok_0),
        r is Err ==> r->Err_0 == FileError::InvalidDestination,
{
    let v = str_to_chars(frag);
    if v.len() == 0 {
        return Err(FileError::InvalidDestination);
    }
    let i = find_char_from(&v, '.', 0);
    proof {
        lemma_index_of_from_props(frag@, '.', 0);
    }
    if i == v.len() {
        return Ok(
            BeamId {
                app: own.app.clone(),
                proxy: chars_to_string(&v),
                broker: own.broker.clone(),
            },
        );
    }
    let j = find_char_from(&v, '.', i + 1);
    proof {
        lemma_index_of_from_props(frag@, '.', i + 1);
    }
    if 0 < i && i + 1 < v.len() && j == v.len() {
        proof {
            assert(frag@.subrange(i + 1, frag@.len() as int) =~= frag@.skip(i + 1));
        }
        Ok(
            BeamId {
                app: chars_to_string(&sub_chars(&v, 0, i)),
                proxy: chars_to_string(&sub_chars(&v, i + 1, v.len())),
                broker: own.broker.clone(),
            },
        )
    } else {
        proof {
            if 0 < i && i + 1 < frag@.len() && dot_free(frag@.skip(i + 1)) {
                assert(frag@.skip(i + 1)[j - i - 1] == frag@[j as int]);
            }
        }
        Err(FileError::InvalidDestination)
    }
}

} // verus!
