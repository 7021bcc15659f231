use vstd::prelude::*;

use crate::error::FileError;
use crate::text::{
    chars_to_string, find_char_from, index_of_from, is_valid_name, lemma_index_of_from_found,
    matches_at, str_to_chars, sub_chars, valid_name,
};

verus! {

/// The metadata record carried beside a file: an optional validated
/// suggested name, and an optional opaque metadata text (one JSON
/// value, kept as the characters of its rendering).
#[derive(Debug, Clone, PartialEq, Eq)]
pub struct FileMeta {
    pub suggested_name: Option<String>,
    pub meta: Option<String>,
}

/// The mathematical value of a metadata record.
pub struct FileMetaV {
    pub name: Option<Seq<char>>,
    pub meta: Option<Seq<char>>,
}

impl View for FileMeta {
    type V = FileMetaV;

    open spec fn view(&self) -> FileMetaV {
        FileMetaV {
            name: match self.suggested_name {
                Some(n) => Some(n@),
                None => None,
            },
            meta: match self.meta {
                Some(x) => Some(x@),
                None => None,
            },
        }
    }
}

/// The characters of the JSON literal `null`.
pub open spec fn null_chars() -> Seq<char> {
    "null"@
}

/// The opening of the stream-embedded form, up to the name's value.
pub open spec fn prefix_chars() -> Seq<char> {
    "{\"suggested_name\":"@
}

/// The separator between the name's value and the metadata value.
pub open spec fn mid_chars() -> Seq<char> {
    ",\"meta\":"@
}

/// A well-formed metadata record: a present name holds only accepted
/// filename characters, and a present metadata text is nonempty and not
/// the literal `null` (an absent value is carried as `null` on the
/// wire, so those two texts stand for no metadata).
pub open spec fn file_meta_wf(v: FileMetaV) -> bool {
    &&& (v.name is Some ==> valid_name(v.name->0))
    &&& (v.meta is Some ==> v.meta->0.len() > 0 && v.meta->0 != null_chars())
}

/// The name's value on the wire: `null`, or the name in quotes.  An
/// accepted name holds no quote or backslash, so no escaping is needed.
pub open spec fn spec_name_part(name: Option<Seq<char>>) -> Seq<char> {
    match name {
        None => null_chars(),
        Some(n) => seq!['"'] + n + seq!['"'],
    }
}

/// The metadata value on the wire: `null`, or the text itself.
pub open spec fn spec_meta_part(meta: Option<Seq<char>>) -> Seq<char> {
    match meta {
        None => null_chars(),
        Some(x) => x,
    }
}

/// The stream-embedded form of a metadata record: one JSON object with
/// the name and the metadata value, in that fixed order.
pub open spec fn spec_encode_stream(v: FileMetaV) -> Seq<char> {
    prefix_chars() + spec_name_part(v.name) + mid_chars() + spec_meta_part(v.meta) + seq!['}']
}

/// Encodes a metadata record into its stream-embedded form.
pub fn encode_stream(m: &FileMeta) -> (r: String)
    ensures
        r@ == spec_encode_stream(m@),
{
    let mut r = String::from_str("{\"suggested_name\":");
    match &m.suggested_name {
        None => {
            r.append("null");
        },
        Some(n) => {
            r.push('"');
            r.append(n.as_str());
            r.push('"');
        },
    }
    r.append(",\"meta\":");
    match &m.meta {
        None => {
            r.append("null");
        },
        Some(x) => {
            r.append(x.as_str());
        },
    }
    r.push('}');
    proof {
        assert(r@ =~= spec_encode_stream(m@));
    }
    r
}

/// How the name is read back: `null` stands for no name; otherwise a
/// quoted run of characters up to the next quote, accepted only when it
/// is a valid filename.  Yields the name and the unread remainder.
pub open spec fn spec_decode_name(rest: Seq<char>) -> Option<(Option<Seq<char>>, Seq<char>)> {
    if rest.len() >= null_chars().len() && rest.take(null_chars().len() as int) == null_chars() {
        Some((None, rest.skip(null_chars().len() as int)))
    } else if rest.len() > 0 && rest[0] == '"' {
        let q = index_of_from(rest, '"', 1);
        if q < rest.len() && valid_name(rest.subrange(1, q)) {
            Some((Some(rest.subrange(1, q)), rest.skip(q + 1)))
        } else {
            None
        }
    } else {
        None
    }
}

/// How the metadata value is read back: after the separator, everything
/// up to the closing brace; `null` stands for no metadata, and an empty
/// value is refused.
pub open spec fn spec_decode_meta(rest: Seq<char>) -> Option<Option<Seq<char>>> {
    if rest.len() > mid_chars().len() && rest.take(mid_chars().len() as int) == mid_chars()
        && rest.last() == '}' {
        let body = rest.subrange(mid_chars().len() as int, rest.len() - 1);
        if body == null_chars() {
            Some(None)
        } else if body.len() > 0 {
            Some(Some(body))
        } else {
            None
        }
    } else {
        None
    }
}

/// What the stream-embedded form decodes to, or `None` when the text is
/// not an encoding this codec produces.
pub open spec fn spec_decode_stream(b: Seq<char>) -> Option<FileMetaV> {
    if b.len() >= prefix_chars().len() && b.take(prefix_chars().len() as int) == prefix_chars() {
        match spec_decode_name(b.skip(prefix_chars().len() as int)) {
            Some((name, rest)) => match spec_decode_meta(rest) {
                Some(meta) => Some(FileMetaV { name, meta }),
                None => None,
            },
            None => None,
        }
    } else {
        None
    }
}

/// Decodes the stream-embedded form.  Failure is fatal for the single
/// file the text came with, never for a surrounding loop.
pub fn decode_stream(text: &str) -> (r: Result<FileMeta, FileError>)
    ensures
        r is Ok <==> spec_decode_stream(text@) is Some,
        r is Ok ==> r->Ok_0@ == spec_decode_stream(text@)->0,
        r is Err ==> r->Err_0 == FileError::InvalidMetadata,
{
    let v = str_to_chars(text);
    let prefix = str_to_chars("{\"suggested_name\":");
    let nul = str_to_chars("null");
    let mid = str_to_chars(",\"meta\":");
    if !matches_at(&v, 0, &prefix) {
        proof {
            assert(v@.subrange(0, prefix@.len() as int) =~= v@.take(prefix@.len() as int));
        }
        return Err(FileError::InvalidMetadata);
    }
    proof {
        assert(v@.subrange(0, prefix@.len() as int) =~= v@.take(prefix@.len() as int));
    }
    let rest = sub_chars(&v, prefix.len(), v.len());
    proof {
        assert(rest@ =~= text@.skip(prefix_chars().len() as int));
        assert(rest@.subrange(0, nul@.len() as int) =~= rest@.take(nul@.len() as int));
    }
    let (name, rest2): (Option<String>, Vec<char>) = if matches_at(&rest, 0, &nul) {
        (None, sub_chars(&rest, nul.len(), rest.len()))
    } else if rest.len() > 0 && rest[0] == '"' {
        let q = find_char_from(&rest, '"', 1);
        proof {
            crate::text::lemma_index_of_from_props(rest@, '"', 1);
        }
        if q >= rest.len() {
            return Err(FileError::InvalidMetadata);
        }
        let nm = chars_to_string(&sub_chars(&rest, 1, q));
        if !is_valid_name(nm.as_str()) {
            return Err(FileError::InvalidMetadata);
        }
        (Some(nm), sub_chars(&rest, q + 1, rest.len()))
    } else {
        return Err(FileError::InvalidMetadata);
    };
    proof {
        assert(spec_decode_name(rest@) is Some);
        assert(rest2@ == (spec_decode_name(rest@)->0).1);
        assert(rest2@.subrange(0, mid@.len() as int) =~= rest2@.take(mid@.len() as int));
    }
    if !(rest2.len() > mid.len() && matches_at(&rest2, 0, &mid)) {
        return Err(FileError::InvalidMetadata);
    }
    if rest2[rest2.len() - 1] != '}' {
        return Err(FileError::InvalidMetadata);
    }
    let body = sub_chars(&rest2, mid.len(), rest2.len() - 1);
    proof {
        assert(body@.subrange(0, nul@.len() as int) =~= body@.take(nul@.len() as int));
    }
    let meta: Option<String> = if body.len() == nul.len() && matches_at(&body, 0, &nul) {
        proof {
            assert(body@ =~= null_chars());
        }
        None
    } else if body.len() > 0 {
        proof {
            if body@ == null_chars() {
                assert(body@.take(nul@.len() as int) =~= nul@);
                assert(false);
            }
        }
        Some(chars_to_string(&body))
    } else {
        proof {
            reveal_strlit("null");
        }
        return Err(FileError::InvalidMetadata);
    };
    Ok(FileMeta { suggested_name: name, meta })
}

/// A valid filename never holds a quote, so the closing quote of the
/// encoded name is the first quote after it.
proof fn lemma_name_has_no_quote(n: Seq<char>, i: int)
    requires
        valid_name(n),
        0 <= i < n.len(),
    ensures
        n[i] != '"',
{
}

/// Stream round trip: every well-formed metadata record decodes from
/// its own stream-embedded encoding, unchanged.
pub proof fn lemma_stream_round_trip(v: FileMetaV)
    requires
        file_meta_wf(v),
    ensures
        spec_decode_stream(spec_encode_stream(v)) == Some(v),
{
    reveal_strlit("{\"suggested_name\":");
    reveal_strlit("null");
    reveal_strlit(",\"meta\":");
    let b = spec_encode_stream(v);
    let p = prefix_chars();
    let n = spec_name_part(v.name);
    let m = mid_chars();
    let x = spec_meta_part(v.meta);
    assert(b.take(p.len() as int) =~= p);
    let rest = b.skip(p.len() as int);
    assert(rest =~= n + m + x + seq!['}']);
    let rest2 = m + x + seq!['}'];
    match v.name {
        None => {
            assert(rest.take(null_chars().len() as int) =~= null_chars());
            assert(rest.skip(null_chars().len() as int) =~= rest2);
        },
        Some(nm) => {
            assert(rest[0] == '"');
            assert(rest.take(null_chars().len() as int)[0] == '"');
            assert(rest.take(null_chars().len() as int) != null_chars());
            assert(rest[nm.len() as int + 1] == '"');
            assert forall|k: int| 1 <= k < nm.len() as int + 1 implies rest[k] != '"' by {
                lemma_name_has_no_quote(nm, k - 1);
            }
            lemma_index_of_from_found(rest, '"', 1, nm.len() as int + 1);
            assert(rest.subrange(1, nm.len() as int + 1) =~= nm);
            assert(rest.skip(nm.len() as int + 2) =~= rest2);
        },
    }
    assert(spec_decode_name(rest) == Some((v.name, rest2)));
    assert(rest2.take(m.len() as int) =~= m);
    assert(rest2.last() == '}');
    assert(rest2.len() > m.len());
    let body = rest2.subrange(m.len() as int, rest2.len() - 1);
    assert(body =~= x);
    match v.meta {
        None => {
            assert(body == null_chars());
        },
        Some(mx) => {
            assert(body == mx);
            assert(body != null_chars());
            assert(body.len() > 0);
        },
    }
    assert(spec_decode_meta(rest2) == Some(v.meta));
}

/// What `serde_json` accepts as the text of one JSON value; the answer
/// depends on the text alone.
pub uninterp spec fn is_valid_json_text(s: Seq<char>) -> bool;

/// Relies on `serde_json::from_str::<Value>`: whether the text parses
/// as one JSON value.
#[verifier::external_body]
fn json_text_valid(s: &str) -> (r: bool)
    ensures
        r == is_valid_json_text(s@),
{
    serde_json::from_str::<serde_json::Value>(s).is_ok()
}

/// The header form of a metadata record: the name as the `filename`
/// header's value, the metadata text as the `metadata` header's value,
/// each present exactly when the field is.
pub fn encode_header_form(m: &FileMeta) -> (r: (Option<String>, Option<String>))
    ensures
        (match r.0 {
            Some(s) => Some(s@),
            None => None,
        }) == m@.name,
        (match r.1 {
            Some(s) => Some(s@),
            None => None,
        }) == m@.meta,
{
    let name = match &m.suggested_name {
        Some(n) => Some(n.clone()),
        None => None,
    };
    let meta = match &m.meta {
        Some(x) => Some(x.clone()),
        None => None,
    };
    (name, meta)
}

/// What the header form decodes to: a `filename` value is kept only
/// when it is a valid filename; a `metadata` value is kept only when
/// serde_json accepts it, it is nonempty, and it is not the literal
/// `null` — anything else degrades to no metadata rather than failing.
pub open spec fn spec_decode_header(
    filename: Option<Seq<char>>,
    metadata: Option<Seq<char>>,
) -> FileMetaV {
    FileMetaV {
        name: match filename {
            Some(f) => if valid_name(f) {
                Some(f)
            } else {
                None
            },
            None => None,
        },
        meta: match metadata {
            Some(x) => if is_valid_json_text(x) && x.len() > 0 && x != null_chars() {
                Some(x)
            } else {
                None
            },
            None => None,
        },
    }
}

/// Decodes the header form of a metadata record.  Nothing here fails: a
/// bad name or a bad metadata text degrades to the absent value.
pub fn decode_header_form(filename: Option<&str>, metadata: Option<&str>) -> (m: FileMeta)
    ensures
        m@ == spec_decode_header(
            match filename {
                Some(f) => Some(f@),
                None => None,
            },
            match metadata {
                Some(x) => Some(x@),
                None => None,
            },
        ),
        file_meta_wf(m@),
{
    let name: Option<String> = match filename {
        Some(f) => if is_valid_name(f) {
            Some(String::from_str(f))
        } else {
            None
        },
        None => None,
    };
    let meta: Option<String> = match metadata {
        Some(x) => {
            let xv = str_to_chars(x);
            let nul = str_to_chars("null");
            proof {
                assert(xv@.subrange(0, nul@.len() as int) =~= xv@.take(nul@.len() as int));
            }
            let is_null = xv.len() == nul.len() && matches_at(&xv, 0, &nul);
            proof {
                if is_null {
                    assert(x@ =~= null_chars());
                }
            }
            if json_text_valid(x) && xv.len() > 0 && !is_null {
                proof {
                    if x@ == null_chars() {
                        assert(xv@.take(nul@.len() as int) =~= nul@);
                    }
                }
                Some(String::from_str(x))
            } else {
                None
            }
        },
        None => None,
    };
    FileMeta { suggested_name: name, meta }
}

/// Header round trip: a well-formed metadata record, encoded into the
/// `filename` and `metadata` header values and decoded again, comes
/// back unchanged — except that a metadata text serde_json does not
/// accept decodes to no metadata rather than failing.
pub proof fn lemma_header_round_trip(v: FileMetaV)
    requires
        file_meta_wf(v),
    ensures
        ({
            let d = spec_decode_header(v.name, v.meta);
            &&& d.name == v.name
            &&& (v.meta is Some && is_valid_json_text(v.meta->0) ==> d.meta == v.meta)
            &&& (!(v.meta is Some && is_valid_json_text(v.meta->0)) ==> d.meta == None::<
                Seq<char>,
            >)
        }),
{
}

/// Builds a metadata record from a raw suggested name and a raw
/// metadata text, as the sending side does: a name that fails
/// validation is dropped, and an empty or `null` metadata text is
/// carried as no metadata.
pub fn file_meta_new(name: Option<&str>, meta: Option<&str>) -> (m: FileMeta)
    ensures
        m@.name == (match name {
            Some(f) => if valid_name(f@) {
                Some(f@)
            } else {
                None
            },
            None => None::<Seq<char>>,
        }),
        m@.meta == (match meta {
            Some(x) => if x@.len() > 0 && x@ != null_chars() {
                Some(x@)
            } else {
                None
            },
            None => None::<Seq<char>>,
        }),
        file_meta_wf(m@),
{
    let sname: Option<String> = match name {
        Some(f) => if is_valid_name(f) {
            Some(String::from_str(f))
        } else {
            None
        },
        None => None,
    };
    let smeta: Option<String> = match meta {
        Some(x) => {
            let xv = str_to_chars(x);
            let nul = str_to_chars("null");
            proof {
                assert(xv@.subrange(0, nul@.len() as int) =~= xv@.take(nul@.len() as int));
            }
            let is_null = xv.len() == nul.len() && matches_at(&xv, 0, &nul);
            proof {
                if is_null {
                    assert(x@ =~= null_chars());
                }
                if x@ == null_chars() {
                    assert(xv@.take(nul@.len() as int) =~= nul@);
                }
            }
            if xv.len() > 0 && !is_null {
                Some(String::from_str(x))
            } else {
                None
            }
        },
        None => None,
    };
    FileMeta { suggested_name: sname, meta: smeta }
}

} // verus!
