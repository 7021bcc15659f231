use vstd::prelude::*;

use crate::error::FileError;
use crate::ident::{beam_id_wf, compose_destination, spec_compose, BeamId};
use crate::metadata::{
    encode_stream, file_meta_new, file_meta_wf, null_chars, spec_encode_stream, FileMeta,
    FileMetaV,
};
use crate::text::{
    chars_to_string, find_char_from, index_of_from, is_valid_name, matches_at, str_to_chars,
    sub_chars, valid_name,
};

verus! {

/// The final segment of a file path: everything after the last `/` (the
/// whole path when it has none).
pub open spec fn spec_basename(p: Seq<char>) -> Seq<char>
    decreases p.len(),
{
    let i = index_of_from(p, '/', 0);
    if 0 <= i < p.len() {
        spec_basename(p.skip(i + 1))
    } else {
        p
    }
}

fn basename_chars(v: Vec<char>) -> (r: Vec<char>)
    ensures
        r@ == spec_basename(v@),
    decreases v@.len(),
{
    let i = find_char_from(&v, '/', 0);
    proof {
        crate::text::lemma_index_of_from_props(v@, '/', 0);
    }
    if i == v.len() {
        v
    } else {
        let rest = sub_chars(&v, i + 1, v.len());
        proof {
            assert(rest@ =~= v@.skip(i + 1));
        }
        basename_chars(rest)
    }
}

/// The name the sender suggests to the receiver: the explicit override
/// when one was given, otherwise the file's base name — unless the
/// source is standard input (`-`) or the base name is empty, `.` or
/// `..` and so names no file.  Either way the candidate is suggested
/// only when it passes filename validation; an invalid one is dropped,
/// not reported.
pub open spec fn spec_suggested_name(name: Option<Seq<char>>, file: Seq<char>) -> Option<
    Seq<char>,
> {
    let cand = match name {
        Some(n) => Some(n),
        None => {
            let base = spec_basename(file);
            if file != "-"@ && base.len() > 0 && base != "."@ && base != ".."@ {
                Some(base)
            } else {
                None
            }
        },
    };
    match cand {
        Some(c) => if valid_name(c) {
            Some(c)
        } else {
            None
        },
        None => None,
    }
}

/// The arguments of one send invocation.
#[derive(Debug, Clone)]
pub struct SendArgs {
    /// The receiving endpoint, without the broker part: `proxy` or
    /// `app.proxy`.
    pub to: String,
    /// The path of the file to read, or `-` for standard input.
    pub file: String,
    /// An override for the name suggested to the receiver.
    pub name: Option<String>,
    /// Additional metadata for the file, as the text of one JSON value.
    pub meta: Option<String>,
}

fn chars_eq_str(v: &Vec<char>, s: &str) -> (b: bool)
    ensures
        b == (v@ == s@),
{
    let sv = str_to_chars(s);
    if v.len() != sv.len() {
        return false;
    }
    proof {
        assert(v@.subrange(0, sv@.len() as int) =~= v@);
    }
    matches_at(v, 0, &sv)
}

impl SendArgs {
    /// The name this invocation suggests to the receiver.
    pub fn get_suggested_name(&self) -> (r: Option<String>)
        ensures
            (match r {
                Some(n) => Some(n@),
                None => None,
            }) == spec_suggested_name(
                match self.name {
                    Some(n) => Some(n@),
                    None => None,
                },
                self.file@,
            ),
    {
        let cand: Option<String> = match &self.name {
            Some(n) => Some(n.clone()),
            None => {
                let fv = str_to_chars(self.file.as_str());
                let is_stdin = chars_eq_str(&fv, "-");
                let base = basename_chars(fv);
                if !is_stdin && base.len() > 0 && !chars_eq_str(&base, ".") && !chars_eq_str(
                    &base,
                    "..",
                ) {
                    Some(chars_to_string(&base))
                } else {
                    None
                }
            },
        };
        match cand {
            Some(c) => if is_valid_name(c.as_str()) {
                Some(c)
            } else {
                None
            },
            None => None,
        }
    }

    /// The metadata record this invocation sends beside the file.
    pub fn to_file_meta(&self) -> (m: FileMeta)
        ensures
            m@.name == spec_suggested_name(
                match self.name {
                    Some(n) => Some(n@),
                    None => None,
                },
                self.file@,
            ),
            m@.meta == (match self.meta {
                Some(x) => if x@.len() > 0 && x@ != null_chars() {
                    Some(x@)
                } else {
                    None
                },
                None => None::<Seq<char>>,
            }),
            file_meta_wf(m@),
    {
        let name = self.get_suggested_name();
        file_meta_new(
            match &name {
                Some(n) => Some(n.as_str()),
                None => None,
            },
            match &self.meta {
                Some(x) => Some(x.as_str()),
                None => None,
            },
        )
    }
}

/// Everything the sending edge needs: the destination to open the
/// outbound stream to, and the stream metadata it carries.  The caller
/// copies the source into the opened stream and closes it.
#[derive(Debug, Clone)]
pub struct SendPlan {
    pub dest: BeamId,
    pub metadata_text: String,
}

/// Decides one send invocation: combines the caller's target fragment
/// with this instance's identifier and encodes the metadata record the
/// outbound stream carries.  A fragment that does not combine is the
/// one failure, surfaced to the caller — a send handles a single file,
/// so nothing is isolated here.
pub fn prepare_send(args: &SendArgs, own: &BeamId) -> (r: Result<SendPlan, FileError>)
    requires
        beam_id_wf(own),
    ensures
        r is Ok <==> spec_compose(args.to@, own.app@) is Some,
        r is Ok ==> {
            let (a, p) = spec_compose(args.to@, own.app@)->Some_0;
            &&& r->Ok_0.dest.app@ == a
            &&& r->Ok_0.dest.proxy@ == p
            &&& r->Ok_0.dest.broker@ == own.broker@
            &&& beam_id_wf(&r->Ok_0.dest)
            &&& r->Ok_0.metadata_text@ == spec_encode_stream(
                FileMetaV {
                    name: spec_suggested_name(
                        match args.name {
                            Some(n) => Some(n@),
                            None => None,
                        },
                        args.file@,
                    ),
                    meta: match args.meta {
                        Some(x) => if x@.len() > 0 && x@ != null_chars() {
                            Some(x@)
                        } else {
                            None
                        },
                        None => None::<Seq<char>>,
                    },
                },
            )
        },
        r is Err ==> r->Err_0 == FileError::InvalidDestination,
{
    let dest = match compose_destination(args.to.as_str(), own) {
        Ok(d) => d,
        Err(e) => {
            return Err(e);
        },
    };
    let m = args.to_file_meta();
    Ok(SendPlan { dest, metadata_text: encode_stream(&m) })
}

} // verus!
