//! The bind-mount specification parser.
//!
//! A mount argument is a comma-separated list of `key=value` tokens
//! with the keys `type`, `src` and `dst`.  The only supported type is
//! `bind`, which needs both a source and a destination.  Unknown keys
//! and tokens without `=` are rejected rather than ignored, so a
//! misspelt specification fails fast instead of silently configuring
//! the wrong sandbox.  A destination must be non-empty and may not
//! escape the sandbox root through a `..` segment.

use vstd::prelude::*;

use crate::errors::ErrorKind;
use crate::text::{spec_split, spec_split_once, split_on, split_once_on};

verus! {

/// The supported mount kinds.
#[derive(Clone, Copy, Debug, PartialEq, Eq, Structural)]
pub enum MountKind {
    /// A bind mount of a host path into the sandbox.
    Bind,
}

/// One parsed mount: a host source bound at a sandbox destination.
#[derive(Clone, Debug)]
pub struct MountDescriptor {
    /// What kind of mount this is.
    pub kind: MountKind,
    /// The host path that is made visible.
    pub source: String,
    /// The sandbox path it is made visible at.
    pub destination: String,
}

/// What the tokens of one specification have established so far.
pub ghost struct ScanState {
    /// The value of the last `type` token, if any.
    pub ty: Option<Seq<char>>,
    /// The value of the last `src` token, if any.
    pub src: Option<Seq<char>>,
    /// The value of the last `dst` token, if any.
    pub dst: Option<Seq<char>>,
}

/// The scan state before any token.
pub open spec fn scan_start() -> ScanState {
    ScanState { ty: None, src: None, dst: None }
}

/// How one token changes the scan state: a token without `=` is
/// malformed, `type` must name `bind`, `src` and `dst` record their
/// value (a later token overrides an earlier one), and any other key
/// is unknown.
pub open spec fn spec_scan_token(st: ScanState, tok: Seq<char>) -> Result<ScanState, ErrorKind> {
    match spec_split_once(tok, '=') {
        None => Err(ErrorKind::MalformedMount),
        Some(kv) => if kv.0 == "type"@ {
            if kv.1 == "bind"@ {
                Ok(ScanState { ty: Some(kv.1), ..st })
            } else {
                Err(ErrorKind::UnsupportedMountType)
            }
        } else if kv.0 == "src"@ {
            Ok(ScanState { src: Some(kv.1), ..st })
        } else if kv.0 == "dst"@ {
            Ok(ScanState { dst: Some(kv.1), ..st })
        } else {
            Err(ErrorKind::UnknownMountKey)
        },
    }
}

/// Scans the tokens in order; the first offending token decides the
/// error.
pub open spec fn spec_scan(toks: Seq<Seq<char>>, st: ScanState) -> Result<ScanState, ErrorKind>
    decreases toks.len(),
{
    if toks.len() == 0 {
        Ok(st)
    } else {
        match spec_scan_token(st, toks[0]) {
            Err(e) => Err(e),
            Ok(st2) => spec_scan(toks.drop_first(), st2),
        }
    }
}

/// A destination is acceptable when it is non-empty and none of its
/// slash-separated segments is `..`, so it cannot escape the sandbox
/// root by traversal.
pub open spec fn dest_ok(d: Seq<char>) -> bool {
    d.len() > 0 && forall|i: int|
        0 <= i < spec_split(d, '/').len() ==> #[trigger] spec_split(d, '/')[i] != ".."@
}

/// What parsing one specification string yields: the source and
/// destination of a bind mount, or the category of the first fault.
pub open spec fn spec_parse_mount(s: Seq<char>) -> Result<(Seq<char>, Seq<char>), ErrorKind> {
    match spec_scan(spec_split(s, ','), scan_start()) {
        Err(e) => Err(e),
        Ok(st) => if st.ty is None || st.src is None || st.dst is None {
            Err(ErrorKind::IncompleteMount)
        } else if !dest_ok(st.dst->0) {
            Err(ErrorKind::MalformedMount)
        } else {
            Ok((st.src->0, st.dst->0))
        },
    }
}

/// The view of an optional string.
pub open spec fn opt_view(o: Option<String>) -> Option<Seq<char>> {
    match o {
        Some(v) => Some(v@),
        None => None,
    }
}

/// The source and destination a descriptor speaks of.
pub open spec fn md_view(m: MountDescriptor) -> (Seq<char>, Seq<char>) {
    (m.source@, m.destination@)
}

/// What parsing a list of specification strings yields: the
/// descriptors in the order given, or the first fault.
pub open spec fn spec_parse_mounts(specs: Seq<Seq<char>>) -> Result<
    Seq<(Seq<char>, Seq<char>)>,
    ErrorKind,
>
    decreases specs.len(),
{
    if specs.len() == 0 {
        Ok(Seq::<(Seq<char>, Seq<char>)>::empty())
    } else {
        match spec_parse_mount(specs[0]) {
            Err(e) => Err(e),
            Ok(sd) => match spec_parse_mounts(specs.drop_first()) {
                Err(e) => Err(e),
                Ok(rest) => Ok(seq![sd] + rest),
            },
        }
    }
}

/// True iff `d` is an acceptable bind-mount destination.
pub fn destination_valid(d: &str) -> (r: bool)
    ensures
        r == dest_ok(d@),
{
    if d.unicode_len() == 0 {
        return false;
    }
    let segments = split_on(d, '/');
    let ghost pieces = spec_split(d@, '/');
    let up = String::from_str("..");
    let n = segments.len();
    let mut i: usize = 0;
    while i < n
        invariant
            0 <= i <= n,
            n == segments@.len(),
            pieces == spec_split(d@, '/'),
            pieces == segments@.map_values(|t: String| t@),
            d@.len() > 0,
            up@ == ".."@,
            forall|k: int| 0 <= k < i ==> #[trigger] pieces[k] != ".."@,
        decreases n - i,
    {
        if segments[i].eq(&up) {
            assert(pieces[i as int] == ".."@);
            return false;
        }
        assert(pieces[i as int] != ".."@);
        i = i + 1;
    }
    true
}

/// Parses one mount specification string into a descriptor, exactly as
/// `spec_parse_mount` says.
pub fn parse_mount_spec(s: &str) -> (r: Result<MountDescriptor, ErrorKind>)
    ensures
        match spec_parse_mount(s@) {
            Ok(sd) => (r matches Ok(m) && m.kind == MountKind::Bind && m.source@ == sd.0
                && m.destination@ == sd.1),
            Err(e) => r == Err::<MountDescriptor, ErrorKind>(e),
        },
{
    let toks = split_on(s, ',');
    let ghost tok_views = spec_split(s@, ',');
    let key_type = String::from_str("type");
    let key_src = String::from_str("src");
    let key_dst = String::from_str("dst");
    let val_bind = String::from_str("bind");
    let mut ty_seen: bool = false;
    let mut src: Option<String> = None;
    let mut dst: Option<String> = None;
    let n = toks.len();
    let mut i: usize = 0;
    proof {
        assert(tok_views.subrange(0, n as int) =~= tok_views);
    }
    while i < n
        invariant
            0 <= i <= n,
            n == toks@.len(),
            tok_views == spec_split(s@, ','),
            tok_views == toks@.map_values(|t: String| t@),
            key_type@ == "type"@,
            key_src@ == "src"@,
            key_dst@ == "dst"@,
            val_bind@ == "bind"@,
            spec_scan(tok_views, scan_start()) == spec_scan(
                tok_views.subrange(i as int, n as int),
                ScanState {
                    ty: if ty_seen {
                        Some("bind"@)
                    } else {
                        None
                    },
                    src: opt_view(src),
                    dst: opt_view(dst),
                },
            ),
        decreases n - i,
    {
        let ghost st_here = ScanState {
            ty: if ty_seen {
                Some("bind"@)
            } else {
                None
            },
            src: opt_view(src),
            dst: opt_view(dst),
        };
        let ghost tail = tok_views.subrange(i as int, n as int);
        proof {
            assert(tail.len() > 0);
            assert(tail[0] == tok_views[i as int]);
            assert(tail[0] == toks@[i as int]@);
            assert(tail.drop_first() =~= tok_views.subrange(i as int + 1, n as int));
        }
        match split_once_on(toks[i].as_str(), '=') {
            None => {
                proof {
                    assert(spec_scan_token(st_here, tail[0]) == Err::<ScanState, ErrorKind>(
                        ErrorKind::MalformedMount,
                    ));
                    assert(spec_scan(tail, st_here) == Err::<ScanState, ErrorKind>(
                        ErrorKind::MalformedMount,
                    ));
                }
                return Err(ErrorKind::MalformedMount);
            },
            Some(kv) => {
                let (k, v) = kv;
                let ghost kvv = spec_split_once(tail[0], '=')->0;
                proof {
                    assert(k@ == kvv.0 && v@ == kvv.1);
                }
                if k.eq(&key_type) {
                    if v.eq(&val_bind) {
                        proof {
                            assert(spec_scan_token(st_here, tail[0]) == Ok::<
                                ScanState,
                                ErrorKind,
                            >(ScanState { ty: Some(v@), ..st_here }));
                        }
                        ty_seen = true;
                    } else {
                        proof {
                            assert(spec_scan_token(st_here, tail[0]) == Err::<
                                ScanState,
                                ErrorKind,
                            >(ErrorKind::UnsupportedMountType));
                            assert(spec_scan(tail, st_here) == Err::<ScanState, ErrorKind>(
                                ErrorKind::UnsupportedMountType,
                            ));
                        }
                        return Err(ErrorKind::UnsupportedMountType);
                    }
                } else if k.eq(&key_src) {
                    proof {
                        assert(spec_scan_token(st_here, tail[0]) == Ok::<ScanState, ErrorKind>(
                            ScanState { src: Some(v@), ..st_here },
                        ));
                    }
                    src = Some(v);
                } else if k.eq(&key_dst) {
                    proof {
                        assert(spec_scan_token(st_here, tail[0]) == Ok::<ScanState, ErrorKind>(
                            ScanState { dst: Some(v@), ..st_here },
                        ));
                    }
                    dst = Some(v);
                } else {
                    proof {
                        assert(spec_scan_token(st_here, tail[0]) == Err::<ScanState, ErrorKind>(
                            ErrorKind::UnknownMountKey,
                        ));
                        assert(spec_scan(tail, st_here) == Err::<ScanState, ErrorKind>(
                            ErrorKind::UnknownMountKey,
                        ));
                    }
                    return Err(ErrorKind::UnknownMountKey);
                }
            },
        }
        i = i + 1;
    }
    proof {
        assert(tok_views.subrange(n as int, n as int) =~= Seq::<Seq<char>>::empty());
    }
    if !ty_seen {
        return Err(ErrorKind::IncompleteMount);
    }
    let src_v = match src {
        Some(v) => v,
        None => {
            return Err(ErrorKind::IncompleteMount);
        },
    };
    let dst_v = match dst {
        Some(v) => v,
        None => {
            return Err(ErrorKind::IncompleteMount);
        },
    };
    if !destination_valid(dst_v.as_str()) {
        return Err(ErrorKind::MalformedMount);
    }
    Ok(MountDescriptor { kind: MountKind::Bind, source: src_v, destination: dst_v })
}

/// Glues an already-parsed prefix onto the outcome of parsing the
/// remaining specifications.
pub open spec fn glue_parsed(
    prefix: Seq<(Seq<char>, Seq<char>)>,
    rest: Result<Seq<(Seq<char>, Seq<char>)>, ErrorKind>,
) -> Result<Seq<(Seq<char>, Seq<char>)>, ErrorKind> {
    match rest {
        Ok(t) => Ok(prefix + t),
        Err(e) => Err(e),
    }
}

/// Parses every `--mount` argument in the order given, preserving the
/// user-specified precedence for shadowing; the first faulty
/// specification decides the error.
pub fn parse_mount_specs(specs: &Vec<String>) -> (r: Result<Vec<MountDescriptor>, ErrorKind>)
    ensures
        match spec_parse_mounts(specs@.map_values(|t: String| t@)) {
            Ok(sds) => (r matches Ok(ms) && ms@.map_values(|m: MountDescriptor| md_view(m)) == sds
                && (forall|k: int| 0 <= k < ms@.len() ==> (#[trigger] ms@[k]).kind
                == MountKind::Bind)),
            Err(e) => r == Err::<Vec<MountDescriptor>, ErrorKind>(e),
        },
{
    let ghost all = specs@.map_values(|t: String| t@);
    let mut out: Vec<MountDescriptor> = Vec::new();
    let n = specs.len();
    let mut i: usize = 0;
    proof {
        assert(all.subrange(0, n as int) =~= all);
        assert(out@.map_values(|m: MountDescriptor| md_view(m)) =~= Seq::<
            (Seq<char>, Seq<char>),
        >::empty());
    }
    while i < n
        invariant
            0 <= i <= n,
            n == specs@.len(),
            all == specs@.map_values(|t: String| t@),
            spec_parse_mounts(all) == glue_parsed(
                out@.map_values(|m: MountDescriptor| md_view(m)),
                spec_parse_mounts(all.subrange(i as int, n as int)),
            ),
            forall|k: int| 0 <= k < out@.len() ==> (#[trigger] out@[k]).kind == MountKind::Bind,
        decreases n - i,
    {
        let ghost tail = all.subrange(i as int, n as int);
        let ghost prefix = out@.map_values(|m: MountDescriptor| md_view(m));
        proof {
            assert(tail.len() > 0);
            assert(tail[0] == all[i as int]);
            assert(tail[0] == specs@[i as int]@);
            assert(tail.drop_first() =~= all.subrange(i as int + 1, n as int));
        }
        match parse_mount_spec(specs[i].as_str()) {
            Err(e) => {
                proof {
                    assert(spec_parse_mount(tail[0]) == Err::<(Seq<char>, Seq<char>), ErrorKind>(
                        e,
                    ));
                    assert(spec_parse_mounts(tail) == Err::<
                        Seq<(Seq<char>, Seq<char>)>,
                        ErrorKind,
                    >(e));
                }
                return Err(e);
            },
            Ok(m) => {
                let ghost sd = spec_parse_mount(tail[0])->Ok_0;
                proof {
                    assert(md_view(m) == sd);
                    assert(prefix.push(sd) =~= prefix + seq![sd]);
                    match spec_parse_mounts(tail.drop_first()) {
                        Ok(t) => {
                            assert(prefix + (seq![sd] + t) =~= (prefix + seq![sd]) + t);
                        },
                        Err(_) => {},
                    }
                }
                out.push(m);
                proof {
                    assert(out@.map_values(|md: MountDescriptor| md_view(md)) =~= prefix.push(
                        sd,
                    ));
                }
            },
        }
        i = i + 1;
    }
    proof {
        assert(all.subrange(n as int, n as int) =~= Seq::<Seq<char>>::empty());
        assert(out@.map_values(|m: MountDescriptor| md_view(m)) + Seq::<
            (Seq<char>, Seq<char>),
        >::empty() =~= out@.map_values(|m: MountDescriptor| md_view(m)));
    }
    Ok(out)
}

} // verus!
