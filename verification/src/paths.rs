use vstd::prelude::*;

use crate::error::Error;

verus! {

/// One component of a slash-separated path.
#[derive(Debug)]
pub enum PathComponent {
    /// A leading slash: resolution resets to the configured root node.
    Root,
    /// A `.` segment: a no-op.
    Cur,
    /// An ordinary child name.
    Name(String),
}

/// The mathematical form of a path component.
pub enum CompView {
    Root,
    Cur,
    Name(Seq<char>),
}

impl View for PathComponent {
    type V = CompView;

    open spec fn view(&self) -> CompView {
        match self {
            PathComponent::Root => CompView::Root,
            PathComponent::Cur => CompView::Cur,
            PathComponent::Name(s) => CompView::Name(s@),
        }
    }
}

pub open spec fn comps_view(v: Seq<PathComponent>) -> Seq<CompView> {
    v.map_values(|c: PathComponent| c@)
}

/// What one slash-delimited segment contributes to the parsed path:
/// an empty segment contributes nothing, `.` is a current-directory
/// marker, `..` is rejected (this client does not support parent
/// traversal), anything else is a child name.
pub open spec fn classify_seg(seg: Seq<char>) -> Option<Seq<CompView>> {
    if seg.len() == 0 {
        Some(Seq::<CompView>::empty())
    } else if seg.len() == 1 && seg[0] == '.' {
        Some(seq![CompView::Cur])
    } else if seg.len() == 2 && seg[0] == '.' && seg[1] == '.' {
        None
    } else {
        Some(seq![CompView::Name(seg)])
    }
}

/// Parse the remainder `s` of a path, where `cur` holds the characters of
/// the segment read so far; segments are delimited by `/`.
pub open spec fn parse_chars(s: Seq<char>, cur: Seq<char>) -> Option<Seq<CompView>>
    decreases s.len(),
{
    if s.len() == 0 {
        classify_seg(cur)
    } else if s[0] == '/' {
        match (classify_seg(cur), parse_chars(s.skip(1), Seq::<char>::empty())) {
            (Some(h), Some(t)) => Some(h + t),
            _ => None,
        }
    } else {
        parse_chars(s.skip(1), cur.push(s[0]))
    }
}

/// The path grammar: a leading slash is the root marker, and the rest is a
/// sequence of slash-separated segments. `None` means the path is rejected.
pub open spec fn spec_parse(s: Seq<char>) -> Option<Seq<CompView>> {
    if s.len() > 0 && s[0] == '/' {
        match parse_chars(s.skip(1), Seq::<char>::empty()) {
            Some(t) => Some(seq![CompView::Root] + t),
            None => None,
        }
    } else {
        parse_chars(s, Seq::<char>::empty())
    }
}

fn classify_segment(seg: &str) -> (r: Result<Option<PathComponent>, Error>)
    ensures
        match r {
            Ok(oc) => match oc {
                None => classify_seg(seg@) == Some(Seq::<CompView>::empty()),
                Some(c) => classify_seg(seg@) == Some(seq![c@]),
            },
            Err(e) => classify_seg(seg@) is None && e is BadPath,
        },
{
    let n = seg.unicode_len();
    if n == 0 {
        Ok(None)
    } else if n == 1 && seg.get_char(0) == '.' {
        Ok(Some(PathComponent::Cur))
    } else if n == 2 && seg.get_char(0) == '.' && seg.get_char(1) == '.' {
        Err(Error::BadPath)
    } else {
        Ok(Some(PathComponent::Name(seg.to_owned())))
    }
}

/// Parse a slash-separated path into components. Rejects any path holding
/// a parent-directory segment.
pub fn parse_path(path: &str) -> (r: Result<Vec<PathComponent>, Error>)
    ensures
        match r {
            Ok(comps) => spec_parse(path@) == Some(comps_view(comps@)),
            Err(e) => spec_parse(path@) is None && e is BadPath,
        },
{
    let plen = path.unicode_len();
    let mut out: Vec<PathComponent> = Vec::new();
    let mut i: usize = 0;
    let mut start: usize = 0;
    if plen > 0 && path.get_char(0) == '/' {
        out.push(PathComponent::Root);
        i = 1;
        start = 1;
        proof {
            assert(path@.skip(1) =~= path@.subrange(1, path@.len() as int));
            assert(path@.subrange(1, 1) =~= Seq::<char>::empty());
            assert(comps_view(out@) =~= seq![CompView::Root]);
        }
    } else {
        proof {
            assert(path@.skip(0) =~= path@);
            assert(path@.subrange(0, 0) =~= Seq::<char>::empty());
            assert(comps_view(out@) =~= Seq::<CompView>::empty());
        }
    }
    while i < plen
        invariant
            plen == path@.len(),
            start <= i <= plen,
            match parse_chars(path@.skip(i as int), path@.subrange(start as int, i as int)) {
                Some(t) => spec_parse(path@) == Some(comps_view(out@) + t),
                None => spec_parse(path@) is None,
            },
        decreases plen - i,
    {
        let ghost pre_suffix = path@.skip(i as int);
        let ghost pre_seg = path@.subrange(start as int, i as int);
        proof {
            assert(pre_suffix[0] == path@[i as int]);
            assert(pre_suffix.skip(1) =~= path@.skip(i as int + 1));
        }
        let c = path.get_char(i);
        if c == '/' {
            let seg = path.substring_char(start, i);
            match classify_segment(seg) {
                Err(e) => {
                    return Err(e);
                },
                Ok(None) => {
                    proof {
                        let tt = parse_chars(path@.skip(i as int + 1), Seq::<char>::empty());
                        match tt {
                            Some(t) => {
                                assert(Seq::<CompView>::empty() + t =~= t);
                            },
                            None => {},
                        }
                    }
                },
                Ok(Some(comp)) => {
                    let ghost old_out = out@;
                    out.push(comp);
                    proof {
                        assert(comps_view(out@) =~= comps_view(old_out) + seq![comp@]);
                        let tt = parse_chars(path@.skip(i as int + 1), Seq::<char>::empty());
                        match tt {
                            Some(t) => {
                                assert(comps_view(old_out) + (seq![comp@] + t) =~= comps_view(
                                    out@,
                                ) + t);
                            },
                            None => {},
                        }
                    }
                },
            }
            i = i + 1;
            start = i;
            proof {
                assert(path@.subrange(i as int, i as int) =~= Seq::<char>::empty());
            }
        } else {
            i = i + 1;
            proof {
                assert(path@.subrange(start as int, i as int) =~= pre_seg.push(path@[i as int
                    - 1]));
            }
        }
    }
    let seg = path.substring_char(start, plen);
    proof {
        assert(path@.skip(plen as int) =~= Seq::<char>::empty());
        assert(path@.subrange(start as int, plen as int) == seg@);
    }
    match classify_segment(seg) {
        Err(e) => Err(e),
        Ok(None) => {
            proof {
                assert(comps_view(out@) + Seq::<CompView>::empty() =~= comps_view(out@));
            }
            Ok(out)
        },
        Ok(Some(comp)) => {
            let ghost old_out = out@;
            out.push(comp);
            proof {
                assert(comps_view(out@) =~= comps_view(old_out) + seq![comp@]);
            }
            Ok(out)
        },
    }
}

} // verus!
