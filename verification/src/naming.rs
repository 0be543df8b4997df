//! Derivation of the destination object name for an upload: the final
//! path component of the local source, joined onto the destination locator's
//! object-name prefix when one is present.
//!
//! The final component follows the usual filesystem reading of a path: any
//! trailing separators are ignored, a bare `.` component stands for the
//! directory around it, and a path whose last component is `..` (or that has
//! no component at all) has no file name.

use vstd::prelude::*;

use crate::errors::NameError;
use crate::locator::GsUrl;

verus! {

/// The index after the last `/` of `p`, or 0 when `p` has none.
pub open spec fn last_component_start(p: Seq<char>) -> int
    decreases p.len(),
{
    if p.len() == 0 {
        0
    } else if p[p.len() - 1] == '/' {
        p.len() as int
    } else {
        last_component_start(p.drop_last())
    }
}

/// The final path component of `p`, or `None` when `p` has none or ends in
/// a `..` component.
pub open spec fn spec_file_name(p: Seq<char>) -> Option<Seq<char>>
    decreases p.len(),
{
    if p.len() == 0 {
        None
    } else if p[p.len() - 1] == '/' {
        spec_file_name(p.drop_last())
    } else {
        let s = last_component_start(p);
        let c = p.subrange(s, p.len() as int);
        if c == seq!['.'] {
            spec_file_name(p.drop_last())
        } else if c == seq!['.', '.'] {
            None
        } else {
            Some(c)
        }
    }
}

/// The object name that an upload resolves to: the prefix, a `/`, and the
/// file name when a prefix is present, the file name alone otherwise.
pub open spec fn spec_resolved(prefix: Option<Seq<char>>, f: Seq<char>) -> Seq<char> {
    match prefix {
        Some(p) => p + "/"@ + f,
        None => f,
    }
}

/// A stopping point of the backward scan for a component start is exactly
/// [`last_component_start`].
proof fn lemma_lcs_at(p: Seq<char>, s: int)
    requires
        0 <= s <= p.len(),
        forall|k: int| s <= k < p.len() ==> p[k] != '/',
        s > 0 ==> p[s - 1] == '/',
    ensures
        last_component_start(p) == s,
    decreases p.len(),
{
    if p.len() == 0 {
    } else if p[p.len() - 1] == '/' {
        assert(s == p.len());
    } else {
        assert(s < p.len());
        lemma_lcs_at(p.drop_last(), s);
    }
}

/// The start of the component of `path` that ends at `end`: the index after
/// the nearest `/` at or before `end`, or 0.
fn component_start(path: &str, end: usize) -> (s: usize)
    requires
        end <= path@.len(),
    ensures
        s <= end,
        forall|k: int| s <= k < end ==> path@[k] != '/',
        s > 0 ==> path@[s - 1] == '/',
{
    let mut start = end;
    while start > 0
        invariant
            start <= end <= path@.len(),
            forall|k: int| start <= k < end ==> path@[k] != '/',
        decreases start,
    {
        if path.get_char(start - 1) == '/' {
            return start;
        }
        start -= 1;
    }
    0
}

/// The final path component of `path` as text, or `UnrepresentableFileName`
/// when the path has none.
pub fn file_name_of(path: &str) -> (r: Result<String, NameError>)
    ensures
        spec_file_name(path@) matches Some(f) ==> (r matches Ok(s) && s@ == f),
        spec_file_name(path@) is None ==> r == Err::<String, NameError>(
            NameError::UnrepresentableFileName,
        ),
{
    let n = path.unicode_len();
    let mut end: usize = n;
    proof {
        assert(path@.subrange(0, n as int) =~= path@);
    }
    loop
        invariant
            end <= n,
            n == path@.len(),
            spec_file_name(path@) == spec_file_name(path@.subrange(0, end as int)),
        decreases end,
    {
        let ghost sub = path@.subrange(0, end as int);
        if end == 0 {
            return Err(NameError::UnrepresentableFileName);
        }
        if path.get_char(end - 1) == '/' {
            proof {
                assert(sub.drop_last() =~= path@.subrange(0, end - 1));
            }
            end -= 1;
            continue ;
        }
        let start = component_start(path, end);
        proof {
            assert forall|k: int| start <= k < sub.len() implies sub[k] != '/' by {
                assert(sub[k] == path@[k]);
            }
            lemma_lcs_at(sub, start as int);
            assert(sub.subrange(start as int, end as int) =~= path@.subrange(
                start as int,
                end as int,
            ));
        }
        let ghost comp = path@.subrange(start as int, end as int);
        if end - start == 1 && path.get_char(start) == '.' {
            proof {
                assert(comp =~= seq!['.']);
                assert(sub.drop_last() =~= path@.subrange(0, end - 1));
            }
            end -= 1;
            continue ;
        }
        if end - start == 2 && path.get_char(start) == '.' && path.get_char(start + 1) == '.' {
            proof {
                assert(comp =~= seq!['.', '.']);
            }
            return Err(NameError::UnrepresentableFileName);
        }
        proof {
            if comp == seq!['.'] {
                assert(comp.len() == 1 && comp[0] == '.');
                assert(path@[start as int] == '.');
            }
            if comp == seq!['.', '.'] {
                assert(comp.len() == 2 && comp[0] == '.' && comp[1] == '.');
            }
        }
        let name = path.substring_char(start, end);
        return Ok(name.to_owned());
    }
}

/// Derives the destination object name for an upload into `dst` of the local
/// file at `src_path`: the final path component of `src_path`, prefixed by
/// the locator's object-name prefix when one is present. Fails exactly when
/// the source path has no final component.
pub fn resolve_object_name(dst: &GsUrl, src_path: &str) -> (r: Result<String, NameError>)
    ensures
        spec_file_name(src_path@) matches Some(f) ==> (r matches Ok(s) && s@ == spec_resolved(
            dst.object_view(),
            f,
        )),
        spec_file_name(src_path@) is None ==> r == Err::<String, NameError>(
            NameError::UnrepresentableFileName,
        ),
{
    let name = match file_name_of(src_path) {
        Ok(n) => n,
        Err(e) => {
            return Err(e);
        },
    };
    match &dst.object {
        Some(p) => {
            let mut out = p.clone();
            out.append("/");
            out.append(name.as_str());
            Ok(out)
        },
        None => Ok(name),
    }
}

} // verus!
