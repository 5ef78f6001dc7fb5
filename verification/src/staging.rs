//! The pathspec patterns the bulk staging step hands to the version-control
//! collaborator, built from the command line's extension and directory
//! filters: each comma-separated extension becomes a glob, restricted to
//! the directory when one was given, and with neither filter everything is
//! staged.

use vstd::prelude::*;

use crate::text::{
    drop_leading, drop_trailing, push_str_chars, push_without_leading, push_without_trailing,
    split_on, split_sep, trim_spaces, trimmed, views_of,
};

verus! {

/// The glob for one extension entry: the entry is trimmed and stripped of
/// leading dots, the directory of trailing slashes.
pub open spec fn extension_pattern(directory: Option<Seq<char>>, entry: Seq<char>) -> Seq<char> {
    let ext = drop_leading(trimmed(entry), '.');
    match directory {
        Some(d) => drop_trailing(d, '/') + "/**/*."@ + ext,
        None => "*."@ + ext,
    }
}

/// Every pattern the staging call passes on: one glob per comma-separated
/// extension entry; just the directory when only that was given; and the
/// whole working tree when neither was.
pub open spec fn stage_patterns_spec(
    extensions: Option<Seq<char>>,
    directory: Option<Seq<char>>,
) -> Seq<Seq<char>> {
    match extensions {
        Some(e) => Seq::new(
            split_sep(e, ',').len(),
            |i: int| extension_pattern(directory, split_sep(e, ',')[i]),
        ),
        None => match directory {
            Some(d) => seq![drop_trailing(d, '/')],
            None => seq!["."@],
        },
    }
}

/// Builds the staging patterns, the executable form of
/// [`stage_patterns_spec`].
pub fn stage_patterns(extensions: Option<&Vec<char>>, directory: Option<&Vec<char>>) -> (r: Vec<
    Vec<char>,
>)
    ensures
        views_of(r@) == stage_patterns_spec(
            match extensions {
                Some(e) => Some(e@),
                None => None,
            },
            match directory {
                Some(d) => Some(d@),
                None => None,
            },
        ),
{
    let ghost dir_view: Option<Seq<char>> = match directory {
        Some(d) => Some(d@),
        None => None,
    };
    match extensions {
        Some(e) => {
            let parts = split_on(e, ',');
            let ghost segs = split_sep(e@, ',');
            let ghost target = Seq::new(segs.len(), |i: int| extension_pattern(dir_view, segs[i]));
            let mut out: Vec<Vec<char>> = Vec::new();
            let mut i: usize = 0;
            while i < parts.len()
                invariant
                    i <= parts@.len(),
                    views_of(parts@) == segs,
                    target == Seq::new(
                        segs.len(),
                        |k: int| extension_pattern(dir_view, segs[k]),
                    ),
                    dir_view == (match directory {
                        Some(d) => Some(d@),
                        None => None::<Seq<char>>,
                    }),
                    views_of(out@) =~= target.take(i as int),
                decreases parts@.len() - i,
            {
                let t = trim_spaces(&parts[i]);
                let mut pat: Vec<char> = Vec::new();
                match directory {
                    Some(d) => {
                        push_without_trailing(&mut pat, d, '/');
                        push_str_chars(&mut pat, "/**/*.");
                        push_without_leading(&mut pat, &t, '.');
                    },
                    None => {
                        push_str_chars(&mut pat, "*.");
                        push_without_leading(&mut pat, &t, '.');
                    },
                }
                proof {
                    assert(segs[i as int] == parts@[i as int]@);
                    assert(pat@ =~= extension_pattern(dir_view, segs[i as int]));
                }
                out.push(pat);
                proof {
                    assert(target.take(i + 1 as int) =~= target.take(i as int).push(
                        target[i as int],
                    ));
                    assert(views_of(out@) =~= target.take(i + 1 as int));
                }
                i = i + 1;
            }
            proof {
                assert(target.take(target.len() as int) =~= target);
            }
            out
        },
        None => {
            match directory {
                Some(d) => {
                    let mut pat: Vec<char> = Vec::new();
                    push_without_trailing(&mut pat, d, '/');
                    let mut out: Vec<Vec<char>> = Vec::new();
                    out.push(pat);
                    proof {
                        assert(views_of(out@) =~= seq![drop_trailing(d@, '/')]);
                    }
                    out
                },
                None => {
                    let mut out: Vec<Vec<char>> = Vec::new();
                    out.push(crate::text::to_chars("."));
                    proof {
                        assert(views_of(out@) =~= seq!["."@]);
                    }
                    out
                },
            }
        },
    }
}

} // verus!
