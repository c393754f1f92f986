//! File paths as text, read the way POSIX systems read them: components are
//! separated by `/`, and empty components and `.` components do not count.

use vstd::prelude::*;
use vstd::string::*;
use crate::text::{
    chars_of, lemma_strip_trailing_is_prefix, lemma_strip_trailing_takes, strip_trailing,
};

verus! {

/// `name` placed under the directory `base`. An absolute `name` stands for
/// itself; otherwise one separator is put between the two unless `base`
/// is empty or already ends in one.
pub open spec fn joined(base: Seq<char>, name: Seq<char>) -> Seq<char> {
    if name.len() > 0 && name[0] == '/' {
        name
    } else if base.len() == 0 || base.last() == '/' {
        base + name
    } else {
        base + seq!['/'] + name
    }
}

/// Where the last component of `path` begins: just behind its last separator,
/// or at 0 if it has none.
pub open spec fn last_component_start(path: Seq<char>) -> int
    decreases path.len(),
{
    if path.len() == 0 || path.last() == '/' {
        path.len() as int
    } else {
        last_component_start(path.drop_last())
    }
}

/// The name of the file or directory that `path` ends in. Trailing separators
/// and trailing `.` components are passed over; there is no such name if nothing
/// is left then, or if the path ends in `..`.
pub open spec fn file_name(path: Seq<char>) -> Option<Seq<char>>
    decreases path.len(),
    via file_name_decreases
{
    let stem = strip_trailing(path, '/');
    let cut = last_component_start(stem);
    let name = stem.skip(cut);
    if stem.len() == 0 {
        None
    } else if name =~= seq!['.'] {
        file_name(stem.take(cut))
    } else if name =~= seq!['.', '.'] {
        None
    } else {
        Some(name)
    }
}

#[via_fn]
proof fn file_name_decreases(path: Seq<char>) {
    let stem = strip_trailing(path, '/');
    lemma_strip_trailing_is_prefix(path, '/');
    lemma_last_component_start(stem);
}

/// The last component of a path that does not end in a separator starts inside
/// the path, holds no separator, and has a separator in front unless it starts
/// the path.
pub proof fn lemma_last_component_start(path: Seq<char>)
    ensures
        0 <= last_component_start(path) <= path.len(),
        forall|i: int|
            last_component_start(path) <= i < path.len() ==> #[trigger] path[i] != '/',
        last_component_start(path) > 0 ==> path[last_component_start(path) - 1] == '/',
        path.len() > 0 && path.last() != '/' ==> last_component_start(path) < path.len(),
    decreases path.len(),
{
    if path.len() == 0 || path.last() == '/' {
    } else {
        let rest = path.drop_last();
        lemma_last_component_start(rest);
        let cut = last_component_start(rest);
        assert forall|i: int| cut <= i < path.len() implies #[trigger] path[i] != '/' by {
            if i < rest.len() {
                assert(path[i] == rest[i]);
            }
        }
        if cut > 0 {
            assert(path[cut - 1] == rest[cut - 1]);
        }
    }
}

/// A position behind which a prefix holds no separator, and in front of which
/// stands one (or nothing), is where the prefix's last component begins.
pub proof fn lemma_last_component_start_found(path: Seq<char>, cut: int)
    requires
        0 <= cut <= path.len(),
        forall|i: int| cut <= i < path.len() ==> #[trigger] path[i] != '/',
        cut > 0 ==> path[cut - 1] == '/',
    ensures
        last_component_start(path) == cut,
    decreases path.len() - cut,
{
    if cut < path.len() {
        assert(path[path.len() - 1] != '/');
        let rest = path.drop_last();
        assert forall|i: int| cut <= i < rest.len() implies #[trigger] rest[i] != '/' by {
            assert(rest[i] == path[i]);
        }
        if cut > 0 {
            assert(rest[cut - 1] == path[cut - 1]);
        }
        lemma_last_component_start_found(rest, cut);
    }
}

/// A file name, where there is one, is not empty.
pub proof fn lemma_file_name_not_empty(path: Seq<char>)
    ensures
        file_name(path) matches Some(name) ==> name.len() > 0,
    decreases path.len(),
{
    let stem = strip_trailing(path, '/');
    let cut = last_component_start(stem);
    lemma_strip_trailing_is_prefix(path, '/');
    lemma_last_component_start(stem);
    if stem.len() > 0 && stem.skip(cut) =~= seq!['.'] {
        lemma_file_name_not_empty(stem.take(cut));
    }
}

/// The text of `name` placed under the directory `base`.
pub fn join_path(base: &str, name: &str) -> (path: String)
    ensures
        path@ == joined(base@, name@),
{
    let base_chars = chars_of(base);
    let name_chars = chars_of(name);
    if name_chars.len() > 0 && name_chars[0] == '/' {
        return String::from_str(name);
    }
    let mut path = String::from_str(base);
    if base_chars.len() > 0 && base_chars[base_chars.len() - 1] != '/' {
        proof {
            reveal_strlit("/");
            assert("/"@ =~= seq!['/']);
        }
        path.append("/");
    }
    path.append(name);
    path
}

/// Finds the span of `chars[..end]`'s file name, if it has one.
fn file_name_span(chars: &Vec<char>, end: usize) -> (span: Option<(usize, usize)>)
    requires
        end <= chars.len(),
    ensures
        match span {
            Some((from, to)) => from < to <= end && file_name(chars@.take(end as int)) == Some(
                chars@.subrange(from as int, to as int),
            ),
            None => file_name(chars@.take(end as int)) is None,
        },
    decreases end,
{
    let ghost path = chars@.take(end as int);
    let mut stop: usize = end;
    while stop > 0 && chars[stop - 1] == '/'
        invariant
            stop <= end <= chars.len(),
            path == chars@.take(end as int),
            forall|i: int| stop <= i < path.len() ==> #[trigger] path[i] == '/',
        decreases stop,
    {
        stop -= 1;
    }
    let ghost stem = path.take(stop as int);
    proof {
        lemma_strip_trailing_takes(path, '/', stop as int);
        if stop > 0 {
            assert(stem.last() == chars@[stop - 1]);
        }
        assert(strip_trailing(stem, '/') == stem);
        assert(stem =~= chars@.take(stop as int));
    }
    if stop == 0 {
        return None;
    }
    let mut from: usize = stop;
    while from > 0 && chars[from - 1] != '/'
        invariant
            from <= stop <= chars.len(),
            stem == chars@.take(stop as int),
            forall|i: int| from <= i < stem.len() ==> #[trigger] stem[i] != '/',
        decreases from,
    {
        from -= 1;
    }
    proof {
        lemma_last_component_start_found(stem, from as int);
        assert(stem.skip(from as int) =~= chars@.subrange(from as int, stop as int));
        assert(stem.take(from as int) =~= chars@.take(from as int));
    }
    let ghost name = chars@.subrange(from as int, stop as int);
    if stop - from == 1 && chars[from] == '.' {
        assert(name =~= seq!['.']);
        return file_name_span(chars, from);
    }
    if stop - from == 2 && chars[from] == '.' && chars[from + 1] == '.' {
        assert(name =~= seq!['.', '.']);
        return None;
    }
    proof {
        if name =~= seq!['.'] {
            assert(name.len() == 1 && name[0] == '.');
        }
        if name =~= seq!['.', '.'] {
            assert(name.len() == 2 && name[0] == '.' && name[1] == '.');
        }
    }
    Some((from, stop))
}

/// The name of the file or directory that `path` ends in, if it has one.
pub fn path_file_name(path: &str) -> (name: Option<&str>)
    ensures
        match name {
            Some(text) => file_name(path@) == Some(text@),
            None => file_name(path@) is None,
        },
{
    let chars = chars_of(path);
    assert(chars@.take(chars.len() as int) =~= path@);
    match file_name_span(&chars, chars.len()) {
        Some((from, to)) => Some(path.substring_char(from, to)),
        None => None,
    }
}

} // verus!
