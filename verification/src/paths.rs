//! Path-string helpers: the file name of a path and its extension, computed
//! over plain strings.
//!
//! A path here is a plain string whose components are separated by `'/'`.
//! The file name is everything after the last separator (empty when the
//! path ends in one), and the extension is everything after the last `'.'`
//! of the file name, provided that dot is not its first character (so a
//! leading-dot name such as a hidden file has no extension).

use vstd::prelude::*;
use vstd::string::StrSliceExecFns;

verus! {

/// The characters of `s` after the last occurrence of `sep`; all of `s`
/// when `sep` does not occur.
pub open spec fn after_last(s: Seq<char>, sep: char) -> Seq<char>
    decreases s.len(),
{
    if s.len() == 0 {
        s
    } else if s.last() == sep {
        Seq::<char>::empty()
    } else {
        after_last(s.drop_last(), sep).push(s.last())
    }
}

/// Whether `c` occurs in `s`.
pub open spec fn contains_char(s: Seq<char>, c: char) -> bool
    decreases s.len(),
{
    s.len() != 0 && (s.last() == c || contains_char(s.drop_last(), c))
}

/// The file name of the path `p`: the characters after its last separator.
pub open spec fn file_name_of(p: Seq<char>) -> Seq<char> {
    after_last(p, '/')
}

/// The extension of the path `p`: the characters of its file name after the
/// last `'.'`, provided some `'.'` stands past the name's first character.
pub open spec fn extension_of(p: Seq<char>) -> Option<Seq<char>> {
    let name = file_name_of(p);
    if name.len() > 0 && contains_char(name.skip(1), '.') {
        Some(after_last(name, '.'))
    } else {
        None
    }
}

/// The characters of `s` after the last occurrence of `sep`, as a String.
pub fn str_after_last(s: &str, sep: char) -> (r: String)
    ensures
        r@ == after_last(s@, sep),
{
    let n = s.unicode_len();
    let mut start: usize = 0;
    let mut i: usize = 0;
    while i < n
        invariant
            start <= i <= n,
            n == s@.len(),
            after_last(s@.take(i as int), sep) == s@.subrange(start as int, i as int),
        decreases n - i,
    {
        let c = s.get_char(i);
        proof {
            assert(s@.take(i as int + 1).drop_last() =~= s@.take(i as int));
            assert(s@.take(i as int + 1).last() == s@[i as int]);
        }
        if c == sep {
            start = i + 1;
            proof {
                assert(after_last(s@.take(i as int + 1), sep) =~= s@.subrange(
                    i as int + 1,
                    i as int + 1,
                ));
            }
        } else {
            proof {
                assert(after_last(s@.take(i as int + 1), sep) =~= s@.subrange(
                    start as int,
                    i as int + 1,
                ));
            }
        }
        i = i + 1;
    }
    proof {
        assert(s@.take(n as int) =~= s@);
    }
    let r = s.substring_char(start, n);
    r.to_owned()
}

/// The file name of the path `p`, possibly empty.
pub fn path_file_name(p: &str) -> (r: String)
    ensures
        r@ == file_name_of(p@),
{
    str_after_last(p, '/')
}

/// The extension of the path `p`, or `None` when its file name has none.
pub fn path_extension(p: &str) -> (r: Option<String>)
    ensures
        match r {
            Some(e) => extension_of(p@) == Some(e@),
            None => extension_of(p@) is None,
        },
{
    let name = path_file_name(p);
    let name_str = name.as_str();
    let n = name_str.unicode_len();
    if n == 0 {
        return None;
    }

    // Look for a '.' past the first character of the name.
    let mut has_dot: bool = false;
    let mut i: usize = 1;
    while i < n
        invariant
            1 <= i <= n,
            n == name_str@.len(),
            has_dot == contains_char(name_str@.subrange(1, i as int), '.'),
        decreases n - i,
    {
        let c = name_str.get_char(i);
        proof {
            assert(name_str@.subrange(1, i as int + 1).drop_last() =~= name_str@.subrange(
                1,
                i as int,
            ));
            assert(name_str@.subrange(1, i as int + 1).last() == name_str@[i as int]);
        }
        if c == '.' {
            has_dot = true;
        }
        i = i + 1;
    }
    proof {
        assert(name_str@.subrange(1, n as int) =~= name_str@.skip(1));
    }
    if has_dot {
        Some(str_after_last(name_str, '.'))
    } else {
        None
    }
}

} // verus!
