//! Classification of asset files by path extension, matched without
//! regard to ASCII case.

use vstd::prelude::*;
use vstd::string::StrSliceExecFns;

verus! {

/// The kinds of asset files the surrounding tool recognizes.
#[derive(Debug, Clone, Copy, PartialEq, Eq, Hash, Structural)]
pub enum FileType {
    Slf,
    Stci,
    Pcx,
    Tga,
    Gap,
    Wav,
    Jsd,
    Unknown,
}

/// Position of the last occurrence of `c` in `s`, `-1` when there is
/// none.
pub open spec fn last_index_of(s: Seq<char>, c: char) -> int
    decreases s.len(),
{
    if s.len() == 0 {
        -1
    } else if s[s.len() - 1] == c {
        s.len() - 1
    } else {
        last_index_of(s.drop_last(), c)
    }
}

/// `last_index_of` finds the greatest position holding `c`, and `-1`
/// exactly when no position does.
proof fn lemma_last_index_of(s: Seq<char>, c: char)
    ensures
        last_index_of(s, c) == -1 ==> forall|j: int| 0 <= j < s.len() ==> s[j] != c,
        last_index_of(s, c) != -1 ==> {
            let r = last_index_of(s, c);
            &&& 0 <= r < s.len()
            &&& s[r] == c
            &&& forall|j: int| r < j < s.len() ==> s[j] != c
        },
    decreases s.len(),
{
    if s.len() > 0 && s[s.len() - 1] != c {
        lemma_last_index_of(s.drop_last(), c);
        assert(forall|j: int| 0 <= j < s.len() - 1 ==> s.drop_last()[j] == s[j]);
    }
}

/// The extension of a path: what follows the last `'.'` of the name
/// after the last `'/'`; none when the name holds no `'.'`, or only a
/// leading one.
pub open spec fn extension_of(path: Seq<char>) -> Option<Seq<char>> {
    let name = path.subrange(last_index_of(path, '/') + 1, path.len() as int);
    let dot = last_index_of(name, '.');
    if dot <= 0 {
        Option::None
    } else {
        Option::Some(name.subrange(dot + 1, name.len() as int))
    }
}

/// Case-insensitive match of one character against a lower-case ASCII
/// letter: equal as is, or exactly 32 below it, its upper-case form.
pub open spec fn eq_ci(c: char, lower: char) -> bool {
    c == lower || c as int + 32 == lower as int
}

/// Case-insensitive match against a three-letter extension.
pub open spec fn ext_is(ext: Seq<char>, a: char, b: char, c: char) -> bool {
    ext.len() == 3 && eq_ci(ext[0], a) && eq_ci(ext[1], b) && eq_ci(ext[2], c)
}

/// The file type a path's extension names.
pub open spec fn file_type_of(path: Seq<char>) -> FileType {
    match extension_of(path) {
        Option::None => FileType::Unknown,
        Option::Some(e) => {
            if ext_is(e, 's', 'l', 'f') {
                FileType::Slf
            } else if ext_is(e, 's', 't', 'i') {
                FileType::Stci
            } else if ext_is(e, 'p', 'c', 'x') {
                FileType::Pcx
            } else if ext_is(e, 't', 'g', 'a') {
                FileType::Tga
            } else if ext_is(e, 'g', 'a', 'p') {
                FileType::Gap
            } else if ext_is(e, 'w', 'a', 'v') {
                FileType::Wav
            } else if ext_is(e, 'j', 's', 'd') {
                FileType::Jsd
            } else {
                FileType::Unknown
            }
        },
    }
}

/// Find the last occurrence of `c`, scanning from the end.
fn rfind_char(s: &str, c: char) -> (r: Option<usize>)
    ensures
        match r {
            Option::Some(k) => {
                &&& k < s@.len()
                &&& s@[k as int] == c
                &&& forall|j: int| k < j < s@.len() ==> s@[j] != c
            },
            Option::None => forall|j: int| 0 <= j < s@.len() ==> s@[j] != c,
        },
{
    let n = s.unicode_len();
    let mut i: usize = n;
    while i > 0
        invariant
            n == s@.len(),
            i <= n,
            forall|j: int| i <= j < n ==> s@[j] != c,
        decreases i,
    {
        i -= 1;
        if s.get_char(i) == c {
            return Some(i);
        }
    }
    None
}

/// Case-insensitive comparison against a lower-case ASCII letter.
fn eq_ci_exec(c: char, lower: char) -> (r: bool)
    ensures
        r == eq_ci(c, lower),
{
    c == lower || (c as u32) + 32 == (lower as u32)
}

/// Classify one asset path by its extension.
pub fn file_type_from_path(path: &str) -> (r: FileType)
    ensures
        r == file_type_of(path@),
{
    let n = path.unicode_len();
    proof {
        lemma_last_index_of(path@, '/');
    }
    let name_start: usize = match rfind_char(path, '/') {
        Some(k) => k + 1,
        None => 0,
    };
    proof {
        assert(name_start as int == last_index_of(path@, '/') + 1);
    }
    let name = path.substring_char(name_start, n);
    proof {
        lemma_last_index_of(name@, '.');
    }
    let dot: usize = match rfind_char(name, '.') {
        Some(k) => k,
        None => {
            return FileType::Unknown;
        },
    };
    if dot == 0 {
        return FileType::Unknown;
    }
    proof {
        assert(dot as int == last_index_of(name@, '.'));
    }
    let name_len = name.unicode_len();
    if name_len - dot - 1 != 3 {
        return FileType::Unknown;
    }
    let c0 = name.get_char(dot + 1);
    let c1 = name.get_char(dot + 2);
    let c2 = name.get_char(dot + 3);
    proof {
        let ext = name@.subrange(dot as int + 1, name@.len() as int);
        assert(ext.len() == 3);
        assert(ext[0] == c0);
        assert(ext[1] == c1);
        assert(ext[2] == c2);
    }
    if eq_ci_exec(c0, 's') && eq_ci_exec(c1, 'l') && eq_ci_exec(c2, 'f') {
        FileType::Slf
    } else if eq_ci_exec(c0, 's') && eq_ci_exec(c1, 't') && eq_ci_exec(c2, 'i') {
        FileType::Stci
    } else if eq_ci_exec(c0, 'p') && eq_ci_exec(c1, 'c') && eq_ci_exec(c2, 'x') {
        FileType::Pcx
    } else if eq_ci_exec(c0, 't') && eq_ci_exec(c1, 'g') && eq_ci_exec(c2, 'a') {
        FileType::Tga
    } else if eq_ci_exec(c0, 'g') && eq_ci_exec(c1, 'a') && eq_ci_exec(c2, 'p') {
        FileType::Gap
    } else if eq_ci_exec(c0, 'w') && eq_ci_exec(c1, 'a') && eq_ci_exec(c2, 'v') {
        FileType::Wav
    } else if eq_ci_exec(c0, 'j') && eq_ci_exec(c1, 's') && eq_ci_exec(c2, 'd') {
        FileType::Jsd
    } else {
        FileType::Unknown
    }
}

} // verus!
