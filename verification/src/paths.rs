//! Paths as text: components are separated by `/`.
//!
//! The layout of the dataset is fixed to the character, so a path is the row
//! of its characters and nothing is normalised: the last component is what
//! follows the last separator, and joining adds at most one separator.

use vstd::prelude::*;
use vstd::string::*;

verus! {

/// The separator between the components of a path.
pub const SEPARATOR: char = '/';

/// The position of the last `c` in `s`, or -1 where `s` holds none.
pub open spec fn last_index_of(s: Seq<char>, c: char) -> int
    decreases s.len(),
{
    if s.len() == 0 {
        -1
    } else if s.last() == c {
        s.len() - 1
    } else {
        last_index_of(s.drop_last(), c)
    }
}

/// `last_index_of` is the one position that holds `c` with no `c` behind it.
pub proof fn lemma_last_index_of(s: Seq<char>, c: char, k: int)
    requires
        -1 <= k < s.len(),
        k >= 0 ==> s[k] == c,
        forall|j: int| k < j < s.len() ==> s[j] != c,
    ensures
        last_index_of(s, c) == k,
    decreases s.len(),
{
    if s.len() > 0 && s.last() != c {
        lemma_last_index_of(s.drop_last(), c, k);
    }
}

/// What `last_index_of` returns lies in the sequence and holds `c` there.
pub proof fn lemma_last_index_found(s: Seq<char>, c: char)
    ensures
        -1 <= last_index_of(s, c) < s.len(),
        last_index_of(s, c) >= 0 ==> s[last_index_of(s, c)] == c,
        forall|j: int| last_index_of(s, c) < j < s.len() ==> s[j] != c,
    decreases s.len(),
{
    if s.len() > 0 && s.last() != c {
        let t = s.drop_last();
        lemma_last_index_found(t, c);
        assert forall|j: int| last_index_of(s, c) < j < s.len() implies s[j] != c by {
            if j < t.len() {
                assert(t[j] == s[j]);
            }
        }
    }
}

/// Finds the last `c` in `s`.
pub fn find_last(s: &str, c: char) -> (r: Option<usize>)
    ensures
        match r {
            Some(k) => last_index_of(s@, c) == k as int && k < s@.len(),
            None => last_index_of(s@, c) == -1,
        },
{
    let n: usize = s.unicode_len();
    let mut i: usize = n;
    while i > 0
        invariant
            i <= n,
            n == s@.len(),
            forall|j: int| i <= j < n ==> s@[j] != c,
        decreases i,
    {
        if s.get_char(i - 1) == c {
            proof {
                lemma_last_index_of(s@, c, i - 1);
            }
            return Some(i - 1);
        }
        i -= 1;
    }
    proof {
        lemma_last_index_of(s@, c, -1);
    }
    None
}

/// Where the last component of `p` starts: behind the last separator.
pub open spec fn name_start(p: Seq<char>) -> int {
    last_index_of(p, SEPARATOR) + 1
}

/// The last component of `p`: what follows the last separator, or all of `p`.
pub open spec fn file_name(p: Seq<char>) -> Seq<char> {
    p.subrange(name_start(p), p.len() as int)
}

/// The position in the file name of the dot that starts the extension, or a
/// number below 1 where the name has no extension: a name without a dot, or
/// whose only dot comes first.
pub open spec fn extension_dot(p: Seq<char>) -> int {
    last_index_of(file_name(p), '.')
}

/// The extension of the file name, without its dot; empty where there is none.
pub open spec fn extension(p: Seq<char>) -> Seq<char> {
    if extension_dot(p) > 0 {
        file_name(p).subrange(extension_dot(p) + 1, file_name(p).len() as int)
    } else {
        Seq::empty()
    }
}

/// `c` with an ASCII capital replaced by its small letter.
pub open spec fn ascii_lower(c: char) -> char {
    if 'A' <= c && c <= 'Z' {
        ((c as int) + 32) as char
    } else {
        c
    }
}

/// `s` with every ASCII capital replaced by its small letter.
pub open spec fn lowered(s: Seq<char>) -> Seq<char> {
    Seq::new(s.len(), |i: int| ascii_lower(s[i]))
}

/// Whether `e`, compared without regard to case, is an extension of an image.
pub open spec fn is_image_extension(e: Seq<char>) -> bool {
    ||| lowered(e) =~= seq!['j', 'p', 'g']
    ||| lowered(e) =~= seq!['j', 'p', 'e', 'g']
    ||| lowered(e) =~= seq!['p', 'n', 'g']
    ||| lowered(e) =~= seq!['w', 'e', 'b', 'p']
}

/// Whether the path names an image, going by its extension.
pub open spec fn is_image_path(p: Seq<char>) -> bool {
    is_image_extension(extension(p))
}

/// `dir` with `name` as a further component. A separator is put between them
/// unless `dir` is empty or ends in one; a `name` that starts at the root
/// stands alone.
pub open spec fn joined(dir: Seq<char>, name: Seq<char>) -> Seq<char> {
    if name.len() > 0 && name[0] == SEPARATOR {
        name
    } else if dir.len() > 0 && dir.last() != SEPARATOR {
        dir.push(SEPARATOR) + name
    } else {
        dir + name
    }
}

/// The path of the caption that belongs to the image at `p`: the extension of
/// the file name replaced by `txt`, or `.txt` added where it has none.
pub open spec fn caption_path(p: Seq<char>) -> Seq<char> {
    if extension_dot(p) > 0 {
        p.subrange(0, name_start(p) + extension_dot(p)) + seq!['.', 't', 'x', 't']
    } else {
        p + seq!['.', 't', 'x', 't']
    }
}

/// The last component of a path holds no separator.
pub proof fn lemma_file_name_has_no_separator(p: Seq<char>)
    ensures
        forall|i: int| 0 <= i < file_name(p).len() ==> (#[trigger] file_name(p)[i]) != SEPARATOR,
{
    lemma_last_index_found(p, SEPARATOR);
}

/// Joining a directory and the last component of a path gives a path with
/// that same last component: a file keeps its name wherever it is put.
pub proof fn lemma_join_keeps_file_name(dir: Seq<char>, p: Seq<char>)
    ensures
        file_name(joined(dir, file_name(p))) == file_name(p),
{
    let name = file_name(p);
    let whole = joined(dir, name);
    lemma_file_name_has_no_separator(p);
    if dir.len() > 0 && dir.last() != SEPARATOR {
        lemma_last_index_of(whole, SEPARATOR, dir.len() as int);
    } else if dir.len() > 0 {
        lemma_last_index_of(whole, SEPARATOR, dir.len() - 1);
    } else {
        lemma_last_index_of(whole, SEPARATOR, -1);
    }
    assert(file_name(whole) =~= name);
}

fn is_letter(c: char, lower: char, upper: char) -> (r: bool)
    requires
        'a' <= lower <= 'z',
        upper as int + 32 == lower as int,
    ensures
        r == (ascii_lower(c) == lower),
{
    c == lower || c == upper
}

fn name_start_of(p: &str) -> (r: usize)
    ensures
        r as int == name_start(p@),
        r <= p@.len(),
{
    let n: usize = p.unicode_len();
    match find_last(p, SEPARATOR) {
        Some(k) => k + 1,
        None => 0,
    }
}

/// The last component of the path.
pub fn file_name_of(p: &str) -> (r: String)
    ensures
        r@ == file_name(p@),
{
    let start: usize = name_start_of(p);
    p.substring_char(start, p.unicode_len()).to_owned()
}

/// Whether the path names an image: its extension is one of `jpg`, `jpeg`,
/// `png` and `webp`, in small or capital letters.
pub fn is_image(p: &str) -> (r: bool)
    ensures
        r == is_image_path(p@),
{
    let start: usize = name_start_of(p);
    let name = p.substring_char(start, p.unicode_len());
    let len: usize = name.unicode_len();
    match find_last(name, '.') {
        Some(dot) => {
            if dot == 0 {
                return false;
            }
            let e = name.substring_char(dot + 1, len);
            let n: usize = e.unicode_len();
            assert(e@ == extension(p@));
            assert(lowered(e@).len() == n);
            if n == 3 {
                let c0 = e.get_char(0);
                let c1 = e.get_char(1);
                let c2 = e.get_char(2);
                assert(lowered(e@)[0] == ascii_lower(c0));
                assert(lowered(e@)[1] == ascii_lower(c1));
                assert(lowered(e@)[2] == ascii_lower(c2));
                let jpg = is_letter(c0, 'j', 'J') && is_letter(c1, 'p', 'P') && is_letter(
                    c2,
                    'g',
                    'G',
                );
                let png = is_letter(c0, 'p', 'P') && is_letter(c1, 'n', 'N') && is_letter(
                    c2,
                    'g',
                    'G',
                );
                jpg || png
            } else if n == 4 {
                let c0 = e.get_char(0);
                let c1 = e.get_char(1);
                let c2 = e.get_char(2);
                let c3 = e.get_char(3);
                assert(lowered(e@)[0] == ascii_lower(c0));
                assert(lowered(e@)[1] == ascii_lower(c1));
                assert(lowered(e@)[2] == ascii_lower(c2));
                assert(lowered(e@)[3] == ascii_lower(c3));
                let jpeg = is_letter(c0, 'j', 'J') && is_letter(c1, 'p', 'P') && is_letter(
                    c2,
                    'e',
                    'E',
                ) && is_letter(c3, 'g', 'G');
                let webp = is_letter(c0, 'w', 'W') && is_letter(c1, 'e', 'E') && is_letter(
                    c2,
                    'b',
                    'B',
                ) && is_letter(c3, 'p', 'P');
                jpeg || webp
            } else {
                false
            }
        },
        None => {
            assert(lowered(Seq::<char>::empty()).len() == 0);
            false
        },
    }
}

/// Joins a directory and a further component.
pub fn join(dir: &str, name: &str) -> (r: String)
    ensures
        r@ == joined(dir@, name@),
{
    if name.unicode_len() > 0 && name.get_char(0) == SEPARATOR {
        return name.to_owned();
    }
    let mut r = dir.to_owned();
    let n: usize = dir.unicode_len();
    if n > 0 && dir.get_char(n - 1) != SEPARATOR {
        r.push(SEPARATOR);
    }
    r.push_str(name);
    r
}

/// The path of the caption file of an image.
pub fn caption_path_of(p: &str) -> (r: String)
    ensures
        r@ == caption_path(p@),
{
    let start: usize = name_start_of(p);
    let len: usize = p.unicode_len();
    let name = p.substring_char(start, len);
    let mut r = match find_last(name, '.') {
        Some(dot) => {
            if dot > 0 {
                p.substring_char(0, start + dot).to_owned()
            } else {
                p.to_owned()
            }
        },
        None => p.to_owned(),
    };
    r.push('.');
    r.push('t');
    r.push('x');
    r.push('t');
    proof {
        let base = if extension_dot(p@) > 0 {
            p@.subrange(0, name_start(p@) + extension_dot(p@))
        } else {
            p@
        };
        assert(r@ =~= base + seq!['.', 't', 'x', 't']);
    }
    r
}

} // verus!
