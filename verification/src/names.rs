//! Archive filenames: recognized suffixes, base names, path components,
//! and fixed-width display names.

use vstd::prelude::*;
use vstd::string::*;

verus! {

/// True when `s` ends with the character sequence `suffix`.
pub open spec fn seq_ends_with(s: Seq<char>, suffix: Seq<char>) -> bool {
    s.len() >= suffix.len() && s.subrange(s.len() - suffix.len(), s.len() as int) == suffix
}

/// A filename is recognized when it carries one of the three archive suffixes.
pub open spec fn recognized_name(s: Seq<char>) -> bool {
    seq_ends_with(s, ".tar.xz"@) || seq_ends_with(s, ".tar.gz"@) || seq_ends_with(s, ".apg"@)
}

/// The suffix that a recognized filename matches, in the fixed priority order.
pub open spec fn matched_suffix(s: Seq<char>) -> Seq<char> {
    if seq_ends_with(s, ".tar.xz"@) {
        ".tar.xz"@
    } else if seq_ends_with(s, ".tar.gz"@) {
        ".tar.gz"@
    } else {
        ".apg"@
    }
}

/// The base (package) name of a recognized filename: the filename with the
/// matched suffix removed.
pub open spec fn base_of(s: Seq<char>) -> Seq<char>
    recommends
        recognized_name(s),
{
    s.subrange(0, s.len() - matched_suffix(s).len())
}

/// Whether `s` ends with `suffix`, character for character.
pub fn str_ends_with(s: &str, suffix: &str) -> (r: bool)
    ensures
        r == seq_ends_with(s@, suffix@),
{
    let n = s.unicode_len();
    let m = suffix.unicode_len();
    if m > n {
        return false;
    }
    let mut i: usize = 0;
    while i < m
        invariant
            i <= m <= n,
            n == s@.len(),
            m == suffix@.len(),
            forall|j: int| 0 <= j < i ==> s@[n - m + j] == suffix@[j],
        decreases m - i,
    {
        if s.get_char(n - m + i) != suffix.get_char(i) {
            assert(s@.subrange(n - m, n as int)[i as int] != suffix@[i as int]);
            return false;
        }
        i += 1;
    }
    proof {
        assert(s@.subrange(n - m, n as int) =~= suffix@);
    }
    true
}

/// Whether the filename carries one of the three recognized archive suffixes.
pub fn is_recognized_name(name: &str) -> (r: bool)
    ensures
        r == recognized_name(name@),
{
    str_ends_with(name, ".tar.xz") || str_ends_with(name, ".tar.gz") || str_ends_with(
        name,
        ".apg",
    )
}

/// The package name of an archive filename: `Some` of the filename with the
/// matched suffix stripped when the suffix is recognized, `None` otherwise.
pub fn base_name(name: &str) -> (r: Option<String>)
    ensures
        r is Some <==> recognized_name(name@),
        r is Some ==> r.unwrap()@ == base_of(name@),
{
    proof {
        reveal_strlit(".tar.xz");
        reveal_strlit(".tar.gz");
        reveal_strlit(".apg");
    }
    let n = name.unicode_len();
    if str_ends_with(name, ".tar.xz") {
        Some(String::from_str(name.substring_char(0, n - 7)))
    } else if str_ends_with(name, ".tar.gz") {
        Some(String::from_str(name.substring_char(0, n - 7)))
    } else if str_ends_with(name, ".apg") {
        Some(String::from_str(name.substring_char(0, n - 4)))
    } else {
        None
    }
}

/// The part of a path after its last `'/'`; the whole path when it has none.
pub open spec fn last_component_of(s: Seq<char>) -> Seq<char>
    decreases s.len(),
{
    if s.contains('/') {
        last_component_of(s.drop_first())
    } else {
        s
    }
}

/// A suffix of `s` that starts just after a `'/'` (or at the start) and has
/// no `'/'` of its own is the last component of `s`.
proof fn lemma_last_component_split(s: Seq<char>, k: int)
    requires
        0 <= k <= s.len(),
        k == 0 || s[k - 1] == '/',
        forall|j: int| k <= j < s.len() ==> s[j] != '/',
    ensures
        last_component_of(s) =~= s.subrange(k, s.len() as int),
    decreases s.len(),
{
    if k == 0 {
        if s.contains('/') {
            let w = choose|w: int| 0 <= w < s.len() && s[w] == '/';
            assert(false);
        }
    } else {
        assert(s.contains('/')) by {
            assert(s[k - 1] == '/');
        }
        lemma_last_component_split(s.drop_first(), k - 1);
        assert(s.drop_first().subrange(k - 1, s.drop_first().len() as int) =~= s.subrange(
            k,
            s.len() as int,
        ));
    }
}

/// The part of `path` after its last `'/'`; `path` itself when it has none.
pub fn last_component(path: &str) -> (r: String)
    ensures
        r@ == last_component_of(path@),
{
    let n = path.unicode_len();
    let mut start: usize = 0;
    let mut i: usize = 0;
    while i < n
        invariant
            start <= i <= n,
            n == path@.len(),
            start == 0 || path@[start - 1] == '/',
            forall|j: int| start <= j < i ==> path@[j] != '/',
        decreases n - i,
    {
        if path.get_char(i) == '/' {
            start = i + 1;
        }
        i += 1;
    }
    proof {
        lemma_last_component_split(path@, start as int);
    }
    String::from_str(path.substring_char(start, n))
}

/// The base name of a path does not depend on its directory components:
/// for a filename without `'/'`, prefixing any directory leaves the last
/// component, and with it the derived base name, unchanged.
pub proof fn lemma_base_name_ignores_directories(dir: Seq<char>, name: Seq<char>)
    requires
        !name.contains('/'),
    ensures
        last_component_of(dir + seq!['/'] + name) =~= name,
{
    let s = dir + seq!['/'] + name;
    assert forall|j: int| dir.len() + 1 <= j < s.len() implies s[j] != '/' by {
        assert(s[j] == name[j - (dir.len() + 1)]);
        if s[j] == '/' {
            assert(name.contains('/'));
        }
    }
    lemma_last_component_split(s, dir.len() + 1 as int);
    assert(s.subrange(dir.len() + 1 as int, s.len() as int) =~= name);
}

/// A display name of exactly `width` characters: a longer name is cut and
/// marked with `"..."`, a shorter one is padded on the right with spaces.
pub fn format_name(name: &str, max_len: usize) -> (r: String)
    requires
        3 <= max_len,
    ensures
        r@.len() == max_len,
        name@.len() > max_len ==> r@ == name@.subrange(0, max_len - 3) + "..."@,
        name@.len() <= max_len ==> r@ == name@ + Seq::new((max_len - name@.len()) as nat, |j: int| ' '),
{
    proof {
        reveal_strlit("...");
        reveal_strlit(" ");
    }
    let n = name.unicode_len();
    if n > max_len {
        let t = String::from_str(name.substring_char(0, max_len - 3));
        t.concat("...")
    } else {
        let mut t = String::from_str(name);
        let mut k: usize = n;
        while k < max_len
            invariant
                n <= k <= max_len,
                n == name@.len(),
                t@ =~= name@ + Seq::new((k - n) as nat, |j: int| ' '),
        decreases max_len - k,
        {
            proof {
                reveal_strlit(" ");
            }
            t.append(" ");
            proof {
                assert(t@ =~= name@ + Seq::new((k + 1 - n) as nat, |j: int| ' '));
            }
            k += 1;
        }
        proof {
            assert(t@ =~= name@ + Seq::new((max_len - name@.len()) as nat, |j: int| ' '));
        }
        t
    }
}

/// Stripping the matched suffix and putting it back yields the filename:
/// the base name is the filename with exactly that suffix removed.
pub proof fn lemma_base_name_strips(s: Seq<char>)
    requires
        recognized_name(s),
    ensures
        base_of(s) + matched_suffix(s) =~= s,
        base_of(s).len() + matched_suffix(s).len() == s.len(),
{
}

} // verus!
