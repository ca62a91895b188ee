//! Whitespace trimming, as `str::trim` does it.

use vstd::prelude::*;

verus! {

/// The Unicode `White_Space` code points, the table behind `char::is_whitespace`.
pub open spec fn is_ws_char(c: char) -> bool {
    let u = c as u32;
    u == 0x09 || u == 0x0A || u == 0x0B || u == 0x0C || u == 0x0D || u == 0x20 || u == 0x85
        || u == 0xA0 || u == 0x1680 || (0x2000 <= u && u <= 0x200A) || u == 0x2028 || u == 0x2029
        || u == 0x202F || u == 0x205F || u == 0x3000
}

/// Every character of `s` is whitespace (vacuously true of the empty sequence).
pub open spec fn all_ws(s: Seq<char>) -> bool {
    forall|k: int| 0 <= k < s.len() ==> is_ws_char(s[k])
}

/// Whether `c` is whitespace, by the same table as `char::is_whitespace`.
pub fn is_whitespace_char(c: char) -> (r: bool)
    ensures
        r == is_ws_char(c),
{
    let u = c as u32;
    u == 0x09 || u == 0x0A || u == 0x0B || u == 0x0C || u == 0x0D || u == 0x20 || u == 0x85
        || u == 0xA0 || u == 0x1680 || (0x2000 <= u && u <= 0x200A) || u == 0x2028 || u == 0x2029
        || u == 0x202F || u == 0x205F || u == 0x3000
}

/// `s` with its leading whitespace removed.
pub open spec fn trim_start_spec(s: Seq<char>) -> Seq<char>
    decreases s.len(),
{
    if s.len() == 0 {
        s
    } else if is_ws_char(s[0]) {
        trim_start_spec(s.subrange(1, s.len() as int))
    } else {
        s
    }
}

/// `s` with its trailing whitespace removed.
pub open spec fn trim_end_spec(s: Seq<char>) -> Seq<char>
    decreases s.len(),
{
    if s.len() == 0 {
        s
    } else if is_ws_char(s[s.len() - 1]) {
        trim_end_spec(s.subrange(0, s.len() - 1))
    } else {
        s
    }
}

/// `s` with leading and trailing whitespace removed: what `str::trim` returns.
pub open spec fn trim_spec(s: Seq<char>) -> Seq<char> {
    trim_end_spec(trim_start_spec(s))
}

/// When the first `i` characters are whitespace and the character at `i` (if
/// any) is not, trimming the start drops exactly those `i` characters.
proof fn lemma_trim_start_skip(s: Seq<char>, i: int)
    requires
        0 <= i <= s.len(),
        forall|k: int| 0 <= k < i ==> is_ws_char(s[k]),
        i == s.len() || !is_ws_char(s[i]),
    ensures
        trim_start_spec(s) == s.subrange(i, s.len() as int),
    decreases i,
{
    if i == 0 {
        assert(s.subrange(0, s.len() as int) =~= s);
    } else {
        let t = s.subrange(1, s.len() as int);
        lemma_trim_start_skip(t, i - 1);
        assert(t.subrange(i - 1, t.len() as int) =~= s.subrange(i, s.len() as int));
    }
}

/// When the characters from `j` on are whitespace and the character at `j - 1`
/// (if any) is not, trimming the end keeps exactly the first `j` characters.
proof fn lemma_trim_end_skip(s: Seq<char>, j: int)
    requires
        0 <= j <= s.len(),
        forall|k: int| j <= k < s.len() ==> is_ws_char(s[k]),
        j == 0 || !is_ws_char(s[j - 1]),
    ensures
        trim_end_spec(s) == s.subrange(0, j),
    decreases s.len() - j,
{
    if j == s.len() {
        assert(s.subrange(0, s.len() as int) =~= s);
    } else {
        let t = s.subrange(0, s.len() - 1);
        lemma_trim_end_skip(t, j);
        assert(t.subrange(0, j) =~= s.subrange(0, j));
    }
}

/// Trimming the start of a sequence that holds a non-whitespace character
/// leaves a sequence that starts with a non-whitespace character.
proof fn lemma_trim_start_keeps_non_ws(s: Seq<char>)
    requires
        !all_ws(s),
    ensures
        trim_start_spec(s).len() > 0,
        !is_ws_char(trim_start_spec(s)[0]),
    decreases s.len(),
{
    let k = choose|k: int| 0 <= k < s.len() && !is_ws_char(s[k]);
    if is_ws_char(s[0]) {
        let t = s.subrange(1, s.len() as int);
        assert(!is_ws_char(t[k - 1]));
        lemma_trim_start_keeps_non_ws(t);
    }
}

/// Trimming the end cannot remove a non-whitespace first character.
proof fn lemma_trim_end_keeps_head(s: Seq<char>)
    requires
        s.len() > 0,
        !is_ws_char(s[0]),
    ensures
        trim_end_spec(s).len() > 0,
    decreases s.len(),
{
    if is_ws_char(s[s.len() - 1]) {
        let t = s.subrange(0, s.len() - 1);
        lemma_trim_end_keeps_head(t);
    }
}

/// Trimming yields the empty sequence exactly when every character of `s` is
/// whitespace — in particular when `s` is empty. This is the condition under
/// which a redirect URL counts as absent.
pub proof fn lemma_trim_empty_iff_all_ws(s: Seq<char>)
    ensures
        trim_spec(s).len() == 0 <==> all_ws(s),
{
    if all_ws(s) {
        lemma_trim_start_skip(s, s.len() as int);
    } else {
        lemma_trim_start_keeps_non_ws(s);
        lemma_trim_end_keeps_head(trim_start_spec(s));
    }
}

/// `s` trimmed, computed as `str::trim` computes it.
pub fn trim(s: &str) -> (r: String)
    ensures
        r@ == trim_spec(s@),
{
    let n = s.unicode_len();
    let mut i: usize = 0;
    while i < n && is_whitespace_char(s.get_char(i))
        invariant
            0 <= i <= n == s@.len(),
            forall|k: int| 0 <= k < i ==> is_ws_char(s@[k]),
        decreases n - i,
    {
        i = i + 1;
    }
    let mut j: usize = n;
    while j > i && is_whitespace_char(s.get_char(j - 1))
        invariant
            i <= j <= n == s@.len(),
            forall|k: int| j <= k < n ==> is_ws_char(s@[k]),
        decreases j,
    {
        j = j - 1;
    }
    proof {
        lemma_trim_start_skip(s@, i as int);
        let t = s@.subrange(i as int, s@.len() as int);
        lemma_trim_end_skip(t, j - i);
        assert(t.subrange(0, j - i) =~= s@.subrange(i as int, j as int));
    }
    let r = s.substring_char(i, j);
    String::from_str(r)
}

} // verus!
