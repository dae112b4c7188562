use vstd::prelude::*;

use crate::text::find_char;
use crate::text::str_ends_with;
use crate::text::str_starts_with;

verus! {

/// Characters allowed in a repository owner name.
pub open spec fn spec_owner_char(c: char) -> bool {
    let u = c as u32;
    (65 <= u <= 90) || (97 <= u <= 122) || (48 <= u <= 57) || u == 45
}

/// Characters allowed in a repository name: the owner characters plus `_`.
pub open spec fn spec_repo_char(c: char) -> bool {
    spec_owner_char(c) || c as u32 == 95
}

/// A split of `s` at position `k` into a non-empty owner name, one slash, and
/// a non-empty repository name.
pub open spec fn spec_shorthand_split(s: Seq<char>, k: int) -> bool {
    &&& 0 < k
    &&& k + 1 < s.len()
    &&& s[k] == '/'
    &&& forall|i: int| 0 <= i < k ==> spec_owner_char(#[trigger] s[i])
    &&& forall|i: int| k < i < s.len() ==> spec_repo_char(#[trigger] s[i])
}

/// The shorthand form `<owner>/<repo>`, consuming the whole string.
pub open spec fn spec_is_shorthand(s: Seq<char>) -> bool {
    exists|k: int| spec_shorthand_split(s, k)
}

/// The SSH clone form `git@github.com:<owner>/<repo>.git`, consuming the
/// whole string.
pub open spec fn spec_is_ssh_url(s: Seq<char>) -> bool {
    &&& s.len() >= 19
    &&& s.subrange(0, 15) == "git@github.com:"@
    &&& s.subrange(s.len() - 4, s.len() as int) == ".git"@
    &&& spec_is_shorthand(s.subrange(15, s.len() - 4))
}

/// The HTTPS clone form `https://github.com/<owner>/<repo>.git`, consuming
/// the whole string.
pub open spec fn spec_is_https_url(s: Seq<char>) -> bool {
    &&& s.len() >= 23
    &&& s.subrange(0, 19) == "https://github.com/"@
    &&& s.subrange(s.len() - 4, s.len() as int) == ".git"@
    &&& spec_is_shorthand(s.subrange(19, s.len() - 4))
}

/// A full repository clone URL: the SSH form or the HTTPS form.
pub open spec fn spec_is_repo_url(s: Seq<char>) -> bool {
    spec_is_ssh_url(s) || spec_is_https_url(s)
}

fn owner_char(c: char) -> (r: bool)
    ensures
        r == spec_owner_char(c),
{
    let u = c as u32;
    (65 <= u && u <= 90) || (97 <= u && u <= 122) || (48 <= u && u <= 57) || u == 45
}

fn repo_char(c: char) -> (r: bool)
    ensures
        r == spec_repo_char(c),
{
    owner_char(c) || c as u32 == 95
}

/// Whether `s` is exactly `<owner>/<repo>`: a valid split can only sit at the
/// first slash, so one scan decides the whole string.
pub fn is_shorthand(s: &str) -> (r: bool)
    ensures
        r == spec_is_shorthand(s@),
{
    let s_len = s.unicode_len();
    let slash = match find_char(s, '/') {
        Some(k) => k,
        None => {
            proof {
                assert forall|k: int| !spec_shorthand_split(s@, k) by {
                    if 0 < k < s@.len() {
                        assert(s@[k] != '/');
                    }
                }
            }
            return false;
        },
    };
    if slash == 0 || slash + 1 >= s_len {
        proof {
            assert forall|k: int| !spec_shorthand_split(s@, k) by {
                if spec_shorthand_split(s@, k) {
                    if k < slash {
                        assert(s@[k] == '/');
                    } else if k > slash {
                        assert(spec_owner_char(s@[slash as int]));
                    }
                }
            }
        }
        return false;
    }
    let mut i: usize = 0;
    while i < slash
        invariant
            i <= slash,
            slash < s@.len(),
            s_len == s@.len(),
            s@[slash as int] == '/',
            forall|j: int| 0 <= j < i ==> spec_owner_char(#[trigger] s@[j]),
        decreases slash - i,
    {
        if !owner_char(s.get_char(i)) {
            proof {
                assert forall|k: int| !spec_shorthand_split(s@, k) by {
                    if spec_shorthand_split(s@, k) {
                        if k <= i {
                            assert(s@[slash as int] == '/' && slash > k);
                            assert(spec_repo_char(s@[slash as int]));
                        } else {
                            assert(spec_owner_char(s@[i as int]));
                        }
                    }
                }
            }
            return false;
        }
        i = i + 1;
    }
    let mut j: usize = slash + 1;
    while j < s_len
        invariant
            slash < j <= s_len,
            s_len == s@.len(),
            s@[slash as int] == '/',
            forall|t: int| 0 <= t < slash ==> spec_owner_char(#[trigger] s@[t]),
            forall|t: int| slash < t < j ==> spec_repo_char(#[trigger] s@[t]),
        decreases s_len - j,
    {
        if !repo_char(s.get_char(j)) {
            proof {
                assert forall|k: int| !spec_shorthand_split(s@, k) by {
                    if spec_shorthand_split(s@, k) {
                        if k == slash {
                            assert(spec_repo_char(s@[j as int]));
                        } else if k < slash {
                            assert(spec_owner_char(s@[slash as int]));
                        } else {
                            assert(spec_repo_char(s@[slash as int]));
                        }
                    }
                }
            }
            return false;
        }
        j = j + 1;
    }
    proof {
        assert(spec_shorthand_split(s@, slash as int));
    }
    true
}

/// Whether `s` is exactly the SSH clone form.
pub fn is_ssh_url(s: &str) -> (r: bool)
    ensures
        r == spec_is_ssh_url(s@),
{
    proof {
        reveal_strlit("git@github.com:");
        reveal_strlit(".git");
    }
    let s_len = s.unicode_len();
    if s_len < 19 {
        return false;
    }
    if !str_starts_with(s, "git@github.com:") {
        return false;
    }
    if !str_ends_with(s, ".git") {
        return false;
    }
    let middle = s.substring_char(15, s_len - 4);
    is_shorthand(middle)
}

/// Whether `s` is exactly the HTTPS clone form.
pub fn is_https_url(s: &str) -> (r: bool)
    ensures
        r == spec_is_https_url(s@),
{
    proof {
        reveal_strlit("https://github.com/");
        reveal_strlit(".git");
    }
    let s_len = s.unicode_len();
    if s_len < 23 {
        return false;
    }
    if !str_starts_with(s, "https://github.com/") {
        return false;
    }
    if !str_ends_with(s, ".git") {
        return false;
    }
    let middle = s.substring_char(19, s_len - 4);
    is_shorthand(middle)
}

/// Whether `s` is exactly a full repository clone URL, SSH or HTTPS.
pub fn is_valid_repo_url(s: &str) -> (r: bool)
    ensures
        r == spec_is_repo_url(s@),
{
    is_ssh_url(s) || is_https_url(s)
}

/// A shorthand string is never a full clone URL: the URL forms hold
/// characters (`@` at position 3, `:` at position 5) that the shorthand's
/// character classes exclude.
pub proof fn lemma_shorthand_not_url(s: Seq<char>)
    requires
        spec_is_shorthand(s),
    ensures
        !spec_is_repo_url(s),
{
    let k = choose|k: int| spec_shorthand_split(s, k);
    if spec_is_ssh_url(s) {
        proof_strlit_facts();
        assert(s[3] == s.subrange(0, 15)[3]);
        assert(s[3] == '@');
        assert(spec_owner_char('@') == false);
        assert(spec_repo_char('@') == false);
        assert('@' != '/');
        if 3 < k {
            assert(spec_owner_char(s[3]));
        } else if 3 > k {
            assert(spec_repo_char(s[3]));
        }
    }
    if spec_is_https_url(s) {
        proof_strlit_facts();
        assert(s[5] == s.subrange(0, 19)[5]);
        assert(s[5] == ':');
        assert(spec_owner_char(':') == false);
        assert(spec_repo_char(':') == false);
        assert(':' != '/');
        if 5 < k {
            assert(spec_owner_char(s[5]));
        } else if 5 > k {
            assert(spec_repo_char(s[5]));
        }
    }
}

/// Reveals the three literals of the URL grammar.
proof fn proof_strlit_facts()
    ensures
        "git@github.com:"@.len() == 15,
        "git@github.com:"@[3] == '@',
        "git@github.com:"@[0] == 'g',
        "https://github.com/"@.len() == 19,
        "https://github.com/"@[5] == ':',
        "https://github.com/"@[0] == 'h',
        ".git"@.len() == 4,
        ".git"@[0] == '.',
{
    reveal_strlit("git@github.com:");
    reveal_strlit("https://github.com/");
    reveal_strlit(".git");
}

/// A middle section that holds a `.` is no shorthand.
proof fn lemma_dot_breaks_shorthand(m: Seq<char>, p: int)
    requires
        0 <= p < m.len(),
        m[p] == '.',
    ensures
        !spec_is_shorthand(m),
{
    assert(spec_owner_char('.') == false);
    assert(spec_repo_char('.') == false);
    assert('.' != '/');
    if spec_is_shorthand(m) {
        let k = choose|k: int| spec_shorthand_split(m, k);
        if p < k {
            assert(spec_owner_char(m[p]));
        } else if p > k {
            assert(spec_repo_char(m[p]));
        }
    }
}

/// A full clone URL consumes the whole string: after anything is appended,
/// the result is no clone URL any more. The `.` of the original `.git`
/// suffix lands inside the longer string's owner/repo section, which its
/// character classes refuse.
pub proof fn lemma_url_match_is_exact(s: Seq<char>, t: Seq<char>)
    requires
        spec_is_repo_url(s),
        t.len() > 0,
    ensures
        !spec_is_repo_url(s + t),
{
    proof_strlit_facts();
    let u = s + t;
    assert(s[0] == u[0]);
    if spec_is_ssh_url(s) {
        assert(s[0] == s.subrange(0, 15)[0]);
        assert(u[0] == 'g');
        if spec_is_https_url(u) {
            assert(u[0] == u.subrange(0, 19)[0]);
        }
        assert(!spec_is_https_url(u));
        assert(s[s.len() - 4] == s.subrange(s.len() - 4, s.len() as int)[0]);
        assert(s[s.len() - 4] == '.');
        if spec_is_ssh_url(u) {
            let m = u.subrange(15, u.len() - 4);
            let p = s.len() - 4 - 15;
            assert(m[p] == u[s.len() - 4]);
            assert(u[s.len() - 4] == s[s.len() - 4]);
            lemma_dot_breaks_shorthand(m, p);
        }
    } else {
        assert(s[0] == s.subrange(0, 19)[0]);
        assert(u[0] == 'h');
        if spec_is_ssh_url(u) {
            assert(u[0] == u.subrange(0, 15)[0]);
        }
        assert(!spec_is_ssh_url(u));
        assert(s[s.len() - 4] == s.subrange(s.len() - 4, s.len() as int)[0]);
        assert(s[s.len() - 4] == '.');
        if spec_is_https_url(u) {
            let m = u.subrange(19, u.len() - 4);
            let p = s.len() - 4 - 19;
            assert(m[p] == u[s.len() - 4]);
            assert(u[s.len() - 4] == s[s.len() - 4]);
            lemma_dot_breaks_shorthand(m, p);
        }
    }
}

} // verus!
