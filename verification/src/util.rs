use vstd::prelude::*;

use crate::error::MageError;
use crate::error::spec_message;
use crate::text::str_eq;
use crate::text::str_starts_with;

verus! {

/// A raw path with a leading `~` token replaced by the home directory;
/// any other path is kept as it is.
pub open spec fn spec_resolved(raw: Seq<char>, home: Seq<char>) -> Seq<char> {
    if raw == "~"@ {
        home
    } else if raw.len() >= 2 && raw[0] == '~' && raw[1] == '/' {
        home + raw.subrange(1, raw.len() as int)
    } else {
        raw
    }
}

/// Expands the home-directory shorthand at the front of `raw`, keeping the
/// remaining segments in order. `home` is the injected home directory.
pub fn resolve_path(raw: &str, home: &str) -> (r: String)
    ensures
        r@ == spec_resolved(raw@, home@),
{
    proof {
        reveal_strlit("~");
        reveal_strlit("~/");
    }
    if str_eq(raw, "~") {
        return String::from_str(home);
    }
    if str_starts_with(raw, "~/") {
        proof {
            let p = raw@.subrange(0, 2);
            assert(p[0] == raw@[0] && p[1] == raw@[1]);
            assert(raw@[0] == '~' && raw@[1] == '/');
        }
        let raw_len = raw.unicode_len();
        let rest = raw.substring_char(1, raw_len);
        return String::from_str(home).concat(rest);
    }
    proof {
        assert(!(raw@.len() >= 2 && raw@[0] == '~' && raw@[1] == '/')) by {
            if raw@.len() >= 2 && raw@[0] == '~' && raw@[1] == '/' {
                assert("~/"@.is_prefix_of(raw@)) by {
                    assert(raw@.subrange(0, 2) =~= "~/"@);
                }
            }
        }
    }
    String::from_str(raw)
}

/// A path whose home-directory shorthand has already been expanded.
#[derive(Debug, Clone, PartialEq, Eq)]
pub struct FullPath {
    path: String,
}

impl View for FullPath {
    type V = Seq<char>;

    closed spec fn view(&self) -> Seq<char> {
        self.path@
    }
}

/// `name` appended to the directory `base`, with one separator between them;
/// an absolute `name` replaces `base`.
pub open spec fn spec_joined(base: Seq<char>, name: Seq<char>) -> Seq<char> {
    if name.len() > 0 && name[0] == '/' {
        name
    } else if base.len() > 0 && base[base.len() - 1] == '/' {
        base + name
    } else {
        base + "/"@ + name
    }
}

impl FullPath {
    /// Builds a path from a raw string, expanding the home shorthand.
    pub fn from_raw(raw: &str, home: &str) -> (r: FullPath)
        ensures
            r@ == spec_resolved(raw@, home@),
    {
        FullPath { path: resolve_path(raw, home) }
    }

    /// Wraps a string that is already fully expanded.
    pub fn from_resolved(path: String) -> (r: FullPath)
        ensures
            r@ == path@,
    {
        FullPath { path }
    }

    /// Consumes the path, returning the inner string.
    pub fn path(self) -> (r: String)
        ensures
            r@ == self@,
    {
        self.path
    }

    pub fn to_str(&self) -> (r: &str)
        ensures
            r@ == self@,
    {
        self.path.as_str()
    }

    /// The path of `name` inside the directory `self`.
    pub fn join(&self, name: &str) -> (r: FullPath)
        ensures
            r@ == spec_joined(self@, name@),
    {
        proof {
            reveal_strlit("/");
        }
        let name_len = name.unicode_len();
        if name_len > 0 && name.get_char(0) == '/' {
            return FullPath { path: String::from_str(name) };
        }
        let base_len = self.path.as_str().unicode_len();
        if base_len > 0 && self.path.as_str().get_char(base_len - 1) == '/' {
            return FullPath { path: self.path.clone().concat(name) };
        }
        FullPath { path: self.path.clone().concat("/").concat(name) }
    }
}

/// The portion of a file name before its final `.`: the whole name when it
/// holds no `.`, or when its only `.` is the leading one of a hidden file.
pub open spec fn spec_file_stem(s: Seq<char>) -> Seq<char> {
    let d = crate::text::spec_last_index_of(s, '.');
    if d <= 0 {
        s
    } else {
        s.subrange(0, d)
    }
}

/// The stem of a file name: what stands before its final `.`.
pub fn file_stem(name: &str) -> (r: String)
    ensures
        r@ == spec_file_stem(name@),
{
    match crate::text::find_last_char(name, '.') {
        Option::Some(d) => {
            proof {
                crate::text::lemma_last_index_some(name@, '.', d as int);
            }
            if d > 0 {
                String::from_str(name.substring_char(0, d))
            } else {
                String::from_str(name)
            }
        },
        Option::None => {
            proof {
                crate::text::lemma_last_index_none(name@, '.');
            }
            String::from_str(name)
        },
    }
}

/// The failure lines of a batch: the message of each failed result, each
/// followed by a line break, in order.
pub open spec fn spec_error_lines(rs: Seq<Result<(), MageError>>) -> Seq<char>
    decreases rs.len(),
{
    if rs.len() == 0 {
        Seq::<char>::empty()
    } else {
        spec_error_lines(rs.drop_last()) + match rs.last() {
            Result::Err(e) => spec_message(e) + "\n"@,
            Result::Ok(u) => Seq::<char>::empty(),
        }
    }
}

/// Joins the messages of the failed results, one per line; `None` when every
/// result succeeded. Per-entry failures never abort a batch: the caller only
/// reports this summary.
pub fn summarize(results: &Vec<Result<(), MageError>>) -> (r: Option<String>)
    ensures
        r is None <==> spec_error_lines(results@).len() == 0,
        r matches Some(m) ==> m@ == spec_error_lines(results@),
{
    let mut msg = String::new();
    let mut i: usize = 0;
    while i < results.len()
        invariant
            i <= results@.len(),
            msg@ == spec_error_lines(results@.take(i as int)),
        decreases results@.len() - i,
    {
        proof {
            assert(results@.take(i + 1).drop_last() =~= results@.take(i as int));
            assert(results@.take(i + 1).last() == results@[i as int]);
        }
        match &results[i] {
            Result::Err(e) => {
                msg.append(e.message().as_str());
                msg.append("\n");
            },
            Result::Ok(u) => {
                proof {
                    assert(msg@ + Seq::<char>::empty() =~= msg@);
                }
            },
        }
        i = i + 1;
    }
    proof {
        assert(results@.take(results@.len() as int) =~= results@);
    }
    if msg.as_str().unicode_len() == 0 {
        None
    } else {
        Some(msg)
    }
}

} // verus!
