//! Choosing the files to index for the code context store, and deciding
//! per file whether it is indexed again.

use vstd::prelude::*;
use vstd::string::*;
use crate::text::{decimal_chars, decimal_string, ends_with_char};
use sha2::Digest;

verus! {

#[verifier::external_type_specification]
#[verifier::external_body]
pub struct ExGlobPattern(glob::Pattern);

/// A line without the carriage return that ended it.
pub open spec fn strip_cr(l: Seq<char>) -> Seq<char> {
    if l.len() > 0 && l.last() == '\r' {
        l.drop_last()
    } else {
        l
    }
}

/// Reading the first `n` characters of `s`: the non-empty lines finished
/// so far, and the line being read.
pub open spec fn scan_lines(s: Seq<char>, n: int) -> (Seq<Seq<char>>, Seq<char>)
    decreases n,
{
    if n <= 0 {
        (Seq::empty(), Seq::empty())
    } else {
        let (done, cur) = scan_lines(s, n - 1);
        if s[n - 1] == '\n' {
            (if strip_cr(cur).len() > 0 {
                done.push(strip_cr(cur))
            } else {
                done
            }, Seq::empty())
        } else {
            (done, cur.push(s[n - 1]))
        }
    }
}

/// The non-empty lines of `s` (`s.lines().filter(|l| !l.is_empty())`): a
/// line ends at `\n`, with a `\r` before it dropped; the last line needs no
/// `\n`.
pub open spec fn nonempty_lines(s: Seq<char>) -> Seq<Seq<char>> {
    let (done, cur) = scan_lines(s, s.len() as int);
    if cur.len() > 0 {
        done.push(cur)
    } else {
        done
    }
}

/// The texts of a list of strings.
pub open spec fn texts(v: Seq<String>) -> Seq<Seq<char>> {
    v.map_values(|s: String| s@)
}

fn without_cr(line: &str) -> (r: &str)
    ensures
        r@ == strip_cr(line@),
{
    if ends_with_char(line, '\r') {
        line.substring_char(0, line.unicode_len() - 1)
    } else {
        line
    }
}

/// The paths `git ls-files` printed: its non-empty output lines.
pub fn listed_paths(stdout: &str) -> (r: Vec<String>)
    ensures
        texts(r@) == nonempty_lines(stdout@),
{
    let n = stdout.unicode_len();
    let mut done: Vec<String> = Vec::new();
    let mut start: usize = 0;
    let mut i: usize = 0;
    while i < n
        invariant
            n == stdout@.len(),
            start <= i <= n,
            scan_lines(stdout@, i as int) == (texts(done@), stdout@.subrange(start as int, i as int)),
        decreases n - i,
    {
        let c = stdout.get_char(i);
        let ghost cur = stdout@.subrange(start as int, i as int);
        if c == '\n' {
            let line = without_cr(stdout.substring_char(start, i));
            if line.unicode_len() > 0 {
                let ghost before = done@;
                done.push(String::from_str(line));
                proof {
                    assert(texts(done@) =~= texts(before).push(strip_cr(cur)));
                }
            }
            start = i + 1;
            proof {
                assert(stdout@.subrange(start as int, i + 1) =~= Seq::<char>::empty());
            }
        } else {
            proof {
                assert(stdout@.subrange(start as int, i + 1) =~= cur.push(c));
            }
        }
        i = i + 1;
    }
    if start < n {
        let ghost before = done@;
        done.push(String::from_str(stdout.substring_char(start, n)));
        proof {
            assert(texts(done@) =~= texts(before).push(stdout@.subrange(start as int, n as int)));
        }
    }
    done
}

/// A compiled glob pattern and the text it was compiled from.
pub struct GlobPattern {
    text: String,
    pattern: glob::Pattern,
}

impl GlobPattern {
    /// The pattern's source text.
    pub closed spec fn source(self) -> Seq<char> {
        self.text@
    }
}

/// What `glob::Pattern::new` reports for a pattern it refuses: the
/// approximate position and the message; `None` for a pattern it accepts.
pub uninterp spec fn glob_pattern_error(pattern: Seq<char>) -> Option<(usize, Seq<char>)>;

/// Whether `glob::Pattern::matches` accepts `path` for the pattern, with the
/// default match options.
pub uninterp spec fn glob_match(pattern: Seq<char>, path: Seq<char>) -> bool;

/// `glob::Pattern::new`: compile `pattern`, or give the error's position and message.
#[verifier::external_body]
fn compile_glob(pattern: &str) -> (r: Result<GlobPattern, (usize, String)>)
    ensures
        r matches Ok(p) ==> p.source() == pattern@ && glob_pattern_error(pattern@) is None,
        r matches Err(e) ==> glob_pattern_error(pattern@) == Some((e.0, e.1@)),
{
    match glob::Pattern::new(pattern) {
        Ok(p) => Ok(GlobPattern { text: pattern.to_string(), pattern: p }),
        Err(e) => Err((e.pos, e.msg.to_string())),
    }
}

/// `glob::Pattern::matches`.
#[verifier::external_body]
fn glob_matches(p: &GlobPattern, path: &str) -> (r: bool)
    ensures
        r == glob_match(p.source(), path@),
{
    p.pattern.matches(path)
}

/// The paths of `files` that `pattern` matches, in order.
pub open spec fn matching_paths(pattern: Seq<char>, files: Seq<Seq<char>>) -> Seq<Seq<char>>
    decreases files.len(),
{
    if files.len() == 0 {
        Seq::empty()
    } else {
        let rest = matching_paths(pattern, files.drop_last());
        if glob_match(pattern, files.last()) {
            rest.push(files.last())
        } else {
            rest
        }
    }
}

/// The refusal of an invalid glob pattern.
pub open spec fn invalid_glob_message(pos: usize, msg: Seq<char>) -> Seq<char> {
    "Invalid glob pattern: Pattern syntax error near position "@ + decimal_chars(pos as nat) + ": "@
        + msg
}

/// The files to index: the listed paths, kept only where the glob pattern
/// (when one is given) matches; an invalid pattern is refused.
pub fn files_to_index(ls_files_stdout: &str, pattern: Option<&str>) -> (r: Result<Vec<String>, String>)
    ensures
        pattern is None ==> (r matches Ok(v) && texts(v@) == nonempty_lines(ls_files_stdout@)),
        pattern matches Some(p) ==> match glob_pattern_error(p@) {
            None => r matches Ok(v) && texts(v@) == matching_paths(p@, nonempty_lines(ls_files_stdout@)),
            Some((pos, msg)) => r matches Err(m) && m@ == invalid_glob_message(pos, msg),
        },
{
    let files = listed_paths(ls_files_stdout);
    match pattern {
        None => Ok(files),
        Some(p) => {
            let glob = match compile_glob(p) {
                Ok(g) => g,
                Err(e) => {
                    let mut m = String::from_str("Invalid glob pattern: Pattern syntax error near position ");
                    m.append(decimal_string(e.0 as u64).as_str());
                    m.append(": ");
                    m.append(e.1.as_str());
                    return Err(m);
                },
            };
            let mut kept: Vec<String> = Vec::new();
            let n = files.len();
            let mut i: usize = 0;
            while i < n
                invariant
                    n == files@.len(),
                    i <= n,
                    glob.source() == p@,
                    texts(kept@) == matching_paths(p@, texts(files@).subrange(0, i as int)),
                decreases n - i,
            {
                proof {
                    let sub = texts(files@).subrange(0, i + 1);
                    assert(sub.drop_last() =~= texts(files@).subrange(0, i as int));
                    assert(sub.last() == files@[i as int]@);
                }
                if glob_matches(&glob, files[i].as_str()) {
                    let ghost before = kept@;
                    kept.push(files[i].clone());
                    proof {
                        assert(texts(kept@) =~= texts(before).push(files@[i as int]@));
                    }
                }
                i = i + 1;
            }
            proof {
                assert(texts(files@).subrange(0, n as int) =~= texts(files@));
            }
            Ok(kept)
        },
    }
}

/// The SHA-256 digest of a byte string.
pub uninterp spec fn sha256_digest(bytes: Seq<u8>) -> Seq<u8>;

/// `sha2::Sha256::digest`: the 32-byte SHA-256 digest of `bytes`.
#[verifier::external_body]
fn sha256(bytes: &[u8]) -> (r: Vec<u8>)
    ensures
        r@ == sha256_digest(bytes@),
        r@.len() == 32,
{
    sha2::Sha256::digest(bytes).to_vec()
}

/// The hash a file's content is indexed under.
pub fn content_hash(content: &str) -> (r: Vec<u8>)
    ensures
        r@ == sha256_digest(content.spec_bytes()),
        r@.len() == 32,
{
    sha256(content.as_bytes())
}

/// Whether a file is indexed.
#[derive(Debug, Clone, Copy, PartialEq, Eq, Structural)]
pub enum IndexDecision {
    Index,
    Skip,
}

/// A file is skipped when it cannot be read as text, when (without
/// `force`) it is already indexed with the same content hash, or when its
/// language is unknown; otherwise it is indexed.
pub fn index_decision(
    readable: bool,
    force: bool,
    indexed_hash: Option<&Vec<u8>>,
    hash: &Vec<u8>,
    language_known: bool,
) -> (r: IndexDecision)
    ensures
        r == (if !readable {
            IndexDecision::Skip
        } else if !force && (indexed_hash matches Some(h) && h@ == hash@) {
            IndexDecision::Skip
        } else if !language_known {
            IndexDecision::Skip
        } else {
            IndexDecision::Index
        }),
{
    if !readable {
        return IndexDecision::Skip;
    }
    if !force {
        match indexed_hash {
            Some(h) => {
                if same_bytes(h, hash) {
                    return IndexDecision::Skip;
                }
            },
            None => {},
        }
    }
    if !language_known {
        return IndexDecision::Skip;
    }
    IndexDecision::Index
}

/// How many of the decisions index their file.
pub open spec fn count_indexed(ds: Seq<IndexDecision>) -> nat
    decreases ds.len(),
{
    if ds.len() == 0 {
        0
    } else {
        count_indexed(ds.drop_last()) + if ds.last() == IndexDecision::Index {
            1nat
        } else {
            0nat
        }
    }
}

/// The counts an index run reports, `(indexed, skipped)`: every file is
/// counted once, as indexed or as skipped.
pub fn tally_decisions(ds: &Vec<IndexDecision>) -> (r: (u32, u32))
    requires
        ds@.len() <= u32::MAX,
    ensures
        r.0 == count_indexed(ds@),
        r.0 + r.1 == ds@.len(),
{
    let mut indexed: u32 = 0;
    let mut skipped: u32 = 0;
    let mut i: usize = 0;
    while i < ds.len()
        invariant
            i <= ds@.len(),
            ds@.len() <= u32::MAX,
            indexed == count_indexed(ds@.subrange(0, i as int)),
            indexed + skipped == i,
        decreases ds@.len() - i,
    {
        proof {
            assert(ds@.subrange(0, i + 1).drop_last() =~= ds@.subrange(0, i as int));
        }
        if ds[i] == IndexDecision::Index {
            indexed = indexed + 1;
        } else {
            skipped = skipped + 1;
        }
        i = i + 1;
    }
    proof {
        assert(ds@.subrange(0, i as int) =~= ds@);
    }
    (indexed, skipped)
}

fn same_bytes(a: &Vec<u8>, b: &Vec<u8>) -> (r: bool)
    ensures
        r == (a@ == b@),
{
    if a.len() != b.len() {
        return false;
    }
    let n = a.len();
    let mut i: usize = 0;
    while i < n
        invariant
            n == a@.len(),
            n == b@.len(),
            i <= n,
            forall|k: int| 0 <= k < i ==> a@[k] == b@[k],
        decreases n - i,
    {
        if a[i] != b[i] {
            return false;
        }
        i = i + 1;
    }
    proof {
        assert(a@ =~= b@);
    }
    true
}

} // verus!
