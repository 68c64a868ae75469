use vstd::prelude::*;
use vstd::string::*;
use crate::error::OsCallError;

verus! {

/// A path separator: both `/` and `\` separate path components.
pub open spec fn is_separator(c: char) -> bool {
    c == '/' || c == '\\'
}

/// Position `i` holds a dot that starts an extension: it is not the first
/// character of its path component.
pub open spec fn extension_dot_at(s: Seq<char>, i: int) -> bool {
    &&& 0 < i < s.len()
    &&& s[i] == '.'
    &&& !is_separator(s[i - 1])
}

/// The last component of the path has an extension: it holds a dot that is not
/// its first character.
pub open spec fn path_has_extension(s: Seq<char>) -> bool {
    exists|i: int|
        extension_dot_at(s, i) && forall|j: int| i < j < s.len() ==> !is_separator(#[trigger] s[j])
}

/// The default extension of a library.
pub open spec fn default_extension() -> Seq<char> {
    seq!['.', 'd', 'l', 'l']
}

/// The name or path searched for: the input itself when it has an extension,
/// otherwise the input with the default library extension appended.
pub open spec fn normalized_target(s: Seq<char>) -> Seq<char> {
    if path_has_extension(s) {
        s
    } else {
        s + default_extension()
    }
}

/// The code of a character with ASCII upper-case letters mapped to lower case.
pub open spec fn ascii_folded(c: char) -> u32 {
    if 'A' <= c && c <= 'Z' {
        (c as u32 + 32) as u32
    } else {
        c as u32
    }
}

/// Two strings are equal when ASCII letters are compared without regard to case.
pub open spec fn eq_ignoring_ascii_case(a: Seq<char>, b: Seq<char>) -> bool {
    &&& a.len() == b.len()
    &&& forall|i: int| 0 <= i < a.len() ==> ascii_folded(#[trigger] a[i]) == ascii_folded(b[i])
}

/// Whether the last component of `path` has an extension.
pub fn has_extension(path: &str) -> (r: bool)
    ensures
        r == path_has_extension(path@),
{
    let n = path.unicode_len();
    let mut i: usize = n;
    while i > 0
        invariant
            i <= n,
            n == path@.len(),
            forall|j: int| i <= j < n ==> !is_separator(#[trigger] path@[j]),
            forall|j: int| i <= j < n ==> !extension_dot_at(path@, j),
        decreases i,
    {
        let c = path.get_char(i - 1);
        if c == '/' || c == '\\' {
            assert forall|k: int| extension_dot_at(path@, k) implies
                exists|j: int| k < j < path@.len() && is_separator(path@[j]) by {
                if k < i - 1 {
                    assert(is_separator(path@[i - 1]));
                }
            }
            return false;
        }
        if c == '.' && i >= 2 {
            let p = path.get_char(i - 2);
            if p != '/' && p != '\\' {
                assert(extension_dot_at(path@, i - 1));
                return true;
            }
        }
        i = i - 1;
    }
    false
}

/// The name or path to search for: `target` itself when it has an extension,
/// otherwise `target` with `.dll` appended.
pub fn normalize_target(target: &str) -> (r: String)
    ensures
        r@ == normalized_target(target@),
{
    let mut r = String::from_str(target);
    if !has_extension(target) {
        proof {
            reveal_strlit(".dll");
        }
        r.append(".dll");
        assert(r@ =~= target@ + default_extension());
    }
    r
}

/// Compares two strings, ASCII letters without regard to case.
pub fn eq_ignore_ascii_case(a: &str, b: &str) -> (r: bool)
    ensures
        r == eq_ignoring_ascii_case(a@, b@),
{
    let n = a.unicode_len();
    if n != b.unicode_len() {
        return false;
    }
    let mut i: usize = 0;
    while i < n
        invariant
            i <= n,
            n == a@.len(),
            n == b@.len(),
            forall|j: int| 0 <= j < i ==> ascii_folded(#[trigger] a@[j]) == ascii_folded(b@[j]),
        decreases n - i,
    {
        let x = a.get_char(i);
        let y = b.get_char(i);
        let fx: u32 = if 'A' <= x && x <= 'Z' { x as u32 + 32 } else { x as u32 };
        let fy: u32 = if 'A' <= y && y <= 'Z' { y as u32 + 32 } else { y as u32 };
        if fx != fy {
            assert(ascii_folded(a@[i as int]) != ascii_folded(b@[i as int]));
            return false;
        }
        i = i + 1;
    }
    true
}

/// What a search does after the name or path of one module was queried.
#[derive(Debug, Clone, Copy, PartialEq, Eq, Structural)]
pub enum LookupStep {
    /// This module is the one searched for.
    Found,
    /// This module is another one: go on with the next.
    Next,
    /// The query failed: the whole search ends with this error.
    Failed(OsCallError),
}

/// The step that follows a query of one module, against the normalised target.
pub open spec fn search_step(target: Seq<char>, queried: Result<String, OsCallError>) -> LookupStep {
    match queried {
        Err(e) => LookupStep::Failed(e),
        Ok(name) => if eq_ignoring_ascii_case(name@, target) {
            LookupStep::Found
        } else {
            LookupStep::Next
        },
    }
}

/// A search over the modules of a process for one with a given base name or full
/// path. The modules are examined in the order they were listed; the first that
/// matches is the result, and the first failed query ends the search.
pub struct ModuleSearch {
    target: String,
}

impl ModuleSearch {
    /// The normalised name or path searched for.
    pub closed spec fn target_spec(&self) -> Seq<char> {
        self.target@
    }

    /// A search for the module whose base name is `name`, `.dll` appended when
    /// it has no extension.
    pub fn by_name(name: &str) -> (r: ModuleSearch)
        ensures
            r.target_spec() == normalized_target(name@),
    {
        ModuleSearch { target: normalize_target(name) }
    }

    /// A search for the module whose full path is `path`, `.dll` appended when
    /// it has no extension.
    pub fn by_path(path: &str) -> (r: ModuleSearch)
        ensures
            r.target_spec() == normalized_target(path@),
    {
        ModuleSearch { target: normalize_target(path) }
    }

    /// The normalised name or path searched for.
    pub fn target(&self) -> (r: &str)
        ensures
            r@ == self.target_spec(),
    {
        self.target.as_str()
    }

    /// Takes the outcome of querying one module's name (or path) and says whether
    /// it is the module searched for.
    pub fn examine(&self, queried: Result<String, OsCallError>) -> (r: LookupStep)
        ensures
            r == search_step(self.target_spec(), queried),
    {
        match queried {
            Err(e) => LookupStep::Failed(e),
            Ok(name) => if eq_ignore_ascii_case(name.as_str(), self.target.as_str()) {
                LookupStep::Found
            } else {
                LookupStep::Next
            },
        }
    }
}

/// Characters that fold to the same code are both separators or neither, and
/// both dots or neither.
proof fn lemma_folding_keeps_punctuation(a: char, b: char)
    requires
        ascii_folded(a) == ascii_folded(b),
    ensures
        is_separator(a) == is_separator(b),
        (a == '.') == (b == '.'),
{
}

/// Strings equal without regard to ASCII case agree on having an extension.
proof fn lemma_folding_keeps_extension(p: Seq<char>, q: Seq<char>)
    requires
        eq_ignoring_ascii_case(p, q),
    ensures
        path_has_extension(p) == path_has_extension(q),
{
    assert forall|a: Seq<char>, b: Seq<char>| eq_ignoring_ascii_case(a, b) && #[trigger] path_has_extension(a)
        implies #[trigger] path_has_extension(b) by {
        let i = choose|i: int| extension_dot_at(a, i) && forall|j: int| i < j < a.len() ==> !is_separator(#[trigger] a[j]);
        lemma_folding_keeps_punctuation(a[i], b[i]);
        lemma_folding_keeps_punctuation(a[i - 1], b[i - 1]);
        assert forall|j: int| i < j < b.len() implies !is_separator(#[trigger] b[j]) by {
            lemma_folding_keeps_punctuation(a[j], b[j]);
        }
        assert(extension_dot_at(b, i));
    }
    assert(eq_ignoring_ascii_case(q, p));
}

/// Searching by name for `n` without an extension finds the same module as
/// searching for `n` with `.dll` appended, in any letter case: every query of a
/// module leads to the same step.
pub proof fn lemma_default_extension_and_case(n: Seq<char>, m: Seq<char>, queried: Result<String, OsCallError>)
    requires
        !path_has_extension(n),
        n.len() > 0,
        !is_separator(n.last()),
        eq_ignoring_ascii_case(m, n + default_extension()),
    ensures
        search_step(normalized_target(n), queried) == search_step(normalized_target(m), queried),
{
    let full = n + default_extension();
    let i = n.len() as int;
    assert(full[i] == '.');
    assert(full[i - 1] == n.last());
    lemma_folding_keeps_punctuation(m[i], full[i]);
    lemma_folding_keeps_punctuation(m[i - 1], full[i - 1]);
    assert forall|j: int| i < j < m.len() implies !is_separator(#[trigger] m[j]) by {
        lemma_folding_keeps_punctuation(m[j], full[j]);
    }
    assert(extension_dot_at(m, i));
    assert(path_has_extension(m));
}

/// Searching for a path finds the same module whatever the letter case of the
/// path: every query of a module leads to the same step.
pub proof fn lemma_path_case_insensitive(p: Seq<char>, q: Seq<char>, queried: Result<String, OsCallError>)
    requires
        eq_ignoring_ascii_case(p, q),
    ensures
        search_step(normalized_target(p), queried) == search_step(normalized_target(q), queried),
{
    lemma_folding_keeps_extension(p, q);
    let np = normalized_target(p);
    let nq = normalized_target(q);
    assert forall|k: int| 0 <= k < np.len() implies ascii_folded(#[trigger] np[k]) == ascii_folded(nq[k]) by {
        if k >= p.len() {
            assert(np[k] == nq[k]);
        }
    }
}

} // verus!
