//! Mapping of the path captured from a request to the name of a template.

use vstd::prelude::*;
use vstd::string::StringExecFns;

verus! {

/// No slash stands in `s` behind position `i`.
pub open spec fn slash_free_after(s: Seq<char>, i: int) -> bool {
    forall|j: int| i < j < s.len() ==> s[j] != '/'
}

/// The final path segment of `s`, the part behind its last slash, holds a dot.
pub open spec fn names_extension(s: Seq<char>) -> bool {
    exists|i: int| 0 <= i < s.len() && s[i] == '.' && slash_free_after(s, i)
}

/// The template that a captured path stands for: the default document for the
/// empty path, the path itself where its final segment carries an extension,
/// and the path with a dot and the default extension behind it otherwise.
pub open spec fn resolved_path(
    captured_suffix: Seq<char>,
    default_document: Seq<char>,
    default_extension: Seq<char>,
) -> Seq<char> {
    if captured_suffix.len() == 0 {
        default_document
    } else if names_extension(captured_suffix) {
        captured_suffix
    } else {
        captured_suffix + seq!['.'] + default_extension
    }
}

/// How one more character changes whether the final segment holds a dot.
proof fn lemma_names_extension_push(s: Seq<char>, c: char)
    ensures
        names_extension(s.push(c)) == (if c == '/' {
            false
        } else if c == '.' {
            true
        } else {
            names_extension(s)
        }),
{
    let t = s.push(c);
    let last = s.len() as int;
    if c == '/' {
        assert forall|i: int| 0 <= i < t.len() && t[i] == '.' implies !slash_free_after(t, i) by {
            assert(i < last);
            assert(t[last] == '/');
        }
    } else if c == '.' {
        assert(t[last] == '.' && slash_free_after(t, last));
    } else {
        if names_extension(s) {
            let i = choose|i: int| 0 <= i < s.len() && s[i] == '.' && slash_free_after(s, i);
            assert forall|j: int| i < j < t.len() implies t[j] != '/' by {
                if j < last {
                    assert(t[j] == s[j]);
                }
            }
            assert(t[i] == '.' && slash_free_after(t, i));
        }
        if names_extension(t) {
            let i = choose|i: int| 0 <= i < t.len() && t[i] == '.' && slash_free_after(t, i);
            assert(i < last);
            assert forall|j: int| i < j < s.len() implies s[j] != '/' by {
                assert(t[j] == s[j]);
            }
            assert(s[i] == '.' && slash_free_after(s, i));
        }
    }
}

/// Tells whether the final path segment of `path` holds a dot.
pub fn has_extension(path: &str) -> (found: bool)
    ensures
        found == names_extension(path@),
{
    let mut found = false;
    for c in it: path.chars()
        invariant
            it.seq() == path@,
            found == names_extension(path@.take(it.index() as int)),
    {
        proof {
            let n = it.index() as int;
            lemma_names_extension_push(path@.take(n), c);
            assert(path@.take(n + 1) =~= path@.take(n).push(c));
        }
        if c == '/' {
            found = false;
        } else if c == '.' {
            found = true;
        }
    }
    proof {
        assert(path@.take(path@.len() as int) =~= path@);
    }
    found
}

/// Maps the path captured from a request to the name of the template to render.
pub fn resolve(captured_suffix: &str, default_document: &str, default_extension: &str) -> (path:
    String)
    ensures
        path@ == resolved_path(captured_suffix@, default_document@, default_extension@),
{
    if captured_suffix.is_empty() {
        default_document.to_owned()
    } else if has_extension(captured_suffix) {
        captured_suffix.to_owned()
    } else {
        let mut path = captured_suffix.to_owned();
        path.append(".");
        path.append(default_extension);
        proof {
            reveal_strlit(".");
            assert("."@ =~= seq!['.']);
        }
        path
    }
}

/// The empty path stands for the default document, whatever the extension.
pub proof fn law_empty_path_is_default_document(
    default_document: Seq<char>,
    default_extension: Seq<char>,
)
    ensures
        resolved_path(Seq::empty(), default_document, default_extension) == default_document,
{
}

/// A path whose final segment carries an extension names its template itself.
pub proof fn law_extension_is_kept(
    captured_suffix: Seq<char>,
    default_document: Seq<char>,
    default_extension: Seq<char>,
)
    requires
        names_extension(captured_suffix),
    ensures
        resolved_path(captured_suffix, default_document, default_extension) == captured_suffix,
{
}

/// A path that is not empty and whose final segment holds no dot gets a dot
/// and the default extension, and the default document plays no part.
pub proof fn law_extension_is_added(
    captured_suffix: Seq<char>,
    default_document: Seq<char>,
    default_extension: Seq<char>,
)
    requires
        captured_suffix.len() > 0,
        !names_extension(captured_suffix),
    ensures
        resolved_path(captured_suffix, default_document, default_extension) == captured_suffix
            + seq!['.'] + default_extension,
{
}

} // verus!
