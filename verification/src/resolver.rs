//! From the path of a request to the file that answers it.

use crate::text::to_chars;
use vstd::prelude::*;
use vstd::string::*;

verus! {

/// The directory that holds every file that is served, relative to the
/// working directory.
pub const DOCUMENT_ROOT: &'static str = "public";

/// The file that answers a request for `/`.
pub const INDEX_DOCUMENT: &'static str = "index.html";

/// Position of the first character at or after `from` that is not a slash,
/// or the length of `path` where only slashes follow.
pub open spec fn slashes_end(path: Seq<char>, from: int) -> int
    decreases path.len() - from,
{
    if 0 <= from < path.len() && path[from] == '/' {
        slashes_end(path, from + 1)
    } else {
        from
    }
}

/// `path` without the slashes that it begins with, all of them.
pub open spec fn trim_leading_slashes(path: Seq<char>) -> Seq<char> {
    path.skip(slashes_end(path, 0))
}

/// The file `name` in the directory `dir`.
pub open spec fn join(dir: Seq<char>, name: Seq<char>) -> Seq<char> {
    dir + seq!['/'] + name
}

/// The file that answers a request for `path`: the index document for `/`,
/// else what `path` names below the document root once its leading slashes
/// are gone. Nothing else in `path` is changed, so a `..` in it stays.
pub open spec fn document_path(path: Seq<char>) -> Seq<char> {
    if path == seq!['/'] {
        join(DOCUMENT_ROOT@, INDEX_DOCUMENT@)
    } else {
        join(DOCUMENT_ROOT@, trim_leading_slashes(path))
    }
}

/// `slashes_end` lies between `from` and the end, passes over slashes only,
/// and stops on a character that is no slash.
pub proof fn lemma_slashes_end(path: Seq<char>, from: int)
    requires
        0 <= from <= path.len(),
    ensures
        from <= slashes_end(path, from) <= path.len(),
        forall|i: int| from <= i < slashes_end(path, from) ==> #[trigger] path[i] == '/',
        slashes_end(path, from) < path.len() ==> path[slashes_end(path, from)] != '/',
    decreases path.len() - from,
{
    if from < path.len() && path[from] == '/' {
        lemma_slashes_end(path, from + 1);
    }
}

/// The file that answers a request is named below the document root: its
/// name is that of the root, a slash, and a name that begins with no slash.
pub proof fn lemma_document_path(path: Seq<char>)
    ensures
        ({
            let name = document_path(path).skip(DOCUMENT_ROOT@.len() as int + 1);
            &&& document_path(path) == join(DOCUMENT_ROOT@, name)
            &&& name.len() > 0 ==> name[0] != '/'
        }),
{
    let name = document_path(path).skip(DOCUMENT_ROOT@.len() as int + 1);
    reveal_strlit("index.html");
    lemma_slashes_end(path, 0);
    if path == seq!['/'] {
        assert(name =~= INDEX_DOCUMENT@);
    } else {
        assert(name =~= trim_leading_slashes(path));
    }
    assert(document_path(path) =~= join(DOCUMENT_ROOT@, name));
}

fn skip_slashes(chars: &[char], from: usize) -> (at: usize)
    requires
        from <= chars@.len(),
    ensures
        at == slashes_end(chars@, from as int),
        from <= at <= chars@.len(),
{
    let mut at: usize = from;
    while at < chars.len() && chars[at] == '/'
        invariant
            from <= at <= chars@.len(),
            slashes_end(chars@, from as int) == slashes_end(chars@, at as int),
        decreases chars@.len() - at,
    {
        at += 1;
    }
    at
}

/// Resolves the path of a request to the file that answers it.
pub fn resolve(path: &str) -> (file: String)
    ensures
        file@ == document_path(path@),
{
    let chars = to_chars(path);
    let mut file = String::from_str(DOCUMENT_ROOT);
    proof {
        reveal_strlit("/");
        assert("/"@ =~= seq!['/']);
    }
    file.append("/");
    if chars.len() == 1 && chars[0] == '/' {
        assert(path@ =~= seq!['/']);
        file.append(INDEX_DOCUMENT);
    } else {
        let start = skip_slashes(chars.as_slice(), 0);
        let rest = path.substring_char(start, chars.len());
        assert(rest@ =~= trim_leading_slashes(path@));
        file.append(rest);
    }
    file
}

} // verus!
