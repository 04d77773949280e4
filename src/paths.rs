use vstd::prelude::*;
use vstd::string::*;

verus! {

/// The text of each path in `v`.
pub open spec fn texts(v: Seq<String>) -> Seq<Seq<char>> {
    v.map_values(|s: String| s@)
}

/// `name` appended to the directory path `base`: an absolute `name` replaces
/// `base`, and a separator is put between the two unless `base` is empty or
/// already ends with one.
pub open spec fn joined(base: Seq<char>, name: Seq<char>) -> Seq<char> {
    if name.len() > 0 && name[0] == '/' {
        name
    } else if base.len() == 0 || base.last() == '/' {
        base + name
    } else {
        base + seq!['/'] + name
    }
}

/// The final component of a path, as `Path::file_name` gives it.
pub uninterp spec fn file_name_of(p: Seq<char>) -> Option<Seq<char>>;

/// A file name with the extension `c`: something before a final `.c`.
pub open spec fn c_file_name(name: Seq<char>) -> bool {
    name.len() >= 3 && name[name.len() - 2] == '.' && name.last() == 'c'
}

/// A path whose final component is a C file name.
pub open spec fn c_source(p: Seq<char>) -> bool {
    match file_name_of(p) {
        Some(name) => c_file_name(name),
        None => false,
    }
}

/// The paths of `paths` that name C sources, in their order.
pub open spec fn c_sources(paths: Seq<Seq<char>>) -> Seq<Seq<char>>
    decreases paths.len(),
{
    if paths.len() == 0 {
        seq![]
    } else {
        let kept = c_sources(paths.drop_last());
        if c_source(paths.last()) {
            kept.push(paths.last())
        } else {
            kept
        }
    }
}

/// Joins a directory path and a name as `Path::join` does on Unix.
pub fn join_path(base: &str, name: &str) -> (r: String)
    ensures
        r@ == joined(base@, name@),
{
    let name_len = name.unicode_len();
    let base_len = base.unicode_len();
    if name_len > 0 && name.get_char(0) == '/' {
        String::from_str(name)
    } else if base_len == 0 || base.get_char(base_len - 1) == '/' {
        String::from_str(base).concat(name)
    } else {
        proof {
            reveal_strlit("/");
        }
        String::from_str(base).concat("/").concat(name)
    }
}

/// Relies on `std::path::Path::file_name`: the final component of the path,
/// or none where the path ends in `..` or is a root or empty.
#[verifier::external_body]
pub(crate) fn file_name(p: &str) -> (r: Option<String>)
    ensures
        match r {
            Some(name) => file_name_of(p@) == Some(name@),
            None => file_name_of(p@) is None,
        },
{
    std::path::Path::new(p).file_name().map(|n| n.to_string_lossy().into_owned())
}

/// Whether a file name has the extension `c`, as `Path::extension` reads it:
/// the text after the last `.`, where that `.` is not the name's first
/// character.
pub fn is_c_file_name(name: &str) -> (r: bool)
    ensures
        r == c_file_name(name@),
{
    let n = name.unicode_len();
    n >= 3 && name.get_char(n - 2) == '.' && name.get_char(n - 1) == 'c'
}

/// Whether the path names a C source file.
pub fn is_c_source(p: &str) -> (r: bool)
    ensures
        r == c_source(p@),
{
    match file_name(p) {
        Some(name) => is_c_file_name(name.as_str()),
        None => false,
    }
}

/// The C sources among the paths of a directory walk, in walk order.
pub fn select_sources(paths: &Vec<String>) -> (r: Vec<String>)
    ensures
        texts(r@) == c_sources(texts(paths@)),
{
    let mut kept: Vec<String> = Vec::new();
    let mut i: usize = 0;
    while i < paths.len()
        invariant
            i <= paths.len(),
            texts(kept@) == c_sources(texts(paths@).take(i as int)),
        decreases paths.len() - i,
    {
        let p = &paths[i];
        let ghost before = texts(paths@).take(i as int);
        let ghost after = texts(paths@).take(i + 1);
        assert(after.drop_last() =~= before);
        assert(after.last() == p@);
        if is_c_source(p.as_str()) {
            kept.push(p.clone());
            assert(texts(kept@) =~= c_sources(before).push(p@));
        }
        i += 1;
    }
    assert(texts(paths@).take(paths.len() as int) =~= texts(paths@));
    kept
}

} // verus!
