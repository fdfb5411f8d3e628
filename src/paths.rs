//! File names and paths: which names are images, and where an entry and its
//! preview live.
use vstd::prelude::*;
use vstd::string::StrSliceExecFns;
use vstd::string::StringExecFns;

verus! {

/// The closed, case-sensitive list of extensions that name an image file.
pub open spec fn is_image_extension_spec(e: Seq<char>) -> bool {
    ||| e == "cur"@
    ||| e == "ico"@
    ||| e == "bmp"@
    ||| e == "pnm"@
    ||| e == "xpm"@
    ||| e == "xcf"@
    ||| e == "pcx"@
    ||| e == "gif"@
    ||| e == "jpg"@
    ||| e == "jpeg"@
    ||| e == "tif"@
    ||| e == "tiff"@
    ||| e == "png"@
    ||| e == "tga"@
    ||| e == "lbm"@
    ||| e == "xv"@
    ||| e == "webp"@
}

/// The position of the last `.` among the first `n` characters of `s`, or -1.
pub open spec fn last_dot_before(s: Seq<char>, n: int) -> int
    decreases n,
{
    if n <= 0 {
        -1
    } else if s[n - 1] == '.' {
        n - 1
    } else {
        last_dot_before(s, n - 1)
    }
}

/// The extension of a file name: what follows its last dot, provided that
/// dot is not the name's first character.
pub open spec fn extension_spec(name: Seq<char>) -> Option<Seq<char>> {
    let d = last_dot_before(name, name.len() as int);
    if d > 0 {
        Some(name.subrange(d + 1, name.len() as int))
    } else {
        None
    }
}

/// A file name whose extension is on the list.
pub open spec fn is_image_name(name: Seq<char>) -> bool {
    match extension_spec(name) {
        Some(e) => is_image_extension_spec(e),
        None => false,
    }
}

/// `name` placed inside the directory `dir`: a separator is added unless
/// `dir` is empty or already ends with one.
pub open spec fn join(dir: Seq<char>, name: Seq<char>) -> Seq<char> {
    if dir.len() == 0 {
        name
    } else if dir.last() == '/' {
        dir + name
    } else {
        dir + seq!['/'] + name
    }
}

/// The sub-directory of an image's directory that holds its preview.
pub open spec fn preview_dir(dir: Seq<char>) -> Seq<char> {
    join(dir, "_preview"@)
}

fn same_chars(a: &str, b: &str) -> (r: bool)
    ensures
        r == (a@ == b@),
{
    let n = a.unicode_len();
    if n != b.unicode_len() {
        return false;
    }
    let mut i: usize = 0;
    while i < n
        invariant
            n == a@.len(),
            n == b@.len(),
            i <= n,
            forall|j: int| 0 <= j < i ==> a@[j] == b@[j],
        decreases n - i,
    {
        if a.get_char(i) != b.get_char(i) {
            return false;
        }
        i += 1;
    }
    assert(a@ =~= b@);
    true
}

/// Whether `ext` is one of the image extensions (case-sensitive).
pub fn is_image_extension(ext: &str) -> (r: bool)
    ensures
        r == is_image_extension_spec(ext@),
{
    same_chars(ext, "cur") || same_chars(ext, "ico") || same_chars(ext, "bmp") || same_chars(
        ext,
        "pnm",
    ) || same_chars(ext, "xpm") || same_chars(ext, "xcf") || same_chars(ext, "pcx") || same_chars(
        ext,
        "gif",
    ) || same_chars(ext, "jpg") || same_chars(ext, "jpeg") || same_chars(ext, "tif") || same_chars(
        ext,
        "tiff",
    ) || same_chars(ext, "png") || same_chars(ext, "tga") || same_chars(ext, "lbm") || same_chars(
        ext,
        "xv",
    ) || same_chars(ext, "webp")
}

/// The extension of the file name `name`, if it has one.
pub fn extension(name: &str) -> (r: Option<&str>)
    ensures
        (r is Some) == (extension_spec(name@) is Some),
        r is Some ==> r->0@ == extension_spec(name@)->0,
{
    let n = name.unicode_len();
    let mut i: usize = n;
    while i > 0
        invariant
            n == name@.len(),
            i <= n,
            last_dot_before(name@, n as int) == last_dot_before(name@, i as int),
        decreases i,
    {
        if name.get_char(i - 1) == '.' {
            if i - 1 > 0 {
                return Some(name.substring_char(i, n));
            } else {
                return None;
            }
        }
        i -= 1;
    }
    None
}

/// Whether `name` is the name of an image file by its extension.
pub fn is_image_file_name(name: &str) -> (r: bool)
    ensures
        r == is_image_name(name@),
{
    match extension(name) {
        Some(e) => is_image_extension(e),
        None => false,
    }
}

/// The path of `name` inside the directory `dir`.
pub fn join_path(dir: &str, name: &str) -> (r: String)
    ensures
        r@ == join(dir@, name@),
{
    let mut r = String::from_str(dir);
    let n = dir.unicode_len();
    if n > 0 && dir.get_char(n - 1) != '/' {
        r.append("/");
        proof {
            reveal_strlit("/");
        }
    }
    r.append(name);
    r
}

} // verus!
