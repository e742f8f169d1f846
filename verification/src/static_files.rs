//! Serving the built frontend: which file a request path names, whether the
//! path is safe to follow, and the content type a file is sent with.
use vstd::prelude::*;

verus! {

/// Position of the last `.` among the first `n` characters of `s`, or -1.
pub open spec fn last_dot_before(s: Seq<char>, n: int) -> int
    decreases n,
{
    if n <= 0 {
        -1
    } else if s[n - 1] == '.' {
        n - 1
    } else {
        last_dot_before(s, n - 1)
    }
}

/// The extension of a file name: what follows its last `.`, or the whole name
/// when it has none.
pub open spec fn extension_of(name: Seq<char>) -> Seq<char> {
    name.subrange(last_dot_before(name, name.len() as int) + 1, name.len() as int)
}

/// The content type for a file extension (case-sensitive).
pub open spec fn content_type_of_extension(ext: Seq<char>) -> Seq<char> {
    if ext == "html"@ {
        "text/html; charset=utf-8"@
    } else if ext == "css"@ {
        "text/css; charset=utf-8"@
    } else if ext == "js"@ {
        "application/javascript"@
    } else if ext == "wasm"@ {
        "application/wasm"@
    } else if ext == "svg"@ {
        "image/svg+xml"@
    } else if ext == "json"@ {
        "application/json"@
    } else if ext == "xml"@ {
        "application/xml; charset=utf-8"@
    } else if ext == "png"@ {
        "image/png"@
    } else if ext == "jpg"@ || ext == "jpeg"@ {
        "image/jpeg"@
    } else if ext == "ico"@ {
        "image/x-icon"@
    } else if ext == "woff2"@ {
        "font/woff2"@
    } else if ext == "woff"@ {
        "font/woff"@
    } else if ext == "ttf"@ {
        "font/ttf"@
    } else if ext == "txt"@ {
        "text/plain; charset=utf-8"@
    } else {
        "application/octet-stream"@
    }
}

fn same_text(a: &str, b: &str) -> (r: bool)
    ensures
        r == (a@ == b@),
{
    let n = a.unicode_len();
    if n != b.unicode_len() {
        return false;
    }
    let mut i: usize = 0;
    while i < n
        invariant
            n == a@.len(),
            n == b@.len(),
            i <= n,
            forall|k: int| 0 <= k < i ==> a@[k] == b@[k],
        decreases n - i,
    {
        if a.get_char(i) != b.get_char(i) {
            return false;
        }
        i = i + 1;
    }
    assert(a@ =~= b@);
    true
}

/// The extension of a file name, as `extension_of` describes it.
pub fn extension(name: &str) -> (ext: &str)
    ensures
        ext@ == extension_of(name@),
{
    let n = name.unicode_len();
    let mut i: usize = n;
    while i > 0
        invariant
            n == name@.len(),
            i <= n,
            last_dot_before(name@, n as int) == last_dot_before(name@, i as int),
        decreases i,
    {
        if name.get_char(i - 1) == '.' {
            return name.substring_char(i, n);
        }
        i = i - 1;
    }
    name.substring_char(0, n)
}

/// The content type a file is sent with, from the extension of its name;
/// unknown extensions are sent as octet-stream.
pub fn content_type_for(name: &str) -> (t: &'static str)
    ensures
        t@ == content_type_of_extension(extension_of(name@)),
{
    let ext = extension(name);
    proof {
        reveal_strlit("html");
        reveal_strlit("css");
        reveal_strlit("js");
        reveal_strlit("wasm");
        reveal_strlit("svg");
        reveal_strlit("json");
        reveal_strlit("xml");
        reveal_strlit("png");
        reveal_strlit("jpg");
        reveal_strlit("jpeg");
        reveal_strlit("ico");
        reveal_strlit("woff2");
        reveal_strlit("woff");
        reveal_strlit("ttf");
        reveal_strlit("txt");
        reveal_strlit("text/html; charset=utf-8");
        reveal_strlit("text/css; charset=utf-8");
        reveal_strlit("application/javascript");
        reveal_strlit("application/wasm");
        reveal_strlit("image/svg+xml");
        reveal_strlit("application/json");
        reveal_strlit("application/xml; charset=utf-8");
        reveal_strlit("image/png");
        reveal_strlit("image/jpeg");
        reveal_strlit("image/x-icon");
        reveal_strlit("font/woff2");
        reveal_strlit("font/woff");
        reveal_strlit("font/ttf");
        reveal_strlit("text/plain; charset=utf-8");
        reveal_strlit("application/octet-stream");
    }
    if same_text(ext, "html") {
        "text/html; charset=utf-8"
    } else if same_text(ext, "css") {
        "text/css; charset=utf-8"
    } else if same_text(ext, "js") {
        "application/javascript"
    } else if same_text(ext, "wasm") {
        "application/wasm"
    } else if same_text(ext, "svg") {
        "image/svg+xml"
    } else if same_text(ext, "json") {
        "application/json"
    } else if same_text(ext, "xml") {
        "application/xml; charset=utf-8"
    } else if same_text(ext, "png") {
        "image/png"
    } else if same_text(ext, "jpg") || same_text(ext, "jpeg") {
        "image/jpeg"
    } else if same_text(ext, "ico") {
        "image/x-icon"
    } else if same_text(ext, "woff2") {
        "font/woff2"
    } else if same_text(ext, "woff") {
        "font/woff"
    } else if same_text(ext, "ttf") {
        "font/ttf"
    } else if same_text(ext, "txt") {
        "text/plain; charset=utf-8"
    } else {
        "application/octet-stream"
    }
}

/// A path segment that may be followed: not empty, not `.` or `..`, and free
/// of path separators.
pub open spec fn segment_is_safe(seg: Seq<char>) -> bool {
    &&& seg.len() > 0
    &&& seg != "."@
    &&& seg != ".."@
    &&& !seg.contains('/')
    &&& !seg.contains('\\')
}

/// What a request for a static file resolves to: the path below the frontend
/// directory, as segments, and the content type to send the file with.
pub struct StaticTarget {
    pub segments: Vec<String>,
    pub content_type: &'static str,
}

fn segment_safe(seg: &String) -> (ok: bool)
    ensures
        ok == segment_is_safe(seg@),
{
    let s = seg.as_str();
    proof {
        reveal_strlit(".");
        reveal_strlit("..");
    }
    if s.unicode_len() == 0 || same_text(s, ".") || same_text(s, "..") {
        return false;
    }
    let n = s.unicode_len();
    let mut i: usize = 0;
    while i < n
        invariant
            n == s@.len(),
            s@ == seg@,
            i <= n,
            forall|k: int| 0 <= k < i ==> s@[k] != '/' && s@[k] != '\\',
        decreases n - i,
    {
        let c = s.get_char(i);
        if c == '/' || c == '\\' {
            assert(seg@[i as int] == c);
            return false;
        }
        i = i + 1;
    }
    assert(!s@.contains('/') && !s@.contains('\\'));
    true
}

fn copy_segments(tail: &Vec<String>) -> (v: Vec<String>)
    ensures
        v@ == tail@,
{
    let mut v: Vec<String> = Vec::new();
    let mut i: usize = 0;
    while i < tail.len()
        invariant
            i <= tail.len(),
            v@ == tail@.take(i as int),
        decreases tail.len() - i,
    {
        v.push(tail[i].clone());
        assert(v@ =~= tail@.take(i + 1));
        i = i + 1;
    }
    assert(tail@.take(tail.len() as int) =~= tail@);
    v
}

/// Resolves the path segments of a request for a static file. A path with an
/// unsafe segment is refused (`None`: answered with 404 before any file is
/// touched); the empty path names `index.html`. The content type follows the
/// last segment.
pub fn resolve_static(tail: &Vec<String>) -> (r: Option<StaticTarget>)
    ensures
        r is None <==> exists|i: int| 0 <= i < tail.len() && !segment_is_safe(#[trigger] tail[i]@),
        r matches Some(t) ==> {
            &&& tail.len() == 0 ==> t.segments.len() == 1 && t.segments[0]@ == "index.html"@
            &&& tail.len() > 0 ==> t.segments@ == tail@
            &&& t.content_type@ == content_type_of_extension(
                extension_of(t.segments[t.segments.len() - 1]@),
            )
        },
{
    let mut i: usize = 0;
    while i < tail.len()
        invariant
            i <= tail.len(),
            forall|k: int| 0 <= k < i ==> segment_is_safe(#[trigger] tail[k]@),
        decreases tail.len() - i,
    {
        if !segment_safe(&tail[i]) {
            return None;
        }
        i = i + 1;
    }
    let segments = if tail.len() == 0 {
        let mut v: Vec<String> = Vec::new();
        v.push(String::from_str("index.html"));
        v
    } else {
        copy_segments(tail)
    };
    let content_type = content_type_for(segments[segments.len() - 1].as_str());
    Some(StaticTarget { segments, content_type })
}

/// No segment of a served path climbs out of the frontend directory or
/// names a directory of its own: every segment of an accepted path is safe.
pub proof fn lemma_served_paths_stay_inside(tail: Seq<String>, i: int)
    requires
        forall|k: int| 0 <= k < tail.len() ==> segment_is_safe(#[trigger] tail[k]@),
        0 <= i < tail.len(),
    ensures
        tail[i]@ != ".."@,
        !tail[i]@.contains('/'),
{
}

/// A segment is refused only when it is empty, `.` or `..`, or holds a `/` or
/// a `\\`; any other segment, whatever other characters it holds, is accepted.
pub proof fn lemma_only_unsafe_segments_are_refused(seg: Seq<char>)
    ensures
        (seg.len() > 0 && seg != "."@ && seg != ".."@ && (forall|k: int|
            0 <= k < seg.len() ==> #[trigger] seg[k] != '/' && seg[k] != '\\')) ==> segment_is_safe(seg),
        (exists|k: int| 0 <= k < seg.len() && (#[trigger] seg[k] == '/' || seg[k] == '\\'))
            ==> !segment_is_safe(seg),
        seg.len() == 0 ==> !segment_is_safe(seg),
        seg == "."@ || seg == ".."@ ==> !segment_is_safe(seg),
{
}

} // verus!
