use vstd::prelude::*;

verus! {

/// The characters that separate the components of a path.
pub open spec fn is_separator(c: char) -> bool {
    c == '/' || c == '\\'
}

/// What is left of `s` when every path separator is taken out.
pub open spec fn strip_separators(s: Seq<char>) -> Seq<char> {
    s.filter(|c: char| !is_separator(c))
}

/// `s` holds no path separator.
pub open spec fn separator_free(s: Seq<char>) -> bool {
    forall|i: int| 0 <= i < s.len() ==> !is_separator(#[trigger] s[i])
}

/// `s` names the directory itself or its parent.
pub open spec fn is_dot_name(s: Seq<char>) -> bool {
    s =~= seq!['.'] || s =~= seq!['.', '.']
}

/// `s` can stand as one component of a path and names an entry of the
/// directory it is joined to: it is not empty, holds no separator, and is
/// neither `.` nor `..`.
pub open spec fn is_safe_component(s: Seq<char>) -> bool {
    &&& s.len() > 0
    &&& separator_free(s)
    &&& !is_dot_name(s)
}

/// The file name that a download is stored under: the suggested name with its
/// separators taken out, where one is given and that leaves a safe component;
/// else the canonical identifier, treated the same way; else none.
pub open spec fn derived_name(suggested: Option<Seq<char>>, canonical_id: Seq<char>) -> Option<
    Seq<char>,
> {
    if suggested is Some && is_safe_component(strip_separators(suggested->0)) {
        Some(strip_separators(suggested->0))
    } else if is_safe_component(strip_separators(canonical_id)) {
        Some(strip_separators(canonical_id))
    } else {
        None
    }
}

/// The path of the entry `name` of the directory `dir`. An empty `dir` is the
/// current directory; a `dir` that ends in `/` gets no second one.
pub open spec fn joined_path(dir: Seq<char>, name: Seq<char>) -> Seq<char> {
    if dir.len() == 0 {
        name
    } else if dir.last() == '/' {
        dir + name
    } else {
        dir + seq!['/'] + name
    }
}

/// The characters of an optional string.
pub open spec fn view_of(s: Option<&str>) -> Option<Seq<char>> {
    match s {
        Some(t) => Some(t@),
        None => None,
    }
}

/// `path` is `dir` followed by one safe component, so it names an entry of
/// `dir` and nothing above or beside it.
pub open spec fn stays_within(path: Seq<char>, dir: Seq<char>) -> bool {
    exists|name: Seq<char>| is_safe_component(name) && path == #[trigger] joined_path(dir, name)
}

/// Trusted: `String::push` of the standard library. The string afterwards is
/// the string before with `c` at its end.
#[verifier::external_body]
fn push_char(s: &mut String, c: char)
    ensures
        final(s)@ == old(s)@.push(c),
{
    s.push(c);
}

/// Removes every path separator from `name` and keeps the rest in order.
pub fn sanitize(name: &str) -> (clean: String)
    ensures
        clean@ == strip_separators(name@),
        separator_free(clean@),
{
    let mut clean = String::new();
    for c in it: name.chars()
        invariant
            it.seq() == name@,
            clean@ == strip_separators(name@.take(it.index())),
    {
        proof {
            let i = it.index();
            assert(c == name@[i]);
            assert(name@.take(i + 1).drop_last() == name@.take(i));
            reveal(Seq::filter);
        }
        if c != '/' && c != '\\' {
            push_char(&mut clean, c);
        }
    }
    proof {
        assert(name@.take(name@.len() as int) == name@);
        lemma_strip_is_separator_free(name@);
    }
    clean
}

/// Stripping leaves no separator behind.
pub proof fn lemma_strip_is_separator_free(s: Seq<char>)
    ensures
        separator_free(strip_separators(s)),
{
    let kept = strip_separators(s);
    assert forall|i: int| 0 <= i < kept.len() implies !is_separator(#[trigger] kept[i]) by {
        Seq::lemma_filter_pred(s, |c: char| !is_separator(c), i);
    }
}

/// Stripping changes nothing in a string without separators.
pub proof fn lemma_strip_keeps_separator_free(s: Seq<char>)
    requires
        separator_free(s),
    ensures
        strip_separators(s) == s,
    decreases s.len(),
{
    reveal(Seq::filter);
    if s.len() > 0 {
        lemma_strip_keeps_separator_free(s.drop_last());
        assert(!is_separator(s[s.len() - 1]));
        assert(s.drop_last().push(s.last()) =~= s);
    }
}

/// Whether `name` can stand as one component of a path.
pub fn is_safe_name(name: &str) -> (safe: bool)
    ensures
        safe == is_safe_component(name@),
{
    let mut len: usize = 0;
    let mut dots_only = true;
    let mut clean = true;
    for c in it: name.chars()
        invariant
            it.seq() == name@,
            len as int == if it.index() < 3 { it.index() } else { 3 },
            dots_only == (forall|j: int| 0 <= j < it.index() ==> name@[j] == '.'),
            clean == (forall|j: int| 0 <= j < it.index() ==> !is_separator(#[trigger] name@[j])),
    {
        proof {
            assert(c == name@[it.index()]);
        }
        if len < 3 {
            len = len + 1;
        }
        if c != '.' {
            dots_only = false;
        }
        if c == '/' || c == '\\' {
            clean = false;
        }
    }
    proof {
        let s = name@;
        if s.len() == 1 {
            assert(dots_only == (s =~= seq!['.'])) by {
                if dots_only {
                    assert(s[0] == '.');
                }
            }
        }
        if s.len() == 2 {
            assert(dots_only == (s =~= seq!['.', '.'])) by {
                if dots_only {
                    assert(s[0] == '.');
                    assert(s[1] == '.');
                }
            }
        }
    }
    len > 0 && clean && !(dots_only && len <= 2)
}

/// Chooses the file name for a download: see [`derived_name`].
pub fn derive_file_name(suggested: Option<&str>, canonical_id: &str) -> (name: Option<String>)
    ensures
        match name {
            Some(n) => derived_name(view_of(suggested), canonical_id@) == Some(n@),
            None => derived_name(view_of(suggested), canonical_id@) is None,
        },
{
    if let Some(wanted) = suggested {
        let clean = sanitize(wanted);
        if is_safe_name(clean.as_str()) {
            return Some(clean);
        }
    }
    let fallback = sanitize(canonical_id);
    if is_safe_name(fallback.as_str()) {
        Some(fallback)
    } else {
        None
    }
}

/// Joins a directory and a file name: see [`joined_path`].
pub fn join_path(dir: &str, name: &str) -> (path: String)
    ensures
        path@ == joined_path(dir@, name@),
{
    let n = dir.unicode_len();
    if n == 0 {
        return name.to_owned();
    }
    let mut path = dir.to_owned();
    if dir.get_char(n - 1) != '/' {
        push_char(&mut path, '/');
    }
    path.append(name);
    proof {
        assert(seq!['/'] =~= Seq::<char>::empty().push('/'));
        assert(dir@.push('/') =~= dir@ + seq!['/']);
    }
    path
}

/// A derived name is always a safe component, whatever was suggested.
pub proof fn lemma_derived_name_is_safe(suggested: Option<Seq<char>>, canonical_id: Seq<char>)
    ensures
        derived_name(suggested, canonical_id) matches Some(n) ==> is_safe_component(n),
{
}

/// Without a suggested name, or with an empty one, a download is stored under
/// the canonical identifier itself, provided that this is a safe component.
pub proof fn lemma_name_falls_back_to_canonical_id(
    suggested: Option<Seq<char>>,
    canonical_id: Seq<char>,
)
    requires
        suggested is None || suggested->0.len() == 0,
        is_safe_component(canonical_id),
    ensures
        derived_name(suggested, canonical_id) == Some(canonical_id),
        canonical_id.len() > 0,
{
    lemma_strip_keeps_separator_free(canonical_id);
    if suggested is Some {
        lemma_strip_keeps_separator_free(suggested->0);
    }
}

/// A name is derived exactly when the suggested name or the canonical
/// identifier leaves a safe component once its separators are gone.
pub proof fn lemma_derived_name_exists_iff(suggested: Option<Seq<char>>, canonical_id: Seq<char>)
    ensures
        derived_name(suggested, canonical_id) is Some <==> (suggested is Some && is_safe_component(
            strip_separators(suggested->0),
        )) || is_safe_component(strip_separators(canonical_id)),
{
}

/// The path of a download never leaves the destination directory: whatever
/// name was suggested, the path is the directory followed by one safe
/// component.
pub proof fn lemma_destination_stays_within(
    dir: Seq<char>,
    suggested: Option<Seq<char>>,
    canonical_id: Seq<char>,
)
    ensures
        derived_name(suggested, canonical_id) matches Some(n) ==> stays_within(
            joined_path(dir, n),
            dir,
        ),
{
    if let Some(n) = derived_name(suggested, canonical_id) {
        assert(is_safe_component(n));
        assert(joined_path(dir, n) == joined_path(dir, n));
    }
}

/// A path that stays within `dir` starts with `dir`, and what follows holds
/// no separator but, where `dir` does not end in one, the single `/` that
/// joins the two.
pub proof fn lemma_within_has_dir_as_prefix(path: Seq<char>, dir: Seq<char>)
    requires
        stays_within(path, dir),
    ensures
        dir.is_prefix_of(path),
        path.len() > dir.len(),
        forall|i: int| dir.len() < i < path.len() ==> !is_separator(#[trigger] path[i]),
        dir.len() == 0 || dir.last() == '/' ==> !is_separator(path[dir.len() as int]),
        dir.len() > 0 && dir.last() != '/' ==> path[dir.len() as int] == '/',
{
    let name = choose|name: Seq<char>| is_safe_component(name) && path == #[trigger] joined_path(dir, name);
    assert forall|i: int| dir.len() < i < path.len() implies !is_separator(#[trigger] path[i]) by {
        if dir.len() == 0 || dir.last() == '/' {
            assert(path[i] == name[i - dir.len()]);
        } else {
            assert(path[i] == name[i - dir.len() - 1]);
        }
    }
    if dir.len() == 0 || dir.last() == '/' {
        assert(path[dir.len() as int] == name[0]);
    }
}

} // verus!
