//! Separators of a directory path, and what they part.

use vstd::prelude::*;

verus! {

/// `String::push` puts one character behind those that the string holds
/// and leaves them as they were.
pub assume_specification[ String::push ](text: &mut String, ch: char)
    ensures
        final(text)@ == old(text)@.push(ch),
;

/// Which characters part the components of a path.
pub enum Separators {
    /// The slash alone, as in the text handed to the linker.
    Slash,
    /// The slash and the backslash alike, as on a host that writes either.
    SlashOrBackslash,
}

impl Separators {
    /// Whether `c` ends one component and begins the next.
    pub open spec fn parts(self, c: char) -> bool {
        c == '/' || (self is SlashOrBackslash && c == '\\')
    }
}

/// A backslash becomes a slash; any other character stays.
pub open spec fn slashed(c: char) -> char {
    if c == '\\' {
        '/'
    } else {
        c
    }
}

/// `path` with a slash in place of each backslash.
pub open spec fn forward_slashes(path: Seq<char>) -> Seq<char> {
    Seq::new(path.len(), |i: int| slashed(path[i]))
}

/// A letter that can name a drive.
pub open spec fn is_drive_letter(c: char) -> bool {
    ('a' <= c && c <= 'z') || ('A' <= c && c <= 'Z')
}

/// `path` starts at a root: with a separator, or with a drive letter, a
/// colon and a separator.
pub open spec fn is_absolute(path: Seq<char>, seps: Separators) -> bool {
    ||| path.len() >= 1 && seps.parts(path[0])
    ||| path.len() >= 3 && is_drive_letter(path[0]) && path[1] == ':' && seps.parts(path[2])
}

/// `path[from..to]` is one whole component: a separator or an end of the
/// path stands on each side of it, and no separator within.
pub open spec fn is_component(path: Seq<char>, from: int, to: int, seps: Separators) -> bool {
    &&& 0 <= from <= to <= path.len()
    &&& from == 0 || seps.parts(path[from - 1])
    &&& to == path.len() || seps.parts(path[to])
    &&& forall|k: int| from <= k < to ==> !seps.parts(#[trigger] path[k])
}

/// The names `.` and `..`, which stand for a directory relative to another.
pub open spec fn is_relative_name(name: Seq<char>) -> bool {
    name =~= seq!['.'] || name =~= seq!['.', '.']
}

/// Some component of `path` is `.` or `..`.
pub open spec fn has_relative_component(path: Seq<char>, seps: Separators) -> bool {
    exists|from: int, to: int|
        is_component(path, from, to, seps) && is_relative_name(#[trigger] path.subrange(from, to))
}

/// `path` is absolute and none of its components is `.` or `..`.
pub open spec fn is_resolved(path: Seq<char>, seps: Separators) -> bool {
    is_absolute(path, seps) && !has_relative_component(path, seps)
}

/// Writes `path` with forward slashes only.
pub fn normalize_separators(path: &str) -> (out: String)
    ensures
        out@ == forward_slashes(path@),
        !out@.contains('\\'),
{
    let mut out = String::new();
    let chars = path.chars();
    for c in it: chars
        invariant
            it.seq() == path@,
            out@ == forward_slashes(path@.take(it.index())),
    {
        if c == '\\' {
            out.push('/');
        } else {
            out.push(c);
        }
    }
    out
}

/// No backslash is left in a path written with forward slashes.
pub proof fn lemma_no_backslash_remains(path: Seq<char>)
    ensures
        !forward_slashes(path).contains('\\'),
{
}

/// A path that holds no backslash is its own forward-slash form, and no
/// other path is.
pub proof fn lemma_unchanged_iff_no_backslash(path: Seq<char>)
    ensures
        forward_slashes(path) == path <==> !path.contains('\\'),
{
    let out = forward_slashes(path);
    if !path.contains('\\') {
        assert(out =~= path);
    }
}

/// Writing a path with forward slashes keeps its components where they
/// were: what either separator parted before, the slash parts after, and
/// each component keeps its name.
pub proof fn lemma_components_kept(path: Seq<char>, from: int, to: int)
    ensures
        is_component(forward_slashes(path), from, to, Separators::Slash) <==> is_component(
            path,
            from,
            to,
            Separators::SlashOrBackslash,
        ),
        is_component(path, from, to, Separators::SlashOrBackslash) ==> forward_slashes(
            path,
        ).subrange(from, to) == path.subrange(from, to),
{
    let out = forward_slashes(path);
    if is_component(path, from, to, Separators::SlashOrBackslash) {
        assert(out.subrange(from, to) =~= path.subrange(from, to));
    }
    if is_component(out, from, to, Separators::Slash) {
        assert forall|k: int| from <= k < to implies !Separators::SlashOrBackslash.parts(
            #[trigger] path[k],
        ) by {
            assert(!Separators::Slash.parts(out[k]));
        }
    }
}

/// The forward-slash form of a path is absolute and free of `.` and `..`
/// exactly when the path itself is so, with either separator parting its
/// components.
pub proof fn lemma_resolved_kept(path: Seq<char>)
    ensures
        is_resolved(forward_slashes(path), Separators::Slash) <==> is_resolved(
            path,
            Separators::SlashOrBackslash,
        ),
{
    let out = forward_slashes(path);
    if has_relative_component(out, Separators::Slash) {
        let (from, to) = choose|from: int, to: int|
            is_component(out, from, to, Separators::Slash) && is_relative_name(
                #[trigger] out.subrange(from, to),
            );
        lemma_components_kept(path, from, to);
    }
    if has_relative_component(path, Separators::SlashOrBackslash) {
        let (from, to) = choose|from: int, to: int|
            is_component(path, from, to, Separators::SlashOrBackslash) && is_relative_name(
                #[trigger] path.subrange(from, to),
            );
        lemma_components_kept(path, from, to);
    }
}

/// A path that holds no backslash has the same components whichever
/// separators are read, so it is resolved with the one reading exactly
/// when it is with the other.
pub proof fn lemma_readings_agree_without_backslash(path: Seq<char>)
    requires
        !path.contains('\\'),
    ensures
        is_resolved(path, Separators::Slash) <==> is_resolved(path, Separators::SlashOrBackslash),
{
    lemma_unchanged_iff_no_backslash(path);
    lemma_resolved_kept(path);
}

} // verus!
