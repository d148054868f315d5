//! The concatenation manifest: one directive line per clip, in input
//! order, each path single-quoted with quotes escaped, so the text is
//! safe for the external engine's concatenation demuxer.

use crate::text::{escape_char_spec, escape_quotes_spec, escape_single_quotes,
    unescape_quotes_spec, lemma_escape_round_trip};
use crate::types::AudioClip;
use vstd::prelude::*;
use vstd::string::StringExecFns;

verus! {

/// One manifest line: the `file` directive, the escaped path in single
/// quotes, a terminating newline.
pub open spec fn manifest_line_spec(path: Seq<char>) -> Seq<char> {
    "file '"@ + escape_quotes_spec(path) + "'\n"@
}

/// The whole manifest: the line of each path, in order.
pub open spec fn manifest_text_spec(paths: Seq<Seq<char>>) -> Seq<char>
    decreases paths.len(),
{
    if paths.len() == 0 {
        Seq::empty()
    } else {
        manifest_line_spec(paths[0]) + manifest_text_spec(paths.skip(1))
    }
}

/// The paths of a clip list, in presentation order.
pub open spec fn clip_paths(clips: Seq<AudioClip>) -> Seq<Seq<char>> {
    clips.map_values(|c: AudioClip| c.path@)
}

proof fn lemma_manifest_push(paths: Seq<Seq<char>>, p: Seq<char>)
    ensures
        manifest_text_spec(paths.push(p)) == manifest_text_spec(paths) + manifest_line_spec(p),
    decreases paths.len(),
{
    if paths.len() == 0 {
        assert(paths.push(p).skip(1) =~= Seq::<Seq<char>>::empty());
        assert(paths.push(p)[0] == p);
        assert(manifest_text_spec(paths.push(p)) == manifest_line_spec(p) + manifest_text_spec(
            Seq::<Seq<char>>::empty(),
        ));
        assert(manifest_line_spec(p) + Seq::<char>::empty() =~= manifest_line_spec(p));
        assert(manifest_text_spec(paths) + manifest_line_spec(p) =~= manifest_line_spec(p));
    } else {
        assert(paths.push(p).skip(1) =~= paths.skip(1).push(p));
        lemma_manifest_push(paths.skip(1), p);
        assert(paths.push(p)[0] == paths[0]);
        assert(manifest_text_spec(paths.push(p)) =~= manifest_text_spec(paths)
            + manifest_line_spec(p));
    }
}

/// Builds the manifest text for the given clips: exactly one line per
/// clip, in input order, each path quote-escaped.
pub fn build_manifest_text(clips: &Vec<AudioClip>) -> (r: String)
    ensures
        r@ == manifest_text_spec(clip_paths(clips@)),
{
    let mut out = String::new();
    let mut i: usize = 0;
    proof {
        assert(clip_paths(clips@).take(0) =~= Seq::<Seq<char>>::empty());
    }
    while i < clips.len()
        invariant
            i <= clips@.len(),
            out@ == manifest_text_spec(clip_paths(clips@).take(i as int)),
        decreases clips@.len() - i,
    {
        let escaped = escape_single_quotes(clips[i].path.as_str());
        out.append("file '");
        out.append(escaped.as_str());
        out.append("'\n");
        proof {
            let paths = clip_paths(clips@);
            lemma_manifest_push(paths.take(i as int), paths[i as int]);
            assert(paths.take(i as int).push(paths[i as int]) =~= paths.take(i + 1 as int));
            assert(out@ =~= manifest_text_spec(paths.take(i as int)) + manifest_line_spec(
                paths[i as int],
            ));
        }
        i = i + 1;
    }
    proof {
        assert(clip_paths(clips@).take(clips@.len() as int) =~= clip_paths(clips@));
    }
    out
}

/// How many times `c` occurs in `s`.
pub open spec fn count_char(s: Seq<char>, c: char) -> int
    decreases s.len(),
{
    if s.len() == 0 {
        0
    } else {
        count_char(s.drop_last(), c) + if s.last() == c {
            1int
        } else {
            0int
        }
    }
}

proof fn lemma_count_char_add(a: Seq<char>, b: Seq<char>, c: char)
    ensures
        count_char(a + b, c) == count_char(a, c) + count_char(b, c),
    decreases b.len(),
{
    if b.len() == 0 {
        assert(a + b =~= a);
    } else {
        assert((a + b).drop_last() =~= a + b.drop_last());
        assert((a + b).last() == b.last());
        lemma_count_char_add(a, b.drop_last(), c);
    }
}

proof fn lemma_escape_preserves_count(s: Seq<char>, c: char)
    requires
        c != '\'',
        c != '\\',
    ensures
        count_char(escape_quotes_spec(s), c) == count_char(s, c),
    decreases s.len(),
{
    reveal_with_fuel(count_char, 6);
    if s.len() == 0 {
    } else {
        lemma_escape_preserves_count(s.skip(1), c);
        lemma_count_char_add(escape_char_spec(s[0]), escape_quotes_spec(s.skip(1)), c);
        lemma_count_char_add(seq![s[0]], s.skip(1), c);
        assert(seq![s[0]] + s.skip(1) =~= s);
    }
}

/// With newline-free paths, the manifest holds exactly one
/// newline-terminated line per clip: as many newlines as clips.
pub proof fn lemma_manifest_line_count(paths: Seq<Seq<char>>)
    requires
        forall|i: int| 0 <= i < paths.len() ==> count_char(#[trigger] paths[i], '\n') == 0,
    ensures
        count_char(manifest_text_spec(paths), '\n') == paths.len(),
    decreases paths.len(),
{
    reveal_with_fuel(count_char, 10);
    if paths.len() == 0 {
    } else {
        assert(forall|i: int|
            0 <= i < paths.skip(1).len() ==> #[trigger] paths.skip(1)[i] == paths[i + 1]);
        lemma_manifest_line_count(paths.skip(1));
        lemma_count_char_add(manifest_line_spec(paths[0]), manifest_text_spec(paths.skip(1)), '\n');
        lemma_count_char_add("file '"@ + escape_quotes_spec(paths[0]), "'\n"@, '\n');
        lemma_count_char_add("file '"@, escape_quotes_spec(paths[0]), '\n');
        lemma_escape_preserves_count(paths[0], '\n');
        reveal_strlit("file '");
        reveal_strlit("'\n");
        assert(count_char("file '"@, '\n') == 0);
        assert(count_char("'\n"@, '\n') == 1);
    }
}

/// A manifest line round-trips: stripping the directive and the quotes
/// and undoing the escaping recovers the clip's path exactly, so the
/// quoting never closes early, whatever quotes the path contains.
pub proof fn lemma_manifest_line_round_trip(path: Seq<char>)
    ensures
        manifest_line_spec(path).len() >= "file '"@.len() + "'\n"@.len(),
        unescape_quotes_spec(
            manifest_line_spec(path).subrange(
                "file '"@.len() as int,
                manifest_line_spec(path).len() - "'\n"@.len(),
            ),
        ) == path,
{
    lemma_escape_round_trip(path);
    assert(manifest_line_spec(path).subrange(
        "file '"@.len() as int,
        manifest_line_spec(path).len() - "'\n"@.len(),
    ) =~= escape_quotes_spec(path));
}

} // verus!
