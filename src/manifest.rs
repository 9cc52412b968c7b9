//! The segment manifest: the append-only list of segment file names that the
//! transcoder writes as it closes each segment.

use vstd::prelude::*;
use crate::text::{split_lines, text_lines};

verus! {

/// The length of one segment, in seconds.
pub const SEGMENT_SECONDS: u64 = 3;

/// The views of a sequence of strings.
pub open spec fn views(v: Seq<String>) -> Seq<Seq<char>> {
    v.map_values(|s: String| s@)
}

/// The segment names that a manifest lists, in the order it lists them.
pub open spec fn manifest_entries(content: Seq<char>) -> Seq<Seq<char>> {
    text_lines(content)
}

/// Reads the segment names from the text of a manifest: one name per line,
/// surrounding blanks dropped, blank lines skipped.
pub fn parse_manifest(content: &str) -> (r: Vec<String>)
    ensures
        views(r@) == manifest_entries(content@),
{
    split_lines(content)
}

/// The number of complete segments in a recording of `elapsed` seconds.
pub open spec fn segments_for(elapsed: nat, segment: nat) -> nat
    recommends
        segment > 0,
{
    elapsed / segment
}

/// The number of segments that a recording of `elapsed_secs` seconds has
/// closed, at `segment_secs` seconds each.
pub fn expected_segments(elapsed_secs: u64, segment_secs: u64) -> (r: u64)
    requires
        segment_secs > 0,
    ensures
        r == segments_for(elapsed_secs as nat, segment_secs as nat),
{
    elapsed_secs / segment_secs
}

/// Whether a manifest already lists every segment that a recording of
/// `elapsed_secs` seconds has closed: stopping waits for this.
pub fn manifest_caught_up(content: &str, elapsed_secs: u64, segment_secs: u64) -> (r: bool)
    requires
        segment_secs > 0,
    ensures
        r == (manifest_entries(content@).len() >= segments_for(
            elapsed_secs as nat,
            segment_secs as nat,
        )),
{
    let entries = parse_manifest(content);
    entries.len() as u64 >= expected_segments(elapsed_secs, segment_secs)
}

/// After `t` seconds of recording at `n` seconds a segment, the closed
/// segments cover at most `t` seconds, and one more segment would cover more
/// than `t`: the segment in flight is the only one not yet listed.
pub proof fn lemma_segment_count(t: nat, n: nat)
    requires
        n > 0,
    ensures
        segments_for(t, n) * n <= t,
        t < (segments_for(t, n) + 1) * n,
{
    assert(segments_for(t, n) * n <= t) by (nonlinear_arith)
        requires
            n > 0,
            segments_for(t, n) == t / n,
    ;
    assert(t < (segments_for(t, n) + 1) * n) by (nonlinear_arith)
        requires
            n > 0,
            segments_for(t, n) == t / n,
    ;
}

/// The names of `current` that are neither in `seen` nor earlier in `current`,
/// in the order `current` lists them.
pub open spec fn fresh_entries(seen: Seq<Seq<char>>, current: Seq<Seq<char>>) -> Seq<Seq<char>>
    decreases current.len(),
{
    if current.len() == 0 {
        seq![]
    } else {
        let prev = fresh_entries(seen, current.drop_last());
        let x = current.last();
        if seen.contains(x) || prev.contains(x) {
            prev
        } else {
            prev.push(x)
        }
    }
}

/// The names handed out are new, each appears once, and together with
/// `seen` they cover every name of `current`.
pub proof fn lemma_fresh_entries(seen: Seq<Seq<char>>, current: Seq<Seq<char>>)
    ensures
        forall|i: int|
            0 <= i < fresh_entries(seen, current).len() ==> !seen.contains(
                #[trigger] fresh_entries(seen, current)[i],
            ) && current.contains(fresh_entries(seen, current)[i]),
        fresh_entries(seen, current).no_duplicates(),
        forall|i: int|
            0 <= i < current.len() ==> seen.contains(#[trigger] current[i]) || fresh_entries(
                seen,
                current,
            ).contains(current[i]),
    decreases current.len(),
{
    if current.len() > 0 {
        let init = current.drop_last();
        lemma_fresh_entries(seen, init);
        let prev = fresh_entries(seen, init);
        let x = current.last();
        let f = fresh_entries(seen, current);
        assert forall|i: int| 0 <= i < f.len() implies !seen.contains(#[trigger] f[i])
            && current.contains(f[i]) by {
            if i < prev.len() {
                assert(f[i] == prev[i]);
                let k = choose|k: int| 0 <= k < init.len() && init[k] == prev[i];
                assert(current[k] == init[k]);
            } else {
                assert(f[i] == x);
                assert(current[current.len() - 1] == x);
            }
        }
        assert forall|i: int| 0 <= i < current.len() implies seen.contains(#[trigger] current[i])
            || f.contains(current[i]) by {
            if i < init.len() {
                assert(current[i] == init[i]);
                if !seen.contains(init[i]) {
                    let k = choose|k: int| 0 <= k < prev.len() && prev[k] == init[i];
                    if !(seen.contains(x) || prev.contains(x)) {
                        assert(f[k] == prev[k]);
                    }
                }
            } else {
                if !(seen.contains(x) || prev.contains(x)) {
                    assert(f[prev.len() as int] == x);
                }
            }
        }
    }
}

/// Whether `v` holds a string equal to `s`.
pub fn contains_string(v: &Vec<String>, s: &String) -> (r: bool)
    ensures
        r == views(v@).contains(s@),
{
    let mut i: usize = 0;
    while i < v.len()
        invariant
            i <= v.len(),
            forall|j: int| 0 <= j < i ==> v@[j]@ != s@,
        decreases v.len() - i,
    {
        if v[i] == *s {
            assert(views(v@)[i as int] == s@);
            return true;
        }
        i = i + 1;
    }
    assert forall|j: int| 0 <= j < views(v@).len() implies views(v@)[j] != s@ by {}
    false
}

/// The segment names of `current` that have not been seen before, each once,
/// in manifest order.
pub fn new_entries(seen: &Vec<String>, current: &Vec<String>) -> (r: Vec<String>)
    ensures
        views(r@) == fresh_entries(views(seen@), views(current@)),
{
    let mut out: Vec<String> = Vec::new();
    let mut i: usize = 0;
    while i < current.len()
        invariant
            i <= current.len(),
            views(out@) == fresh_entries(views(seen@), views(current@).take(i as int)),
        decreases current.len() - i,
    {
        assert(views(current@).take(i + 1).drop_last() =~= views(current@).take(i as int));
        let x = &current[i];
        if !contains_string(seen, x) && !contains_string(&out, x) {
            out.push(x.clone());
            assert(views(out@) =~= fresh_entries(views(seen@), views(current@).take(i + 1)));
        }
        i = i + 1;
    }
    assert(views(current@).take(current.len() as int) =~= views(current@));
    out
}

/// The line that names one segment in a concatenation directive.
pub open spec fn directive_line(entry: Seq<char>) -> Seq<char> {
    "file '"@ + entry + "'\n"@
}

/// A concatenation directive that lists `entries` in order.
pub open spec fn directive_text(entries: Seq<Seq<char>>) -> Seq<char>
    decreases entries.len(),
{
    if entries.len() == 0 {
        seq![]
    } else {
        directive_text(entries.drop_last()) + directive_line(entries.last())
    }
}

/// Writes the directive that tells the transcoder to concatenate `entries`,
/// one `file '<name>'` line per segment, in manifest order.
pub fn concat_directive(entries: &Vec<String>) -> (r: String)
    ensures
        r@ == directive_text(views(entries@)),
{
    let mut out = String::new();
    let mut i: usize = 0;
    while i < entries.len()
        invariant
            i <= entries.len(),
            out@ == directive_text(views(entries@).take(i as int)),
        decreases entries.len() - i,
    {
        assert(views(entries@).take(i + 1).drop_last() =~= views(entries@).take(i as int));
        out.append("file '");
        out.append(entries[i].as_str());
        out.append("'\n");
        assert(out@ =~= directive_text(views(entries@).take(i + 1)));
        i = i + 1;
    }
    assert(views(entries@).take(entries.len() as int) =~= views(entries@));
    out
}

} // verus!
